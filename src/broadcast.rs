use vstd::prelude::*;

verus! {

/// A value that is set at most once and then read any number of times.
pub struct Broadcast<T> {
    value: Option<T>,
}

/// The value held after each of `attempts` was published in turn, starting from `start`.
pub open spec fn publish_all<T>(start: Option<T>, attempts: Seq<T>) -> Option<T>
    decreases attempts.len(),
{
    if attempts.len() == 0 {
        start
    } else {
        match publish_all(start, attempts.drop_last()) {
            Some(v) => Some(v),
            None => Some(attempts.last()),
        }
    }
}

impl<T> Broadcast<T> {
    /// The published value, if any.
    pub closed spec fn value(&self) -> Option<T> {
        self.value
    }

    /// A broadcast with nothing published yet.
    pub fn new() -> (r: Broadcast<T>)
        ensures
            r.value() is None,
    {
        Broadcast { value: None }
    }

    /// Publishes `v` if nothing was published yet; returns whether it was.
    /// A value once published is never replaced.
    pub fn publish(&mut self, v: T) -> (r: bool)
        ensures
            r == (old(self).value() is None),
            final(self).value() == (if r { Some(v) } else { old(self).value() }),
    {
        if self.value.is_some() {
            false
        } else {
            self.value = Some(v);
            true
        }
    }

    /// The published value, if any; reading changes nothing.
    pub fn get(&self) -> (r: Option<&T>)
        ensures
            match r {
                Some(x) => self.value() == Some(*x),
                None => self.value() is None,
            },
    {
        match &self.value {
            Some(x) => Some(x),
            None => None,
        }
    }

    pub fn is_published(&self) -> (r: bool)
        ensures
            r == (self.value() is Some),
    {
        self.value.is_some()
    }
}

/// Once a value is published, any further publications leave it as it is, so
/// every later reader observes that same value.
pub proof fn lemma_published_value_stays<T>(v: T, attempts: Seq<T>)
    ensures
        publish_all(Some(v), attempts) == Some(v),
    decreases attempts.len(),
{
    if attempts.len() > 0 {
        lemma_published_value_stays(v, attempts.drop_last());
    }
}

/// Of any number of publications into an empty broadcast, the first one is the
/// value that every reader observes.
pub proof fn lemma_first_publication_wins<T>(attempts: Seq<T>)
    requires
        attempts.len() > 0,
    ensures
        publish_all(None, attempts) == Some(attempts[0]),
    decreases attempts.len(),
{
    if attempts.len() > 1 {
        lemma_first_publication_wins(attempts.drop_last());
    } else {
        assert(publish_all(None, attempts.drop_last()) == None::<T>);
    }
}

} // verus!
