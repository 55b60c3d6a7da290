use std::collections::VecDeque;
use vstd::prelude::*;

verus! {

/// How many lines a default log buffer keeps.
pub const MAX_LOG_ENTRIES: usize = 200;

/// The output stream of the server process that a line came from.
#[derive(Clone, Copy, PartialEq, Eq, Debug)]
pub enum Stream {
    Stdout,
    Stderr,
}

/// The tag written in front of a line from `s`.
pub open spec fn stream_tag(s: Stream) -> Seq<char> {
    match s {
        Stream::Stdout => seq!['[', 'S', 'T', 'D', 'O', 'U', 'T', ']', ' '],
        Stream::Stderr => seq!['[', 'S', 'T', 'D', 'E', 'R', 'R', ']', ' '],
    }
}

/// The entry stored for `line` read from `s`.
pub open spec fn tagged(s: Stream, line: Seq<char>) -> Seq<char> {
    stream_tag(s) + line
}

/// The last `cap` entries of `entries` (all of them when there are fewer).
pub open spec fn keep_last<T>(entries: Seq<T>, cap: nat) -> Seq<T> {
    if entries.len() <= cap {
        entries
    } else {
        entries.subrange(entries.len() - cap, entries.len() as int)
    }
}

/// The entries after recording each of `lines` in turn, starting from `start`.
pub open spec fn record_all(
    start: Seq<Seq<char>>,
    lines: Seq<(Stream, Seq<char>)>,
    cap: nat,
) -> Seq<Seq<char>>
    decreases lines.len(),
{
    if lines.len() == 0 {
        start
    } else {
        keep_last(
            record_all(start, lines.drop_last(), cap).push(
                tagged(lines.last().0, lines.last().1),
            ),
            cap,
        )
    }
}

/// The entries stored for `lines`, one per line, in order.
pub open spec fn tag_all(lines: Seq<(Stream, Seq<char>)>) -> Seq<Seq<char>> {
    lines.map_values(|l: (Stream, Seq<char>)| tagged(l.0, l.1))
}

/// All entries written one after the other.
pub open spec fn concat_all(entries: Seq<Seq<char>>) -> Seq<char>
    decreases entries.len(),
{
    if entries.len() == 0 {
        Seq::empty()
    } else {
        concat_all(entries.drop_last()) + entries.last()
    }
}

/// Recent output lines of the server process, oldest first, at most `capacity` of them.
pub struct LogBuffer {
    entries: VecDeque<String>,
    capacity: usize,
}

impl Stream {
    /// The tag written in front of a line from this stream.
    pub fn tag(&self) -> (r: &'static str)
        ensures
            r@ == stream_tag(*self),
    {
        match self {
            Stream::Stdout => {
                proof { reveal_strlit("[STDOUT] "); }
                "[STDOUT] "
            },
            Stream::Stderr => {
                proof { reveal_strlit("[STDERR] "); }
                "[STDERR] "
            },
        }
    }
}

impl LogBuffer {
    /// The stored entries, oldest first.
    pub closed spec fn lines(&self) -> Seq<Seq<char>> {
        self.entries@.map_values(|e: String| e@)
    }

    /// The most entries the buffer keeps.
    pub closed spec fn cap(&self) -> nat {
        self.capacity as nat
    }

    pub open spec fn wf(&self) -> bool {
        self.lines().len() <= self.cap()
    }

    /// An empty buffer that keeps `MAX_LOG_ENTRIES` lines.
    pub fn new() -> (r: LogBuffer)
        ensures
            r.wf(),
            r.lines() == Seq::<Seq<char>>::empty(),
            r.cap() == MAX_LOG_ENTRIES as nat,
    {
        LogBuffer::with_capacity(MAX_LOG_ENTRIES)
    }

    /// An empty buffer that keeps `capacity` lines.
    pub fn with_capacity(capacity: usize) -> (r: LogBuffer)
        ensures
            r.wf(),
            r.lines() == Seq::<Seq<char>>::empty(),
            r.cap() == capacity as nat,
    {
        let r = LogBuffer { entries: VecDeque::new(), capacity };
        assert(r.lines() =~= Seq::<Seq<char>>::empty());
        r
    }

    /// The most entries the buffer keeps.
    pub fn capacity(&self) -> (r: usize)
        ensures
            r as nat == self.cap(),
    {
        self.capacity
    }

    /// How many entries are stored.
    pub fn len(&self) -> (r: usize)
        ensures
            r as nat == self.lines().len(),
    {
        self.entries.len()
    }

    /// Stores `line` from `stream`, tagged with the stream, as the newest entry;
    /// the oldest entry leaves when the buffer would otherwise hold too many.
    pub fn record(&mut self, stream: Stream, line: &str)
        requires
            old(self).wf(),
        ensures
            final(self).wf(),
            final(self).cap() == old(self).cap(),
            final(self).lines() == keep_last(old(self).lines().push(tagged(stream, line@)), old(self).cap()),
    {
        let mut entry = String::from_str(stream.tag());
        entry.append(line);
        let ghost pushed = self.lines().push(tagged(stream, line@));
        self.entries.push_back(entry);
        assert(self.lines() =~= pushed);
        if self.entries.len() > self.capacity {
            self.entries.pop_front();
            assert(self.lines() =~= pushed.subrange(pushed.len() - old(self).cap(), pushed.len() as int));
        }
    }

    /// The stored entries, oldest first.
    pub fn entries(&self) -> (r: Vec<String>)
        ensures
            r@.len() == self.lines().len(),
            forall|j: int| 0 <= j < r@.len() ==> #[trigger] r@[j]@ == self.lines()[j],
    {
        let mut out: Vec<String> = Vec::new();
        let n: usize = self.entries.len();
        let mut i: usize = 0;
        while i < n
            invariant
                n == self.lines().len(),
                i <= n,
                out@.len() == i,
                forall|j: int| 0 <= j < i ==> #[trigger] out@[j]@ == self.lines()[j],
            decreases n - i,
        {
            let e = self.entries[i].clone();
            assert(e@ == self.lines()[i as int]);
            out.push(e);
            i = i + 1;
        }
        out
    }

    /// All stored entries written one after the other, oldest first.
    pub fn contents(&self) -> (r: String)
        ensures
            r@ == concat_all(self.lines()),
    {
        let mut out = String::new();
        let n: usize = self.entries.len();
        let mut i: usize = 0;
        while i < n
            invariant
                n == self.lines().len(),
                i <= n,
                out@ == concat_all(self.lines().subrange(0, i as int)),
            decreases n - i,
        {
            assert(self.lines().subrange(0, i + 1).drop_last() =~= self.lines().subrange(0, i as int));
            out.append(self.entries[i].as_str());
            i = i + 1;
        }
        assert(self.lines().subrange(0, n as int) =~= self.lines());
        out
    }
}

proof fn lemma_keep_last_twice<T>(s: Seq<T>, x: T, cap: nat)
    ensures
        keep_last(keep_last(s, cap).push(x), cap) == keep_last(s.push(x), cap),
{
    if s.len() > cap {
        assert(keep_last(keep_last(s, cap).push(x), cap) =~= keep_last(s.push(x), cap));
    }
}

/// Recording lines one at a time into an empty buffer leaves exactly the most
/// recent `cap` of them, in the order they arrived, each tagged with its stream.
pub proof fn lemma_keeps_most_recent(lines: Seq<(Stream, Seq<char>)>, cap: nat)
    ensures
        record_all(Seq::empty(), lines, cap) == keep_last(tag_all(lines), cap),
        lines.len() > cap ==> record_all(Seq::empty(), lines, cap).len() == cap,
        lines.len() > cap ==> forall|i: int| 0 <= i < cap ==>
            #[trigger] record_all(Seq::empty(), lines, cap)[i]
                == tagged(lines[lines.len() - cap + i].0, lines[lines.len() - cap + i].1),
    decreases lines.len(),
{
    if lines.len() > 0 {
        lemma_keeps_most_recent(lines.drop_last(), cap);
        let l = lines.last();
        lemma_keep_last_twice(tag_all(lines.drop_last()), tagged(l.0, l.1), cap);
        assert(tag_all(lines.drop_last()).push(tagged(l.0, l.1)) =~= tag_all(lines));
    } else {
        assert(tag_all(lines) =~= Seq::<Seq<char>>::empty());
    }
}

} // verus!
