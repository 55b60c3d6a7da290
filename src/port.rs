use vstd::prelude::*;

verus! {

/// The largest value a port setting may name.
pub const PORT_VALUE_MAX: u64 = 4294967295;

pub open spec fn is_digit(c: char) -> bool {
    '0' <= c && c <= '9'
}

pub open spec fn digit_value(c: char) -> nat {
    (c as u32 - '0' as u32) as nat
}

/// The number that the decimal digits `d` spell.
pub open spec fn digits_value(d: Seq<char>) -> nat
    decreases d.len(),
{
    if d.len() == 0 {
        0
    } else {
        digits_value(d.drop_last()) * 10 + digit_value(d.last())
    }
}

/// The digits of a port setting: the text after one optional leading `+`.
pub open spec fn number_digits(s: Seq<char>) -> Seq<char> {
    if s.len() > 0 && s[0] == '+' {
        s.subrange(1, s.len() as int)
    } else {
        s
    }
}

/// The port that the setting `s` names: one or more decimal digits, optionally
/// after a `+`, whose value fits in 32 bits.
pub open spec fn port_value(s: Seq<char>) -> Option<u32> {
    let d = number_digits(s);
    if d.len() > 0 && (forall|i: int| 0 <= i < d.len() ==> is_digit(#[trigger] d[i]))
        && digits_value(d) <= PORT_VALUE_MAX {
        Some(digits_value(d) as u32)
    } else {
        None
    }
}

/// Reads a port setting as an unsigned 32-bit decimal number.
pub fn parse_port(s: &str) -> (r: Option<u32>)
    ensures
        r == port_value(s@),
{
    let n: usize = s.unicode_len();
    let mut start: usize = 0;
    if n > 0 && s.get_char(0) == '+' {
        start = 1;
    }
    let ghost d = number_digits(s@);
    assert(d =~= s@.subrange(start as int, n as int));
    if start == n {
        return None;
    }
    // Values past the largest port are kept at `PORT_VALUE_MAX + 1`.
    let mut acc: u64 = 0;
    let mut i: usize = start;
    while i < n
        invariant
            start <= i <= n,
            n == s@.len(),
            d == s@.subrange(start as int, n as int),
            d == number_digits(s@),
            forall|j: int| 0 <= j < i - start ==> is_digit(#[trigger] d[j]),
            acc as nat == if digits_value(d.subrange(0, i - start)) <= PORT_VALUE_MAX {
                digits_value(d.subrange(0, i - start))
            } else {
                PORT_VALUE_MAX as nat + 1
            },
        decreases n - i,
    {
        let c = s.get_char(i);
        if c < '0' || c > '9' {
            assert(d[i - start] == c && !is_digit(d[i - start]));
            return None;
        }
        let dv: u64 = (c as u32 - '0' as u32) as u64;
        let ghost prev = d.subrange(0, i - start);
        assert(d.subrange(0, i + 1 - start).drop_last() =~= prev);
        assert(d.subrange(0, i + 1 - start).last() == c);
        let next: u64 = acc * 10 + dv;
        if next > PORT_VALUE_MAX {
            acc = PORT_VALUE_MAX + 1;
            assert(digits_value(prev) * 10 + dv > PORT_VALUE_MAX);
        } else {
            acc = next;
        }
        i = i + 1;
    }
    assert(d.subrange(0, n - start) =~= d);
    if acc > PORT_VALUE_MAX {
        None
    } else {
        Some(acc as u32)
    }
}

/// The port that the environment asks for: the build-time setting when there is
/// one, else the run-time setting; `None` when the chosen setting is absent or
/// does not name a port (the caller then picks a free port).
pub fn port_override(build_time: Option<&str>, run_time: Option<&str>) -> (r: Option<u32>)
    ensures
        r == match build_time {
            Some(b) => port_value(b@),
            None => match run_time {
                Some(e) => port_value(e@),
                None => None,
            },
        },
{
    match build_time {
        Some(b) => parse_port(b),
        None => match run_time {
            Some(e) => parse_port(e),
            None => None,
        },
    }
}

/// The TCP port number used to reach a port setting (its low 16 bits).
pub fn socket_port(port: u32) -> (r: u16)
    ensures
        r as int == port as int % 65536,
{
    (port % 65536) as u16
}

} // verus!
