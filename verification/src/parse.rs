//! Parsing the device's answer to a brightness query.
//!
//! The query path returns the current level as a line of text: the decimal
//! digits of the level, usually framed by a trailing newline and other
//! ASCII whitespace.  The parser turns those raw bytes into the level, and
//! says exactly on which inputs it fails instead.

use vstd::prelude::*;

verus! {

/// Why the bytes of a brightness answer did not yield a level.
#[derive(Clone, Copy, Debug, PartialEq, Eq, Structural)]
pub enum LevelParseError {
    /// Nothing but whitespace.
    Empty,
    /// A byte between the framing whitespace is not a decimal digit.
    InvalidDigit,
    /// All digits, but the value does not fit in a level byte.
    OutOfRange,
}

/// ASCII whitespace: space, tab, line feed, form feed, carriage return.
pub open spec fn is_ascii_space(b: u8) -> bool {
    b == 32 || b == 9 || b == 10 || b == 12 || b == 13
}

/// An ASCII decimal digit.
pub open spec fn is_ascii_digit(b: u8) -> bool {
    48 <= b && b <= 57
}

/// The sequence with its leading whitespace removed.
pub open spec fn trim_front(s: Seq<u8>) -> Seq<u8>
    decreases s.len(),
{
    if s.len() > 0 && is_ascii_space(s[0]) {
        trim_front(s.subrange(1, s.len() as int))
    } else {
        s
    }
}

/// The sequence with its trailing whitespace removed.
pub open spec fn trim_back(s: Seq<u8>) -> Seq<u8>
    decreases s.len(),
{
    if s.len() > 0 && is_ascii_space(s[s.len() - 1]) {
        trim_back(s.subrange(0, s.len() - 1))
    } else {
        s
    }
}

/// The sequence with whitespace removed from both ends.
pub open spec fn trimmed(s: Seq<u8>) -> Seq<u8> {
    trim_back(trim_front(s))
}

/// Every byte is a decimal digit.
pub open spec fn all_digits(s: Seq<u8>) -> bool {
    forall|i: int| 0 <= i < s.len() ==> is_ascii_digit(s[i])
}

/// The number the digit bytes denote in decimal.
pub open spec fn digits_value(s: Seq<u8>) -> int
    decreases s.len(),
{
    if s.len() == 0 {
        0
    } else {
        digits_value(s.drop_last()) * 10 + (s.last() - 48)
    }
}

/// Appending a digit multiplies a string's value by ten and adds the digit;
/// in particular a non-negative value never shrinks.
proof fn lemma_digits_value_push(s: Seq<u8>, b: u8)
    requires
        is_ascii_digit(b),
        digits_value(s) >= 0,
    ensures
        digits_value(s.push(b)) == digits_value(s) * 10 + (b - 48),
        digits_value(s.push(b)) >= digits_value(s),
{
    assert(s.push(b).drop_last() =~= s);
    assert(s.push(b).last() == b);
}

/// Parse the level out of the raw bytes of a brightness query answer.
/// After ASCII whitespace is trimmed from both ends, the remainder must be
/// one or more decimal digits whose value fits in a byte; the result says
/// exactly which of the three ways the input can fall short applied.
pub fn get_current_level(output: &[u8]) -> (r: Result<u8, LevelParseError>)
    ensures
        ({
            let t = trimmed(output@);
            match r {
                Ok(v) => t.len() > 0 && all_digits(t) && digits_value(t) == v as int,
                Err(LevelParseError::Empty) => t.len() == 0,
                Err(LevelParseError::InvalidDigit) => t.len() > 0 && !all_digits(t),
                Err(LevelParseError::OutOfRange) => t.len() > 0 && all_digits(t) && digits_value(
                    t,
                ) > 255,
            }
        }),
{
    let n: usize = output.len();
    proof {
        assert(output@.subrange(0, n as int) =~= output@);
    }
    let mut lo: usize = 0;
    while lo < n && (output[lo] == 32 || output[lo] == 9 || output[lo] == 10 || output[lo] == 12
        || output[lo] == 13)
        invariant
            lo <= n,
            n == output@.len(),
            trim_front(output@) == trim_front(output@.subrange(lo as int, n as int)),
        decreases n - lo,
    {
        proof {
            let cur = output@.subrange(lo as int, n as int);
            assert(cur[0] == output@[lo as int]);
            assert(cur.subrange(1, cur.len() as int) =~= output@.subrange(lo + 1, n as int));
        }
        lo = lo + 1;
    }
    proof {
        let cur = output@.subrange(lo as int, n as int);
        if lo < n {
            assert(cur[0] == output@[lo as int]);
            assert(!is_ascii_space(cur[0]));
        }
        assert(trim_front(cur) == cur);
    }
    let mut hi: usize = n;
    while hi > lo && (output[hi - 1] == 32 || output[hi - 1] == 9 || output[hi - 1] == 10
        || output[hi - 1] == 12 || output[hi - 1] == 13)
        invariant
            lo <= hi <= n,
            n == output@.len(),
            trim_front(output@) == output@.subrange(lo as int, n as int),
            trim_back(output@.subrange(lo as int, n as int)) == trim_back(
                output@.subrange(lo as int, hi as int),
            ),
        decreases hi,
    {
        proof {
            let cur = output@.subrange(lo as int, hi as int);
            assert(cur[cur.len() - 1] == output@[hi - 1]);
            assert(cur.subrange(0, cur.len() - 1) =~= output@.subrange(lo as int, hi - 1));
        }
        hi = hi - 1;
    }
    proof {
        let cur = output@.subrange(lo as int, hi as int);
        if hi > lo {
            assert(cur[cur.len() - 1] == output@[hi - 1]);
            assert(!is_ascii_space(cur[cur.len() - 1]));
        }
        assert(trim_back(cur) == cur);
        assert(trimmed(output@) == output@.subrange(lo as int, hi as int));
    }
    if lo == hi {
        proof {
            assert(trimmed(output@).len() == 0);
        }
        return Err(LevelParseError::Empty);
    }
    let ghost t = output@.subrange(lo as int, hi as int);
    let mut acc: u32 = 0;
    let mut too_big: bool = false;
    let mut i: usize = lo;
    while i < hi
        invariant
            lo <= i <= hi <= n,
            lo < hi,
            n == output@.len(),
            t == output@.subrange(lo as int, hi as int),
            t == trimmed(output@),
            all_digits(output@.subrange(lo as int, i as int)),
            !too_big ==> acc as int == digits_value(output@.subrange(lo as int, i as int)) && acc
                <= 255,
            too_big ==> digits_value(output@.subrange(lo as int, i as int)) > 255,
        decreases hi - i,
    {
        let b = output[i];
        proof {
            assert(t[i - lo] == output@[i as int]);
        }
        if b < 48 || b > 57 {
            proof {
                assert(!is_ascii_digit(t[i - lo]));
                assert(!all_digits(t));
            }
            return Err(LevelParseError::InvalidDigit);
        }
        proof {
            let pre = output@.subrange(lo as int, i as int);
            let post = output@.subrange(lo as int, i + 1);
            assert(post =~= pre.push(output@[i as int]));
            lemma_digits_value_push(pre, b);
        }
        if !too_big {
            let next: u32 = acc * 10 + ((b - 48) as u32);
            if next > 255 {
                too_big = true;
            } else {
                acc = next;
            }
        }
        i = i + 1;
    }
    if too_big {
        Err(LevelParseError::OutOfRange)
    } else {
        Ok(acc as u8)
    }
}

} // verus!
