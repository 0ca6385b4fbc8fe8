//! The sampling domain: an inclusive interval of integers, and the text
//! format `<integer>..<integer>` from which it is read.
//!
//! Parsing is strict. A text that does not consist of a signed integer, the
//! two-character separator `..` and a second signed integer is rejected;
//! no side is ever replaced by a default.

use vstd::prelude::*;
use vstd::string::*;
use crate::error::PipelineError;

verus! {

/// The most integers that one run samples.
pub const MAX_SAMPLES: u64 = 1_000_000;

/// The integers from `start` to `end`, both included. With `start > end`
/// the interval is empty.
#[derive(Clone, Copy, Debug, PartialEq, Eq, Structural)]
pub struct DomainInterval {
    pub start: i64,
    pub end: i64,
}

impl DomainInterval {
    /// How many integers the interval holds.
    pub open spec fn count(self) -> nat {
        if self.start <= self.end {
            (self.end - self.start + 1) as nat
        } else {
            0
        }
    }

    /// The number of integers in the interval, or `None` when there are
    /// more than `MAX_SAMPLES`.
    pub fn sample_count(&self) -> (r: Option<usize>)
        ensures
            r == if self.count() <= MAX_SAMPLES {
                Some(self.count() as usize)
            } else {
                None
            },
    {
        if self.start > self.end {
            Some(0)
        } else {
            let n: i128 = self.end as i128 - self.start as i128 + 1;
            if n > MAX_SAMPLES as i128 {
                None
            } else {
                Some(n as usize)
            }
        }
    }
}

/// Whether `c` is one of the ten ASCII digits.
pub open spec fn is_digit(c: char) -> bool {
    48 <= c as u32 <= 57
}

/// The number that the digit `c` stands for.
pub open spec fn digit_value(c: char) -> int {
    c as u32 - 48
}

/// Whether `s` holds ASCII digits only.
pub open spec fn all_digits(s: Seq<char>) -> bool {
    forall|i: int| 0 <= i < s.len() ==> is_digit(#[trigger] s[i])
}

/// The number that the decimal digits `s` write; 0 for the empty sequence.
pub open spec fn digits_value(s: Seq<char>) -> int
    decreases s.len(),
{
    if s.len() == 0 {
        0
    } else {
        digits_value(s.drop_last()) * 10 + digit_value(s.last())
    }
}

/// The value of `s` read as one or more decimal digits, provided that it
/// does not exceed `limit`.
pub open spec fn magnitude_within(s: Seq<char>, limit: int) -> Option<u64> {
    if s.len() > 0 && all_digits(s) && digits_value(s) <= limit {
        Some(digits_value(s) as u64)
    } else {
        None
    }
}

/// The value of `s` read as a signed integer: an optional `+` or `-`, then
/// one or more decimal digits, the whole within the range of `i64`.
pub open spec fn signed_integer(s: Seq<char>) -> Option<i64> {
    if s.len() > 0 && s[0] == '-' {
        match magnitude_within(s.subrange(1, s.len() as int), 0x8000_0000_0000_0000) {
            Some(m) => Some((-(m as int)) as i64),
            None => None,
        }
    } else if s.len() > 0 && s[0] == '+' {
        match magnitude_within(s.subrange(1, s.len() as int), 0x7fff_ffff_ffff_ffff) {
            Some(m) => Some(m as i64),
            None => None,
        }
    } else {
        match magnitude_within(s, 0x7fff_ffff_ffff_ffff) {
            Some(m) => Some(m as i64),
            None => None,
        }
    }
}

/// Whether the separator `..` stands at index `i` of `s`.
pub open spec fn separator_at(s: Seq<char>, i: int) -> bool {
    0 <= i && i + 1 < s.len() && s[i] == '.' && s[i + 1] == '.'
}

/// Whether the first separator of `s` stands at index `i`.
pub open spec fn first_separator_at(s: Seq<char>, i: int) -> bool {
    separator_at(s, i) && forall|j: int| 0 <= j < i ==> !separator_at(s, j)
}

/// The interval that the domain text `s` denotes, if it denotes one: `s` is
/// cut at its first separator, and both sides must be signed integers.
pub open spec fn parsed_domain(s: Seq<char>) -> Option<DomainInterval> {
    if exists|i: int| first_separator_at(s, i) {
        let i = choose|i: int| first_separator_at(s, i);
        match (signed_integer(s.subrange(0, i)), signed_integer(s.subrange(i + 2, s.len() as int))) {
            (Some(a), Some(b)) => Some(DomainInterval { start: a, end: b }),
            _ => None,
        }
    } else {
        None
    }
}

/// The interval that a run samples for the domain text `s`: the one that
/// `s` denotes, unless it holds more than `MAX_SAMPLES` integers.
pub open spec fn admitted_domain(s: Seq<char>) -> Result<DomainInterval, PipelineError> {
    match parsed_domain(s) {
        None => Err(PipelineError::DomainFormatError),
        Some(interval) => if interval.count() > MAX_SAMPLES {
            Err(PipelineError::DomainTooLargeError)
        } else {
            Ok(interval)
        },
    }
}

/// Digits never write a negative number, and a number is at least the
/// number written by any of its leading digits.
pub proof fn lemma_digits_value_prefix(s: Seq<char>, k: int)
    requires
        all_digits(s),
        0 <= k <= s.len(),
    ensures
        0 <= digits_value(s.subrange(0, k)) <= digits_value(s),
    decreases s.len(),
{
    if k == s.len() {
        assert(s.subrange(0, k) =~= s);
        if s.len() > 0 {
            lemma_digits_value_prefix(s.drop_last(), k - 1);
            assert(s.drop_last().subrange(0, k - 1) =~= s.drop_last());
        }
    } else {
        lemma_digits_value_prefix(s.drop_last(), k);
        assert(s.drop_last().subrange(0, k) =~= s.subrange(0, k));
    }
}

/// A signed integer is not empty and holds no dot.
pub proof fn lemma_signed_integer_has_no_dot(s: Seq<char>)
    requires
        signed_integer(s) is Some,
    ensures
        s.len() > 0,
        forall|k: int| 0 <= k < s.len() ==> #[trigger] s[k] != '.',
{
    assert forall|k: int| 0 <= k < s.len() implies #[trigger] s[k] != '.' by {
        if s[0] == '-' || s[0] == '+' {
            let d = s.subrange(1, s.len() as int);
            if k > 0 {
                assert(is_digit(d[k - 1]));
            }
        } else {
            assert(is_digit(s[k]));
        }
    }
}

/// A domain text can be cut in one way only: if a separator of `s` has a
/// signed integer on either side, it is the one separator of `s`, and `s`
/// denotes the interval between these two integers.
pub proof fn lemma_domain_is_cut_once(s: Seq<char>, i: int)
    requires
        separator_at(s, i),
        signed_integer(s.subrange(0, i)) is Some,
        signed_integer(s.subrange(i + 2, s.len() as int)) is Some,
    ensures
        forall|j: int| separator_at(s, j) ==> j == i,
        parsed_domain(s) == Some(
            DomainInterval {
                start: signed_integer(s.subrange(0, i))->0,
                end: signed_integer(s.subrange(i + 2, s.len() as int))->0,
            },
        ),
{
    let left = s.subrange(0, i);
    let right = s.subrange(i + 2, s.len() as int);
    lemma_signed_integer_has_no_dot(left);
    lemma_signed_integer_has_no_dot(right);
    assert forall|j: int| separator_at(s, j) implies j == i by {
        if j < i {
            assert(left[j] == s[j]);
        } else if j == i + 1 {
            assert(right[0] == s[i + 2]);
        } else if j > i + 1 {
            assert(right[j - i - 2] == s[j]);
        }
    }
    assert(first_separator_at(s, i));
    let chosen = choose|j: int| first_separator_at(s, j);
    assert(first_separator_at(s, chosen));
    assert(chosen == i);
}

/// Reads the characters `lo..hi` of `text` as decimal digits.
fn parse_magnitude(text: &str, lo: usize, hi: usize, limit: u64) -> (r: Option<u64>)
    requires
        lo <= hi <= text@.len(),
        9 <= limit,
    ensures
        r == magnitude_within(text@.subrange(lo as int, hi as int), limit as int),
        r matches Some(m) ==> m <= limit,
{
    let ghost s = text@.subrange(lo as int, hi as int);
    if lo == hi {
        return None;
    }
    let mut acc: u64 = 0;
    let mut i: usize = lo;
    while i < hi
        invariant
            lo <= i <= hi <= text@.len(),
            9 <= limit,
            s == text@.subrange(lo as int, hi as int),
            all_digits(s.subrange(0, i - lo)),
            acc == digits_value(s.subrange(0, i - lo)),
            acc <= limit,
        decreases hi - i,
    {
        let c: char = text.get_char(i);
        let code: u32 = c as u32;
        assert(s[i - lo] == c);
        if code < 48 || code > 57 {
            return None;
        }
        let d: u64 = (code - 48) as u64;
        proof {
            let p = s.subrange(0, i - lo + 1);
            assert(p.drop_last() =~= s.subrange(0, i - lo));
            assert(p.last() == c);
            assert(digits_value(p) == acc * 10 + d);
            assert forall|j: int| 0 <= j < p.len() implies is_digit(#[trigger] p[j]) by {
                if j < i - lo {
                    assert(p[j] == s.subrange(0, i - lo)[j]);
                }
            }
        }
        if acc > (limit - d) / 10 {
            proof {
                if all_digits(s) {
                    lemma_digits_value_prefix(s, i - lo + 1);
                }
            }
            return None;
        }
        acc = acc * 10 + d;
        i = i + 1;
    }
    assert(s.subrange(0, hi - lo) =~= s);
    Some(acc)
}

/// Reads the characters `lo..hi` of `text` as a signed integer.
fn parse_signed(text: &str, lo: usize, hi: usize) -> (r: Option<i64>)
    requires
        lo <= hi <= text@.len(),
    ensures
        r == signed_integer(text@.subrange(lo as int, hi as int)),
{
    let ghost s = text@.subrange(lo as int, hi as int);
    if lo == hi {
        return None;
    }
    let first: char = text.get_char(lo);
    assert(s[0] == first);
    if first == '-' {
        assert(s.subrange(1, s.len() as int) =~= text@.subrange(lo + 1, hi as int));
        match parse_magnitude(text, lo + 1, hi, 0x8000_0000_0000_0000) {
            Some(m) => {
                if m == 0x8000_0000_0000_0000 {
                    Some(i64::MIN)
                } else {
                    Some(-(m as i64))
                }
            },
            None => None,
        }
    } else if first == '+' {
        assert(s.subrange(1, s.len() as int) =~= text@.subrange(lo + 1, hi as int));
        match parse_magnitude(text, lo + 1, hi, 0x7fff_ffff_ffff_ffff) {
            Some(m) => Some(m as i64),
            None => None,
        }
    } else {
        match parse_magnitude(text, lo, hi, 0x7fff_ffff_ffff_ffff) {
            Some(m) => Some(m as i64),
            None => None,
        }
    }
}

/// The index of the first separator of `text`.
fn find_separator(text: &str, len: usize) -> (r: Option<usize>)
    requires
        len == text@.len(),
    ensures
        match r {
            Some(i) => first_separator_at(text@, i as int),
            None => forall|j: int| !separator_at(text@, j),
        },
{
    if len < 2 {
        return None;
    }
    let mut i: usize = 0;
    while i < len - 1
        invariant
            len == text@.len(),
            len >= 2,
            i <= len - 1,
            forall|j: int| 0 <= j < i ==> !separator_at(text@, j),
        decreases len - i,
    {
        if text.get_char(i) == '.' && text.get_char(i + 1) == '.' {
            return Some(i);
        }
        i = i + 1;
    }
    None
}

/// Reads a domain text.
///
/// Succeeds exactly on the texts `<integer>..<integer>`, with nothing
/// before, between or after: no whitespace, no third part. Anything else
/// is a `DomainFormatError`.
pub fn parse_domain(text: &str) -> (r: Result<DomainInterval, PipelineError>)
    ensures
        r == match parsed_domain(text@) {
            Some(interval) => Ok::<DomainInterval, PipelineError>(interval),
            None => Err(PipelineError::DomainFormatError),
        },
{
    let len: usize = text.unicode_len();
    match find_separator(text, len) {
        None => {
            Err(PipelineError::DomainFormatError)
        },
        Some(i) => {
            proof {
                let j = choose|j: int| first_separator_at(text@, j);
                assert(first_separator_at(text@, j));
                assert(j == i);
            }
            let start = parse_signed(text, 0, i);
            let end = parse_signed(text, i + 2, len);
            match (start, end) {
                (Some(a), Some(b)) => Ok(DomainInterval { start: a, end: b }),
                _ => Err(PipelineError::DomainFormatError),
            }
        },
    }
}

} // verus!
