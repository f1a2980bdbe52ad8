//! Years as providers write them, and as the tracker wants them: a number
//! that fits sixteen bits.

use vstd::prelude::*;
use crate::error::Error;
use crate::text::to_chars;

verus! {

/// One of the characters `0` to `9`.
pub open spec fn is_digit(c: char) -> bool {
    '0' <= c && c <= '9'
}

/// The number that a digit stands for.
pub open spec fn digit_value(c: char) -> nat
    recommends
        is_digit(c),
{
    (c as nat - '0' as nat) as nat
}

/// Every character is a digit.
pub open spec fn all_digits(s: Seq<char>) -> bool {
    forall|i: int| 0 <= i < s.len() ==> is_digit(#[trigger] s[i])
}

/// The number that a run of digits writes in base ten.
pub open spec fn decimal_value(s: Seq<char>) -> nat
    decreases s.len(),
{
    if s.len() == 0 {
        0
    } else {
        10 * decimal_value(s.drop_last()) + digit_value(s.last())
    }
}

/// The text without one leading `+`.
pub open spec fn unsigned_part(s: Seq<char>) -> Seq<char> {
    if s.len() > 0 && s[0] == '+' {
        s.skip(1)
    } else {
        s
    }
}

/// The year that a text writes: an optional `+`, then at least one digit and
/// nothing but digits, the number at most 65535.
pub open spec fn year_of(s: Seq<char>) -> Option<u16> {
    let d = unsigned_part(s);
    if d.len() > 0 && all_digits(d) && decimal_value(d) <= u16::MAX {
        Some(decimal_value(d) as u16)
    } else {
        None
    }
}

/// The year of a calendar date, where it fits sixteen bits unsigned.
pub open spec fn year_of_date(year: i32) -> Option<u16> {
    if 0 <= year <= u16::MAX {
        Some(year as u16)
    } else {
        None
    }
}

/// Reads a year. Fails with `Error::Parse` exactly where the text writes
/// none.
pub fn parse_year(s: &str) -> (r: Result<u16, Error>)
    ensures
        match r {
            Ok(y) => year_of(s@) == Some(y),
            Err(e) => e == Error::Parse && year_of(s@) is None,
        },
{
    let chars = to_chars(s);
    let n: usize = chars.len();
    let start: usize = if n > 0 && chars[0] == '+' {
        1
    } else {
        0
    };
    let ghost d = unsigned_part(s@);
    assert(d =~= chars@.subrange(start as int, n as int));
    if start == n {
        return Err(Error::Parse);
    }
    let mut acc: u32 = 0;
    let mut i: usize = start;
    while i < n
        invariant
            start <= i <= n,
            n == chars.len(),
            d == chars@.subrange(start as int, n as int),
            d == unsigned_part(s@),
            all_digits(d.take(i - start)),
            acc == decimal_value(d.take(i - start)),
            acc <= u16::MAX,
        decreases n - i,
    {
        let c: char = chars[i];
        let ghost k = i - start;
        assert(d[k] == c);
        assert(d.take(k + 1).drop_last() =~= d.take(k));
        assert(d.take(k + 1).last() == c);
        if !(c >= '0' && c <= '9') {
            assert(!is_digit(d[k]));
            return Err(Error::Parse);
        }
        let digit: u32 = c as u32 - '0' as u32;
        acc = 10 * acc + digit;
        if acc > 65535 {
            proof {
                lemma_prefix_value(d, k + 1);
            }
            return Err(Error::Parse);
        }
        i += 1;
    }
    assert(d.take(n - start) =~= d);
    Ok(acc as u16)
}

/// Digits that follow can only make the number larger.
proof fn lemma_prefix_value(d: Seq<char>, k: int)
    requires
        0 <= k <= d.len(),
    ensures
        decimal_value(d.take(k)) <= decimal_value(d),
    decreases d.len() - k,
{
    if k < d.len() {
        lemma_prefix_value(d, k + 1);
        assert(d.take(k + 1).drop_last() =~= d.take(k));
    } else {
        assert(d.take(k) =~= d);
    }
}

/// Converts the year of a calendar date. Fails with `Error::Parse` exactly
/// where it is negative or above 65535.
pub fn year_from_date(year: i32) -> (r: Result<u16, Error>)
    ensures
        match r {
            Ok(y) => year_of_date(year) == Some(y),
            Err(e) => e == Error::Parse && year_of_date(year) is None,
        },
{
    if 0 <= year && year <= 65535 {
        Ok(year as u16)
    } else {
        Err(Error::Parse)
    }
}

} // verus!
