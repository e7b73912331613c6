//! Whole numbers and truth values written out in text.

use vstd::prelude::*;
use vstd::slice::slice_subrange;
use crate::text::spells;

verus! {

/// Whether `c` is one of the ten decimal digits.
pub open spec fn is_digit(c: char) -> bool {
    '0' <= c <= '9'
}

/// The number that the digit `c` stands for.
pub open spec fn digit_value(c: char) -> nat {
    (c as u32 - '0' as u32) as nat
}

/// Every character of `s` is a decimal digit.
pub open spec fn all_digits(s: Seq<char>) -> bool {
    forall|i: int| 0 <= i < s.len() ==> is_digit(#[trigger] s[i])
}

/// The number that a row of decimal digits stands for. Leading zeros
/// count for nothing.
pub open spec fn decimal_value(s: Seq<char>) -> nat
    decreases s.len(),
{
    if s.len() == 0 {
        0
    } else {
        decimal_value(s.drop_last()) * 10 + digit_value(s.last())
    }
}

/// The number that a row of digits stands for, if `s` is one, not empty,
/// and the number is at most `limit`.
pub open spec fn parse_digits(s: Seq<char>, limit: nat) -> Option<nat> {
    if s.len() > 0 && all_digits(s) && decimal_value(s) <= limit {
        Some(decimal_value(s))
    } else {
        None
    }
}

/// The `u64` that `s` spells: digits, with `+` allowed before them.
pub open spec fn parse_u64(s: Seq<char>) -> Option<u64> {
    let digits = if s.len() > 0 && s[0] == '+' {
        s.drop_first()
    } else {
        s
    };
    match parse_digits(digits, u64::MAX as nat) {
        Some(n) => Some(n as u64),
        None => None,
    }
}

/// The `i16` that `s` spells: digits, with `+` or `-` allowed before them.
pub open spec fn parse_i16(s: Seq<char>) -> Option<i16> {
    if s.len() > 0 && s[0] == '-' {
        match parse_digits(s.drop_first(), 0x8000) {
            Some(n) => Some((-(n as int)) as i16),
            None => None,
        }
    } else {
        let digits = if s.len() > 0 && s[0] == '+' {
            s.drop_first()
        } else {
            s
        };
        match parse_digits(digits, 0x7fff) {
            Some(n) => Some(n as i16),
            None => None,
        }
    }
}

/// The truth value that `s` spells: `true` or `false`, and nothing else.
pub open spec fn parse_bool(s: Seq<char>) -> Option<bool> {
    if s == "true"@ {
        Some(true)
    } else if s == "false"@ {
        Some(false)
    } else {
        None
    }
}

/// A row of digits stands for no less than any of its beginnings.
pub proof fn lemma_decimal_value_grows(s: Seq<char>, k: int)
    requires
        0 <= k <= s.len(),
    ensures
        decimal_value(s.take(k)) <= decimal_value(s),
    decreases s.len() - k,
{
    if k < s.len() {
        assert(s.take(k + 1).drop_last() == s.take(k));
        lemma_decimal_value_grows(s, k + 1);
    } else {
        assert(s.take(k) == s);
    }
}

/// Reads a row of digits that stands for at most `limit`.
pub fn read_digits(s: &[char], limit: u64) -> (r: Option<u64>)
    ensures
        r == match parse_digits(s@, limit as nat) {
            Some(n) => Some(n as u64),
            None => None,
        },
{
    if s.len() == 0 {
        return None;
    }
    let mut value: u64 = 0;
    let mut i: usize = 0;
    assert(s@.take(0) == Seq::<char>::empty());
    while i < s.len()
        invariant
            i <= s.len(),
            all_digits(s@.take(i as int)),
            value == decimal_value(s@.take(i as int)),
            value <= limit,
        decreases s.len() - i,
    {
        let c = s[i];
        proof {
            assert(s@.take(i + 1).drop_last() == s@.take(i as int));
            assert(s@.take(i + 1).last() == c);
        }
        if !('0' <= c && c <= '9') {
            assert(!is_digit(s@[i as int]));
            return None;
        }
        let digit = (c as u32 - '0' as u32) as u128;
        let next = value as u128 * 10 + digit;
        if next > limit as u128 {
            proof {
                lemma_decimal_value_grows(s@, i + 1);
            }
            return None;
        }
        assert forall|j: int| 0 <= j < i + 1 implies is_digit(#[trigger] s@.take(i + 1)[j]) by {
            if j < i {
                assert(s@.take(i + 1)[j] == s@.take(i as int)[j]);
            }
        }
        value = next as u64;
        i += 1;
    }
    assert(s@.take(i as int) == s@);
    Some(value)
}

/// Reads a `u64`.
pub fn read_u64(s: &[char]) -> (r: Option<u64>)
    ensures
        r == parse_u64(s@),
{
    if s.len() > 0 && s[0] == '+' {
        let digits = slice_subrange(s, 1, s.len());
        assert(digits@ == s@.drop_first());
        read_digits(digits, u64::MAX)
    } else {
        read_digits(s, u64::MAX)
    }
}

/// Reads an `i16`.
pub fn read_i16(s: &[char]) -> (r: Option<i16>)
    ensures
        r == parse_i16(s@),
{
    if s.len() > 0 && s[0] == '-' {
        let digits = slice_subrange(s, 1, s.len());
        assert(digits@ == s@.drop_first());
        match read_digits(digits, 0x8000) {
            Some(n) => Some((-(n as i32)) as i16),
            None => None,
        }
    } else if s.len() > 0 && s[0] == '+' {
        let digits = slice_subrange(s, 1, s.len());
        assert(digits@ == s@.drop_first());
        match read_digits(digits, 0x7fff) {
            Some(n) => Some(n as i16),
            None => None,
        }
    } else {
        match read_digits(s, 0x7fff) {
            Some(n) => Some(n as i16),
            None => None,
        }
    }
}

/// Reads a truth value.
pub fn read_bool(s: &[char]) -> (r: Option<bool>)
    ensures
        r == parse_bool(s@),
{
    if spells(s, "true") {
        Some(true)
    } else if spells(s, "false") {
        Some(false)
    } else {
        None
    }
}

} // verus!
