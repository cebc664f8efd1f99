//! Reads the status argument of `exit`: an optional sign, then decimal digits,
//! whose value fits in an `i32`.
use vstd::prelude::*;
use crate::text::char_vec;

verus! {

pub open spec fn is_digit(c: char) -> bool {
    '0' <= c && c <= '9'
}

/// A non-empty run of decimal digits.
pub open spec fn all_digits(s: Seq<char>) -> bool {
    s.len() > 0 && forall|i: int| 0 <= i < s.len() ==> is_digit(#[trigger] s[i])
}

/// The value of a run of decimal digits.
pub open spec fn digits_value(s: Seq<char>) -> int
    decreases s.len(),
{
    if s.len() == 0 {
        0
    } else {
        digits_value(s.drop_last()) * 10 + (s.last() as int - '0' as int)
    }
}

/// Whether the text starts with a sign.
pub open spec fn signed(s: Seq<char>) -> bool {
    s.len() > 0 && (s[0] == '-' || s[0] == '+')
}

/// The digits of a text after its sign, if any.
pub open spec fn unsigned_part(s: Seq<char>) -> Seq<char> {
    if signed(s) {
        s.drop_first()
    } else {
        s
    }
}

/// The value that a text denotes, when it is an optional sign and digits.
pub open spec fn signed_value(s: Seq<char>) -> int {
    if signed(s) && s[0] == '-' {
        -digits_value(unsigned_part(s))
    } else {
        digits_value(unsigned_part(s))
    }
}

/// The exit status that a text gives: its value, where the text is an
/// optional sign followed by digits and the value fits in an `i32`.
pub open spec fn exit_code_of(s: Seq<char>) -> Option<i32> {
    if all_digits(unsigned_part(s)) && i32::MIN <= signed_value(s) <= i32::MAX {
        Some(signed_value(s) as i32)
    } else {
        None
    }
}

/// The magnitude of `i32::MIN`.
const LIMIT: u64 = 2147483648;

/// Reads an exit status from its text.
pub fn parse_exit_code(s: &str) -> (r: Option<i32>)
    ensures
        r == exit_code_of(s@),
{
    let chars = char_vec(s);
    let mut start: usize = 0;
    let mut negative = false;
    if chars.len() > 0 && (chars[0] == '-' || chars[0] == '+') {
        negative = chars[0] == '-';
        start = 1;
    }
    let ghost digits = unsigned_part(s@);
    proof {
        assert(digits =~= chars@.subrange(start as int, chars.len() as int));
    }
    if start == chars.len() {
        return None;
    }
    // `value` is the digits' value so far, or LIMIT + 1 once that exceeds LIMIT.
    let mut value: u64 = 0;
    let mut i: usize = start;
    while i < chars.len()
        invariant
            start <= i <= chars.len(),
            chars@ == s@,
            digits == chars@.subrange(start as int, chars.len() as int),
            digits == unsigned_part(s@),
            forall|j: int| start <= j < i ==> is_digit(#[trigger] chars@[j]),
            value <= LIMIT + 1,
            digits_value(chars@.subrange(start as int, i as int)) <= LIMIT ==> value
                == digits_value(chars@.subrange(start as int, i as int)),
            digits_value(chars@.subrange(start as int, i as int)) > LIMIT ==> value == LIMIT + 1,
            digits_value(chars@.subrange(start as int, i as int)) >= 0,
        decreases chars.len() - i,
    {
        let c = chars[i];
        if !('0' <= c && c <= '9') {
            proof {
                assert(digits[i - start] == c);
                assert(!is_digit(digits[i - start]));
                assert(!all_digits(digits));
            }
            return None;
        }
        proof {
            assert(chars@.subrange(start as int, i + 1).drop_last() =~= chars@.subrange(
                start as int,
                i as int,
            ));
        }
        let d = (c as u32 - '0' as u32) as u64;
        if value <= LIMIT {
            let next = value * 10 + d;
            value = if next > LIMIT { LIMIT + 1 } else { next };
        }
        i = i + 1;
    }
    proof {
        assert(chars@.subrange(start as int, i as int) =~= digits);
        assert(all_digits(digits)) by {
            assert forall|j: int| 0 <= j < digits.len() implies is_digit(#[trigger] digits[j]) by {
                assert(digits[j] == chars@[start + j]);
            }
        }
    }
    if negative {
        if value <= LIMIT {
            Some((0 - value as i64) as i32)
        } else {
            None
        }
    } else {
        if value < LIMIT {
            Some(value as i32)
        } else {
            None
        }
    }
}

} // verus!
