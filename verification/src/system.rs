//! What the operating system reports of itself.

use crate::text::chars_of;
use vstd::prelude::*;

verus! {

/// The first build number of Windows 11.
pub const WIN11_FIRST_BUILD: u32 = 22000;

/// `c` is one of the digits `0` to `9`.
pub open spec fn is_digit(c: char) -> bool {
    '0' <= c && c <= '9'
}

/// The number that the digit `c` stands for.
pub open spec fn digit_value(c: char) -> nat {
    (c as nat - '0' as nat) as nat
}

/// The number that `digits` write in base ten.
pub open spec fn decimal_value(digits: Seq<char>) -> nat
    decreases digits.len(),
{
    if digits.len() == 0 {
        0
    } else {
        10 * decimal_value(digits.drop_last()) + digit_value(digits.last())
    }
}

/// The digits of a number written as `text`: all of `text` but a leading
/// plus sign.
pub open spec fn digits_of(text: Seq<char>) -> Seq<char> {
    if text.len() > 0 && text[0] == '+' {
        text.drop_first()
    } else {
        text
    }
}

/// `text` writes a number: at least one digit and nothing but digits,
/// after at most one leading plus sign.
pub open spec fn is_number(text: Seq<char>) -> bool {
    digits_of(text).len() > 0 && forall|i: int|
        0 <= i < digits_of(text).len() ==> is_digit(#[trigger] digits_of(text)[i])
}

/// The build number that `text` writes: its value where `text` writes a
/// number that 32 bits hold, and none otherwise.
pub open spec fn build_number(text: Seq<char>) -> Option<u32> {
    if is_number(text) && decimal_value(digits_of(text)) <= u32::MAX {
        Some(decimal_value(digits_of(text)) as u32)
    } else {
        None
    }
}

/// A number is no smaller than what any of its leading digits write.
proof fn leading_digits_write_no_more(digits: Seq<char>, n: int)
    requires
        0 <= n <= digits.len(),
    ensures
        decimal_value(digits.take(n)) <= decimal_value(digits),
    decreases digits.len(),
{
    if n == digits.len() {
        assert(digits.take(n) =~= digits);
    } else {
        assert(digits.drop_last().take(n) =~= digits.take(n));
        leading_digits_write_no_more(digits.drop_last(), n);
    }
}

/// Reads the build number that `text` writes in base ten.
pub fn parse_build_number(text: &str) -> (number: Option<u32>)
    ensures
        number == build_number(text@),
{
    let chars = chars_of(text);
    let start: usize = if chars.len() > 0 && chars[0] == '+' {
        1
    } else {
        0
    };
    let ghost digits = digits_of(text@);
    if start == chars.len() {
        return None;
    }
    let mut value: u64 = 0;
    let mut i: usize = start;
    while i < chars.len()
        invariant
            start <= i <= chars.len(),
            digits == digits_of(text@),
            digits == chars@.subrange(start as int, chars.len() as int),
            forall|k: int| 0 <= k < i - start ==> is_digit(#[trigger] digits[k]),
            value == decimal_value(digits.take(i - start)),
            value <= u32::MAX,
        decreases chars.len() - i,
    {
        let c = chars[i];
        if !('0' <= c && c <= '9') {
            assert(!is_digit(digits[i - start]));
            return None;
        }
        let digit: u64 = (c as u64) - ('0' as u64);
        assert(digits.take(i - start + 1).drop_last() =~= digits.take(i - start));
        value = value * 10 + digit;
        if value > 0xffff_ffff {
            proof {
                leading_digits_write_no_more(digits, i - start + 1);
            }
            return None;
        }
        i = i + 1;
    }
    assert(digits.take(digits.len() as int) =~= digits);
    Some(value as u32)
}

/// Whether the system whose current build is written as `current_build`
/// is Windows 11 or later: the build number can be read and is at least
/// 22000.
pub fn is_win11(current_build: &str) -> (r: bool)
    ensures
        r == match build_number(current_build@) {
            Some(build) => build >= WIN11_FIRST_BUILD,
            None => false,
        },
{
    match parse_build_number(current_build) {
        Some(build) => build >= WIN11_FIRST_BUILD,
        None => false,
    }
}

} // verus!
