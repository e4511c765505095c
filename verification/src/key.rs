//! The key parameter: a decimal number from 0 to 255, written with digits
//! only, or with one `+` before them.

use vstd::prelude::*;

verus! {

/// Whether `c` is one of the ten decimal digits.
pub open spec fn is_digit(c: char) -> bool {
    '0' <= c && c <= '9'
}

/// The number that the digit `c` stands for.
pub open spec fn digit_value(c: char) -> nat {
    (c as u32 - '0' as u32) as nat
}

/// Whether `text` holds decimal digits only.
pub open spec fn all_digits(text: Seq<char>) -> bool {
    forall|i: int| 0 <= i < text.len() ==> is_digit(#[trigger] text[i])
}

/// The number that the digits of `text` write in base ten; the empty text
/// writes 0.
pub open spec fn decimal_value(text: Seq<char>) -> nat
    decreases text.len(),
{
    if text.len() == 0 {
        0
    } else {
        10 * decimal_value(text.drop_last()) + digit_value(text.last())
    }
}

/// `text` without the `+` that may stand before its digits.
pub open spec fn unsigned_part(text: Seq<char>) -> Seq<char> {
    if text.len() > 0 && text[0] == '+' {
        text.subrange(1, text.len() as int)
    } else {
        text
    }
}

/// The key that `text` writes, if it writes one: at least one digit, digits
/// only after an optional `+`, and a value of at most 255.
pub open spec fn key_of(text: Seq<char>) -> Option<u8> {
    let digits = unsigned_part(text);
    if digits.len() > 0 && all_digits(digits) && decimal_value(digits) <= 255 {
        Some(decimal_value(digits) as u8)
    } else {
        None
    }
}

/// A number does not shrink when more digits are written after it.
pub proof fn lemma_decimal_value_grows(text: Seq<char>, n: int)
    requires
        0 <= n <= text.len(),
    ensures
        decimal_value(text.subrange(0, n)) <= decimal_value(text),
    decreases text.len(),
{
    if n == text.len() {
        assert(text.subrange(0, n) == text);
    } else {
        lemma_decimal_value_grows(text.drop_last(), n);
        assert(text.drop_last().subrange(0, n) == text.subrange(0, n));
    }
}

/// The key written by `text`, or `None` where `text` writes no key.
pub fn parse_key(text: &str) -> (key: Option<u8>)
    ensures
        key == key_of(text@),
{
    let mut value: u16 = 0;
    let mut at_start = true;
    let mut signed = false;
    let mut any_digit = false;
    for c in it: text.chars()
        invariant
            it.seq() == text@,
            at_start == (it.index() == 0),
            signed == (it.index() > 0 && text@[0] == '+'),
            any_digit == (it.index() > (if signed { 1int } else { 0int })),
            all_digits(text@.subrange(if signed { 1int } else { 0int }, it.index() as int)),
            value == decimal_value(
                text@.subrange(if signed { 1int } else { 0int }, it.index() as int),
            ),
            value <= 255,
    {
        let ghost start: int = if signed { 1int } else { 0int };
        let ghost here: int = it.index() as int;
        if at_start && c == '+' {
            signed = true;
            assert(text@.subrange(1, 1) == Seq::<char>::empty());
        } else if '0' <= c && c <= '9' {
            let digit: u16 = (c as u32 - '0' as u32) as u16;
            let next: u16 = value * 10 + digit;
            proof {
                let seen = text@.subrange(start, here + 1);
                assert(seen.drop_last() == text@.subrange(start, here));
                assert(seen.last() == c);
                assert(decimal_value(seen) == next);
                assert(all_digits(seen));
                if next > 255 {
                    let digits = unsigned_part(text@);
                    assert(digits.subrange(0, here + 1 - start) == seen);
                    lemma_decimal_value_grows(digits, here + 1 - start);
                }
            }
            if next > 255 {
                return None;
            }
            value = next;
            any_digit = true;
        } else {
            proof {
                let digits = unsigned_part(text@);
                assert(digits[here - start] == c);
            }
            return None;
        }
        at_start = false;
    }
    proof {
        let start: int = if signed { 1int } else { 0int };
        assert(unsigned_part(text@) == text@.subrange(start, text@.len() as int));
    }
    if any_digit {
        Some(value as u8)
    } else {
        None
    }
}

} // verus!
