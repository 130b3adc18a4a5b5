//! Decimal text of integers.

use vstd::prelude::*;

verus! {

/// The character for a single decimal digit.
pub open spec fn digit(value: nat) -> char
    recommends
        value < 10,
{
    (0x30 + value) as char
}

/// The decimal digits of `value`, without leading zeros.
pub open spec fn decimal(value: nat) -> Seq<char>
    decreases value,
{
    if value < 10 {
        seq![digit(value)]
    } else {
        decimal(value / 10).push(digit(value % 10))
    }
}

/// The decimal form of `value`, with a leading minus sign when negative.
pub open spec fn signed_decimal(value: int) -> Seq<char> {
    if value < 0 {
        seq!['-'] + decimal((-value) as nat)
    } else {
        decimal(value as nat)
    }
}

/// `String::push` appends the character to the end of the text and
/// changes nothing else.
pub assume_specification[ String::push ](text: &mut String, ch: char)
    ensures
        final(text)@ == old(text)@.push(ch),
;

/// The character for a single decimal digit.
fn digit_char(value: u8) -> (ch: char)
    requires
        value < 10,
    ensures
        ch == digit(value as nat),
{
    (0x30u8 + value) as char
}

/// Appends the decimal digits of `value` to `text`.
pub fn push_decimal(text: &mut String, value: u64)
    ensures
        final(text)@ == old(text)@ + decimal(value as nat),
    decreases value,
{
    if value >= 10 {
        push_decimal(text, value / 10);
    }
    text.push(digit_char((value % 10) as u8));
}

/// Every number has at least one decimal digit.
pub proof fn lemma_decimal_nonempty(value: nat)
    ensures
        decimal(value).len() >= 1,
    decreases value,
{
    if value >= 10 {
        lemma_decimal_nonempty(value / 10);
    }
}

/// The decimal form of `value`, with a leading minus sign when negative.
pub fn signed_decimal_string(value: i64) -> (text: String)
    ensures
        text@ == signed_decimal(value as int),
        text@.len() >= 1,
{
    let mut text = String::new();
    if value < 0 {
        text.push('-');
        let magnitude: u64 = ((-(value + 1)) as u64) + 1;
        push_decimal(&mut text, magnitude);
    } else {
        push_decimal(&mut text, value as u64);
    }
    proof {
        lemma_decimal_nonempty(
            if value < 0 {
                (-value) as nat
            } else {
                value as nat
            },
        );
    }
    text
}

} // verus!
