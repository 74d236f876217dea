//! Numbers as text: the hexadecimal and decimal notations of assembly
//! listings.

use vstd::prelude::*;
use vstd::string::*;

verus! {

/// The digit of value `value`, for values below sixteen, in lower case.
pub open spec fn digit(value: nat) -> Seq<char>
    recommends
        value < 16,
{
    "0123456789abcdef"@.subrange(value as int, value as int + 1)
}

/// `value` in hexadecimal, most significant digit first, with leading zeros
/// up to `width` digits and at least one digit.
pub open spec fn hex(value: nat, width: nat) -> Seq<char>
    decreases value, width,
{
    if value < 16 && width <= 1 {
        digit(value)
    } else {
        hex(
            value / 16,
            if width > 0 {
                (width - 1) as nat
            } else {
                0
            },
        ) + digit(value % 16)
    }
}

/// `value` in decimal, most significant digit first.
pub open spec fn decimal(value: nat) -> Seq<char>
    decreases value,
{
    if value < 10 {
        digit(value)
    } else {
        decimal(value / 10) + digit(value % 10)
    }
}

/// The text of an immediate byte: `#$` and two hexadecimal digits.
pub open spec fn immediate_byte_text(value: u8) -> Seq<char> {
    "#$"@ + hex(value as nat, 2)
}

/// The text of an immediate word: `#$` and four hexadecimal digits.
pub open spec fn immediate_word_text(value: u16) -> Seq<char> {
    "#$"@ + hex(value as nat, 4)
}

/// The text of an address: `$` and four hexadecimal digits.
pub open spec fn address_text(value: u16) -> Seq<char> {
    "$"@ + hex(value as nat, 4)
}

/// The digit of value `value` as a string slice.
fn digit_str(value: usize) -> (text: &'static str)
    requires
        value < 16,
    ensures
        text@ == digit(value as nat),
{
    proof {
        reveal_strlit("0123456789abcdef");
    }
    "0123456789abcdef".substring_ascii(value, value + 1)
}

/// Appends `value` in hexadecimal, padded with zeros to `width` digits.
pub fn push_hex(text: &mut String, value: usize, width: usize)
    ensures
        final(text)@ == old(text)@ + hex(value as nat, width as nat),
    decreases value, width,
{
    if value < 16 && width <= 1 {
        text.append(digit_str(value));
    } else {
        let ghost before = text@;
        push_hex(text, value / 16, if width > 0 {
            width - 1
        } else {
            0
        });
        text.append(digit_str(value % 16));
        assert(text@ =~= before + hex(value as nat, width as nat));
    }
}

/// Appends `value` in decimal.
pub fn push_decimal(text: &mut String, value: usize)
    ensures
        final(text)@ == old(text)@ + decimal(value as nat),
    decreases value,
{
    if value < 10 {
        text.append(digit_str(value));
    } else {
        let ghost before = text@;
        push_decimal(text, value / 10);
        text.append(digit_str(value % 10));
        assert(text@ =~= before + decimal(value as nat));
    }
}

/// Appends an immediate byte as `#$xx`.
pub fn push_immediate_byte(text: &mut String, value: u8)
    ensures
        final(text)@ == old(text)@ + immediate_byte_text(value),
{
    let ghost before = text@;
    text.append("#$");
    push_hex(text, value as usize, 2);
    assert(text@ =~= before + immediate_byte_text(value));
}

/// Appends an immediate word as `#$xxxx`.
pub fn push_immediate_word(text: &mut String, value: u16)
    ensures
        final(text)@ == old(text)@ + immediate_word_text(value),
{
    let ghost before = text@;
    text.append("#$");
    push_hex(text, value as usize, 4);
    assert(text@ =~= before + immediate_word_text(value));
}

/// Appends an address as `$xxxx`.
pub fn push_address(text: &mut String, value: u16)
    ensures
        final(text)@ == old(text)@ + address_text(value),
{
    let ghost before = text@;
    text.append("$");
    push_hex(text, value as usize, 4);
    assert(text@ =~= before + address_text(value));
}

} // verus!
