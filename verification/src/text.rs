//! Numbers as text.
use vstd::prelude::*;
use vstd::string::*;

verus! {

/// The character of a hexadecimal digit.
pub open spec fn digit_char(digit: u32) -> char {
    if digit < 10 {
        ('0' as u32 + digit) as char
    } else {
        ('a' as u32 + digit - 10) as char
    }
}

/// The hexadecimal digits of a number, without leading zeros.
pub open spec fn hex_digits(value: u32) -> Seq<char>
    decreases value,
{
    if value < 16 {
        seq![digit_char(value)]
    } else {
        hex_digits(value / 16).push(digit_char(value % 16))
    }
}

/// A number in hexadecimal, with the prefix that says so.
pub open spec fn hex_text(value: u32) -> Seq<char> {
    "0x"@ + hex_digits(value)
}

fn hex_digit(digit: u32) -> (text: &'static str)
    requires
        digit < 16,
    ensures
        text@ == seq![digit_char(digit)],
{
    proof {
        reveal_strlit("0");
        reveal_strlit("1");
        reveal_strlit("2");
        reveal_strlit("3");
        reveal_strlit("4");
        reveal_strlit("5");
        reveal_strlit("6");
        reveal_strlit("7");
        reveal_strlit("8");
        reveal_strlit("9");
        reveal_strlit("a");
        reveal_strlit("b");
        reveal_strlit("c");
        reveal_strlit("d");
        reveal_strlit("e");
        reveal_strlit("f");
    }
    match digit {
        0 => "0",
        1 => "1",
        2 => "2",
        3 => "3",
        4 => "4",
        5 => "5",
        6 => "6",
        7 => "7",
        8 => "8",
        9 => "9",
        10 => "a",
        11 => "b",
        12 => "c",
        13 => "d",
        14 => "e",
        _ => "f",
    }
}

fn append_digits(text: &mut String, value: u32)
    ensures
        final(text)@ == old(text)@ + hex_digits(value),
    decreases value,
{
    if value >= 16 {
        append_digits(text, value / 16);
    }
    text.append(hex_digit(value % 16));
}

/// Appends a number in hexadecimal, with the prefix that says so.
pub fn append_hex(text: &mut String, value: u32)
    ensures
        final(text)@ == old(text)@ + hex_text(value),
{
    text.append("0x");
    append_digits(text, value);
}

/// The decimal digits of a number, without leading zeros.
pub open spec fn decimal_text(value: u32) -> Seq<char>
    decreases value,
{
    if value < 10 {
        seq![digit_char(value)]
    } else {
        decimal_text(value / 10).push(digit_char(value % 10))
    }
}

/// Appends a number in decimal.
pub fn append_decimal(text: &mut String, value: u32)
    ensures
        final(text)@ == old(text)@ + decimal_text(value),
    decreases value,
{
    if value >= 10 {
        append_decimal(text, value / 10);
    }
    text.append(hex_digit(value % 10));
}

/// The decimal numbers of bytes, with a comma after each but the last.
pub open spec fn byte_list(bytes: Seq<u8>) -> Seq<char>
    decreases bytes.len(),
{
    if bytes.len() == 0 {
        Seq::empty()
    } else if bytes.len() == 1 {
        decimal_text(bytes[0] as u32)
    } else {
        byte_list(bytes.drop_last()) + ", "@ + decimal_text(bytes.last() as u32)
    }
}

/// Appends the decimal numbers of bytes, with a comma after each but the last.
pub fn append_byte_list(text: &mut String, bytes: &[u8])
    ensures
        final(text)@ == old(text)@ + byte_list(bytes@),
{
    let ghost before = text@;
    let count: usize = bytes.len();
    for index in 0..count
        invariant
            count == bytes@.len(),
            text@ == before + byte_list(bytes@.take(index as int)),
    {
        assert(bytes@.take(index + 1).drop_last() == bytes@.take(index as int));
        if index > 0 {
            text.append(", ");
        }
        append_decimal(text, bytes[index] as u32);
        assert(text@ =~= before + byte_list(bytes@.take(index + 1)));
    }
    assert(bytes@.take(count as int) == bytes@);
}

/// The number that a digit stands for.
pub open spec fn digit_value(c: char) -> int {
    if '0' <= c && c <= '9' {
        c as u32 - '0' as u32
    } else {
        c as u32 - 'a' as u32 + 10
    }
}

/// The number that digits of a base stand for, the highest first.
pub open spec fn digits_value(text: Seq<char>, base: int) -> int
    decreases text.len(),
{
    if text.len() == 0 {
        0
    } else {
        digits_value(text.drop_last(), base) * base + digit_value(text.last())
    }
}

/// Digits stand for the number that they were made from: in hexadecimal and in decimal alike, the
/// number can be read back, and none but zero begins with a zero.
pub proof fn law_digits_stand_for_the_number(value: u32)
    ensures
        digits_value(hex_digits(value), 16) == value,
        hex_digits(value).len() > 0,
        hex_digits(value).len() > 1 ==> hex_digits(value).first() != '0',
        hex_text(value) == "0x"@ + hex_digits(value),
        digits_value(decimal_text(value), 10) == value,
        decimal_text(value).len() > 0,
        decimal_text(value).len() > 1 ==> decimal_text(value).first() != '0',
{
    lemma_hex_digits(value);
    lemma_decimal_digits(value);
}

proof fn lemma_hex_digits(value: u32)
    ensures
        digits_value(hex_digits(value), 16) == value,
        hex_digits(value).len() > 0,
        value > 0 ==> hex_digits(value).first() != '0',
        hex_digits(value).len() > 1 ==> value > 0,
    decreases value,
{
    reveal_with_fuel(digits_value, 2);
    let text = hex_digits(value);
    if value < 16 {
        assert(text.drop_last() == Seq::<char>::empty());
        assert(text.first() == digit_char(value));
    } else {
        lemma_hex_digits(value / 16);
        assert(text.drop_last() == hex_digits(value / 16));
        assert(text.first() == hex_digits(value / 16).first());
    }
}

proof fn lemma_decimal_digits(value: u32)
    ensures
        digits_value(decimal_text(value), 10) == value,
        decimal_text(value).len() > 0,
        value > 0 ==> decimal_text(value).first() != '0',
        decimal_text(value).len() > 1 ==> value > 0,
    decreases value,
{
    reveal_with_fuel(digits_value, 2);
    let text = decimal_text(value);
    if value < 10 {
        assert(text.drop_last() == Seq::<char>::empty());
        assert(text.first() == digit_char(value));
    } else {
        lemma_decimal_digits(value / 10);
        assert(text.drop_last() == decimal_text(value / 10));
        assert(text.first() == decimal_text(value / 10).first());
    }
}

/// Each byte of a list is shown as its number, with a comma between each two: a list is shown as its
/// first part, a comma and the rest.
pub proof fn law_bytes_are_listed_in_order(first: Seq<u8>, rest: Seq<u8>, byte: u8)
    ensures
        byte_list(Seq::<u8>::empty()).len() == 0,
        byte_list(seq![byte]) == decimal_text(byte as u32),
        first.len() > 0 && rest.len() > 0 ==> byte_list(first + rest) == byte_list(first) + ", "@
            + byte_list(rest),
    decreases rest.len(),
{
    if first.len() > 0 && rest.len() > 0 {
        assert((first + rest).drop_last() == first + rest.drop_last());
        assert((first + rest).last() == rest.last());
        if rest.len() == 1 {
            assert(first + rest.drop_last() == first);
            assert(rest.last() == rest[0]);
        } else {
            law_bytes_are_listed_in_order(first, rest.drop_last(), byte);
            assert(byte_list(first + rest) == byte_list(first) + ", "@ + byte_list(rest));
        }
    }
}

} // verus!
