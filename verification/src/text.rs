//! Small pieces of text.

use vstd::prelude::*;

verus! {

/// `std::string::String::push` appends one character to the end of a text.
pub assume_specification[ String::push ](string: &mut String, ch: char)
    ensures
        final(string)@ == old(string)@.push(ch),
;

/// The character of a decimal digit.
pub open spec fn digit_char(digit: int) -> char {
    (48 + digit) as u8 as char
}

/// A number in decimal, without leading zeros.
pub open spec fn decimal(number: nat) -> Seq<char>
    decreases number,
{
    if number < 10 {
        seq![digit_char(number as int)]
    } else {
        decimal(number / 10).push(digit_char(number as int % 10))
    }
}

/// A number in decimal.
pub fn decimal_text(number: u64) -> (r: String)
    ensures
        r@ == decimal(number as nat),
    decreases number,
{
    let last: u8 = 48 + (number % 10) as u8;
    if number < 10 {
        let mut text = String::new();
        text.push(last as char);
        assert(text@ =~= decimal(number as nat));
        return text;
    }
    let mut text = decimal_text(number / 10);
    text.push(last as char);
    text
}

/// The hexadecimal digit of a number below sixteen.
pub open spec fn hex_char(nibble: int) -> char {
    if nibble < 10 {
        (48 + nibble) as u8 as char
    } else {
        (87 + nibble) as u8 as char
    }
}

/// Bytes in lowercase hexadecimal, two digits each.
pub open spec fn hex(bytes: Seq<u8>) -> Seq<char> {
    Seq::new(
        bytes.len() * 2,
        |i: int|
            if i % 2 == 0 {
                hex_char(bytes[i / 2] as int / 16)
            } else {
                hex_char(bytes[i / 2] as int % 16)
            },
    )
}

fn hex_digit(nibble: u8) -> (r: char)
    requires
        nibble < 16,
    ensures
        r == hex_char(nibble as int),
{
    if nibble < 10 {
        let code: u8 = 48 + nibble;
        code as char
    } else {
        let code: u8 = 87 + nibble;
        code as char
    }
}

/// Bytes in lowercase hexadecimal.
pub fn encode_hex(bytes: &[u8]) -> (r: String)
    ensures
        r@ == hex(bytes@),
{
    let mut output = String::new();
    let mut index: usize = 0;
    assert(output@ =~= hex(bytes@.take(0)));
    while index < bytes.len()
        invariant
            index <= bytes@.len(),
            output@ == hex(bytes@.take(index as int)),
        decreases bytes@.len() - index,
    {
        let byte: u8 = bytes[index];
        let ghost before = output@;
        output.push(hex_digit(byte / 16));
        output.push(hex_digit(byte % 16));
        proof {
            let shorter = bytes@.take(index as int);
            let longer = bytes@.take(index + 1);
            assert(longer =~= shorter.push(byte));
            assert(output@ =~= hex(longer)) by {
                assert forall|i: int| 0 <= i < output@.len() implies output@[i] == hex(longer)[i] by {
                    if i < before.len() {
                        assert(output@[i] == before[i]);
                        assert(longer[i / 2] == shorter[i / 2]);
                    }
                }
            }
        }
        index = index + 1;
    }
    assert(bytes@.take(index as int) =~= bytes@);
    output
}

/// Different bytes have different hexadecimal texts.
pub proof fn hexadecimal_text_is_exact(left: Seq<u8>, right: Seq<u8>)
    requires
        hex(left) == hex(right),
    ensures
        left == right,
{
    assert(hex(left).len() == left.len() * 2);
    assert(hex(right).len() == right.len() * 2);
    assert forall|i: int| 0 <= i < left.len() implies left[i] == right[i] by {
        assert(hex(left)[2 * i] == hex_char(left[i] as int / 16));
        assert(hex(right)[2 * i] == hex_char(right[i] as int / 16));
        assert(hex(left)[2 * i + 1] == hex_char(left[i] as int % 16));
        assert(hex(right)[2 * i + 1] == hex_char(right[i] as int % 16));
        lemma_hex_char_injective(left[i] as int / 16, right[i] as int / 16);
        lemma_hex_char_injective(left[i] as int % 16, right[i] as int % 16);
    }
    assert(left =~= right);
}

proof fn lemma_hex_char_injective(left: int, right: int)
    requires
        0 <= left < 16,
        0 <= right < 16,
        hex_char(left) == hex_char(right),
    ensures
        left == right,
{
}

/// The number that a text of digits stands for.
pub open spec fn number_told(digits: Seq<char>) -> int
    decreases digits.len(),
{
    if digits.len() == 0 {
        0
    } else {
        number_told(digits.drop_last()) * 10 + (digits.last() as int - '0' as int)
    }
}

/// A number in decimal digits stands for the number, and begins with a zero only where it is zero.
pub proof fn decimal_text_tells_the_number(number: nat)
    ensures
        number_told(decimal(number)) == number,
        decimal(number).len() >= 1,
        number > 0 ==> decimal(number)[0] != '0',
        forall|i: int|
            0 <= i < decimal(number).len() ==> '0' as int <= (#[trigger] decimal(number)[i]) as int
                <= '9' as int,
    decreases number,
{
    reveal_with_fuel(number_told, 2);
    if number < 10 {
        assert(decimal(number).drop_last() =~= Seq::<char>::empty());
    } else {
        decimal_text_tells_the_number(number / 10);
        assert(decimal(number).drop_last() =~= decimal(number / 10));
    }
}

/// Each byte is told by two digits, the higher half first; the digits above nine are letters.
pub proof fn each_byte_is_told_by_two_digits(bytes: Seq<u8>, i: int)
    requires
        0 <= i < bytes.len(),
    ensures
        hex(bytes).len() == 2 * bytes.len(),
        ({
            let high = hex(bytes)[2 * i] as int;
            let low = hex(bytes)[2 * i + 1] as int;
            let value = |digit: int|
                if digit <= '9' as int {
                    digit - '0' as int
                } else {
                    digit - 'a' as int + 10
                };
            &&& '0' as int <= high <= '9' as int || 'a' as int <= high <= 'f' as int
            &&& '0' as int <= low <= '9' as int || 'a' as int <= low <= 'f' as int
            &&& value(high) * 16 + value(low) == bytes[i]
        }),
{
    let high = bytes[i] as int / 16;
    let low = bytes[i] as int % 16;
    assert((2 * i) / 2 == i && (2 * i + 1) / 2 == i && (2 * i) % 2 == 0 && (2 * i + 1) % 2 == 1);
    assert(hex(bytes)[2 * i] == hex_char(high));
    assert(hex(bytes)[2 * i + 1] == hex_char(low));
}

} // verus!
