//! Bytes as uppercase hexadecimal text.

use vstd::prelude::*;
use vstd::string::*;

verus! {

/// The uppercase hex digit of a value below 16.
pub open spec fn digit_char(value: int) -> char {
    seq!['0', '1', '2', '3', '4', '5', '6', '7', '8', '9', 'A', 'B', 'C', 'D', 'E', 'F'][value]
}

/// A byte as two hex digits, the high one first.
pub open spec fn byte_text(byte: u8) -> Seq<char> {
    seq![digit_char(byte as int / 16), digit_char(byte as int % 16)]
}

/// Bytes as hex digits, two to a byte and nothing between them.
pub open spec fn hex_text(bytes: Seq<u8>) -> Seq<char>
    decreases bytes.len(),
{
    if bytes.len() == 0 {
        Seq::empty()
    } else {
        hex_text(bytes.drop_last()) + byte_text(bytes.last())
    }
}

/// Bytes as hex digits, with one space between two bytes.
pub open spec fn spaced_hex_text(bytes: Seq<u8>) -> Seq<char>
    decreases bytes.len(),
{
    if bytes.len() == 0 {
        Seq::empty()
    } else if bytes.len() == 1 {
        byte_text(bytes[0])
    } else {
        spaced_hex_text(bytes.drop_last()) + seq![' '] + byte_text(bytes.last())
    }
}

/// The uppercase hex digit of a value below 16.
fn digit(value: u8) -> (text: &'static str)
    requires
        value < 16,
    ensures
        text@ == seq![digit_char(value as int)],
{
    proof {
        reveal_strlit("0");
        reveal_strlit("1");
        reveal_strlit("2");
        reveal_strlit("3");
        reveal_strlit("4");
        reveal_strlit("5");
        reveal_strlit("6");
        reveal_strlit("7");
        reveal_strlit("8");
        reveal_strlit("9");
        reveal_strlit("A");
        reveal_strlit("B");
        reveal_strlit("C");
        reveal_strlit("D");
        reveal_strlit("E");
        reveal_strlit("F");
    }
    match value {
        0 => "0",
        1 => "1",
        2 => "2",
        3 => "3",
        4 => "4",
        5 => "5",
        6 => "6",
        7 => "7",
        8 => "8",
        9 => "9",
        10 => "A",
        11 => "B",
        12 => "C",
        13 => "D",
        14 => "E",
        _ => "F",
    }
}

/// Append a byte to `text` as two hex digits.
fn push_byte(text: &mut String, byte: u8)
    ensures
        final(text)@ == old(text)@ + byte_text(byte),
{
    text.append(digit(byte / 16));
    text.append(digit(byte % 16));
    proof {
        assert(text@ =~= old(text)@ + byte_text(byte));
    }
}

/// `bytes` as uppercase hex, two digits to a byte.
pub fn hex(bytes: &[u8]) -> (text: String)
    ensures
        text@ == hex_text(bytes@),
{
    let mut text: String = String::new();
    let mut i: usize = 0;

    while i < bytes.len()
        invariant
            i <= bytes@.len(),
            text@ == hex_text(bytes@.take(i as int)),
        decreases bytes@.len() - i,
    {
        proof {
            assert(bytes@.take(i + 1).drop_last() =~= bytes@.take(i as int));
        }
        push_byte(&mut text, bytes[i]);
        i += 1;
    }
    proof {
        assert(bytes@.take(i as int) =~= bytes@);
    }

    text
}

/// `bytes` as uppercase hex, the bytes separated by single spaces.
pub fn spaced_hex(bytes: &[u8]) -> (text: String)
    ensures
        text@ == spaced_hex_text(bytes@),
{
    let mut text: String = String::new();
    let mut i: usize = 0;

    while i < bytes.len()
        invariant
            i <= bytes@.len(),
            text@ == spaced_hex_text(bytes@.take(i as int)),
        decreases bytes@.len() - i,
    {
        proof {
            reveal_strlit(" ");
            assert(bytes@.take(i + 1).drop_last() =~= bytes@.take(i as int));
        }
        if i > 0 {
            text.append(" ");
            proof {
                assert(text@ =~= spaced_hex_text(bytes@.take(i as int)) + seq![' ']);
            }
        }
        push_byte(&mut text, bytes[i]);
        i += 1;
        proof {
            assert(text@ =~= spaced_hex_text(bytes@.take(i as int)));
        }
    }
    proof {
        assert(bytes@.take(i as int) =~= bytes@);
    }

    text
}

/// Two digits stand for each byte.
pub proof fn law_hex_len(bytes: Seq<u8>)
    ensures
        hex_text(bytes).len() == 2 * bytes.len(),
    decreases bytes.len(),
{
    if bytes.len() > 0 {
        law_hex_len(bytes.drop_last());
    }
}

/// The digits are the decimal ones and then the letters from `A` on, in upper case.
pub proof fn law_digits_are_uppercase_hex(value: int)
    requires
        0 <= value < 16,
    ensures
        value < 10 ==> digit_char(value) as int == '0' as int + value,
        value >= 10 ==> digit_char(value) as int == 'A' as int + value - 10,
{
}

/// Each byte stands in its own place, the digit of its high half first, whatever the others
/// are.
pub proof fn law_bytes_read_in_order(bytes: Seq<u8>, i: int)
    requires
        0 <= i < bytes.len(),
    ensures
        hex_text(bytes).len() == 2 * bytes.len(),
        hex_text(bytes)[2 * i] == digit_char(bytes[i] as int / 16),
        hex_text(bytes)[2 * i + 1] == digit_char(bytes[i] as int % 16),
    decreases bytes.len(),
{
    let front = bytes.drop_last();
    law_hex_len(bytes);
    law_hex_len(front);
    if i < front.len() {
        law_bytes_read_in_order(front, i);
    }
}

/// Spaced out, the same digits stand three to a byte, a space between any two bytes and none at
/// either end.
pub proof fn law_bytes_are_spaced_apart(bytes: Seq<u8>, i: int)
    requires
        0 <= i < bytes.len(),
    ensures
        spaced_hex_text(bytes).len() == 3 * bytes.len() - 1,
        spaced_hex_text(bytes)[3 * i] == hex_text(bytes)[2 * i],
        spaced_hex_text(bytes)[3 * i + 1] == hex_text(bytes)[2 * i + 1],
        i > 0 ==> spaced_hex_text(bytes)[3 * i - 1] == ' ',
        spaced_hex_text(Seq::empty()).len() == 0,
    decreases bytes.len(),
{
    let front = bytes.drop_last();
    law_bytes_read_in_order(bytes, i);
    if front.len() > 0 {
        law_bytes_are_spaced_apart(front, 0);
        if i < front.len() {
            law_bytes_are_spaced_apart(front, i);
            law_bytes_read_in_order(front, i);
        }
    }
}

/// Different bytes never read the same: the digits of a byte string determine it.
pub proof fn law_hex_injective(a: Seq<u8>, b: Seq<u8>)
    requires
        hex_text(a) == hex_text(b),
    ensures
        a == b,
    decreases a.len(),
{
    law_hex_len(a);
    law_hex_len(b);
    if a.len() > 0 {
        let text = hex_text(a);
        let n = text.len();
        let rest_a = hex_text(a.drop_last());
        let rest_b = hex_text(b.drop_last());
        law_hex_len(a.drop_last());
        law_hex_len(b.drop_last());
        assert(rest_a =~= text.take(n - 2));
        assert(rest_b =~= text.take(n - 2));
        law_hex_injective(a.drop_last(), b.drop_last());
        assert(byte_text(a.last())[0] == text[n - 2] && byte_text(a.last())[1] == text[n - 1]);
        assert(byte_text(b.last())[0] == text[n - 2] && byte_text(b.last())[1] == text[n - 1]);
        lemma_byte_text_injective(a.last(), b.last());
        assert(a =~= a.drop_last().push(a.last()));
        assert(b =~= b.drop_last().push(b.last()));
    } else {
        assert(a =~= b);
    }
}

/// Different values below 16 have different digits.
proof fn lemma_digit_injective(a: int, b: int)
    requires
        0 <= a < 16,
        0 <= b < 16,
        digit_char(a) == digit_char(b),
    ensures
        a == b,
{
}

/// Different bytes have different texts.
proof fn lemma_byte_text_injective(a: u8, b: u8)
    requires
        byte_text(a)[0] == byte_text(b)[0],
        byte_text(a)[1] == byte_text(b)[1],
    ensures
        a == b,
{
    lemma_digit_injective(a as int / 16, b as int / 16);
    lemma_digit_injective(a as int % 16, b as int % 16);
}

} // verus!
