//! Hexadecimal text, as the `hex` crate writes and reads it.

use vstd::prelude::*;
use vstd::utf8::*;

verus! {

/// The sixteen lowercase digits, by value.
pub open spec fn digits() -> Seq<char> {
    seq!['0', '1', '2', '3', '4', '5', '6', '7', '8', '9', 'a', 'b', 'c', 'd', 'e', 'f']
}

/// The text of a byte string: two lowercase digits per byte, high half first.
pub open spec fn hex_chars(data: Seq<u8>) -> Seq<char> {
    Seq::new(
        2 * data.len(),
        |i: int|
            if i % 2 == 0 {
                digits()[data[i / 2] as int / 16]
            } else {
                digits()[data[i / 2] as int % 16]
            },
    )
}

/// The value of an ASCII digit of either case, and -1 for any other byte.
pub open spec fn digit_value(c: u8) -> int {
    if 0x30 <= c <= 0x39 {
        c - 0x30
    } else if 0x61 <= c <= 0x66 {
        c - 0x61 + 10
    } else if 0x41 <= c <= 0x46 {
        c - 0x41 + 10
    } else {
        -1
    }
}

/// Whether a text decodes: an even number of bytes, each of them a digit.
pub open spec fn is_hex_text(text: Seq<u8>) -> bool {
    &&& text.len() % 2 == 0
    &&& forall|i: int| 0 <= i < text.len() ==> digit_value(#[trigger] text[i]) >= 0
}

/// The bytes that a text stands for, one per pair of digits.
pub open spec fn hex_bytes(text: Seq<u8>) -> Seq<u8> {
    Seq::new(
        text.len() / 2,
        |i: int| (16 * digit_value(text[2 * i]) + digit_value(text[2 * i + 1])) as u8,
    )
}

#[verifier::external_type_specification]
#[verifier::external_body]
pub struct ExFromHexError(hex::FromHexError);

/// `hex::encode`. It walks the bytes in order and writes for each the digit
/// of its high half and then the digit of its low half, from the table
/// `0123456789abcdef`.
#[verifier::external_body]
pub(crate) fn encode(data: &[u8]) -> (text: String)
    ensures
        text@ == hex_chars(data@),
{
    hex::encode(data)
}

/// `hex::decode`. It fails on an odd length and on any byte outside
/// `0-9`, `a-f` and `A-F`; otherwise each pair of digits gives one byte, the
/// first digit its high half.
#[verifier::external_body]
pub(crate) fn decode(text: &[u8]) -> (r: Result<Vec<u8>, hex::FromHexError>)
    ensures
        r is Ok <==> is_hex_text(text@),
        r matches Ok(bytes) ==> bytes@ == hex_bytes(text@),
{
    hex::decode(text)
}

/// Every digit of the table is an ASCII character whose value is its index.
proof fn lemma_digit(v: int)
    requires
        0 <= v < 16,
    ensures
        '\0' <= digits()[v] <= '\u{7f}',
        digit_value(digits()[v] as u8) == v,
{
}

/// Encoded text is ASCII, decodes, and decodes to the bytes it was made of.
pub proof fn lemma_hex_round_trip(data: Seq<u8>)
    ensures
        is_ascii_chars(hex_chars(data)),
        encode_utf8(hex_chars(data)).len() == 2 * data.len(),
        is_hex_text(encode_utf8(hex_chars(data))),
        hex_bytes(encode_utf8(hex_chars(data))) == data,
{
    let chars = hex_chars(data);
    assert forall|i: int| 0 <= i < chars.len() implies '\0' <= #[trigger] chars[i] <= '\u{7f}' by {
        lemma_digit(data[i / 2] as int / 16);
        lemma_digit(data[i / 2] as int % 16);
    }
    is_ascii_chars_encode_utf8(chars);
    let text = encode_utf8(chars);
    assert forall|i: int| 0 <= i < text.len() implies digit_value(#[trigger] text[i]) >= 0 by {
        lemma_digit(data[i / 2] as int / 16);
        lemma_digit(data[i / 2] as int % 16);
        assert(text[i] == chars[i] as u8);
    }
    assert forall|k: int| 0 <= k < data.len() implies #[trigger] hex_bytes(text)[k] == data[k] by {
        lemma_digit(data[k] as int / 16);
        lemma_digit(data[k] as int % 16);
        assert(text[2 * k] == chars[2 * k] as u8);
        assert(text[2 * k + 1] == chars[2 * k + 1] as u8);
    }
    assert(hex_bytes(text) =~= data);
}

} // verus!
