//! Hexadecimal text, as the node and the registry exchange it.

use vstd::prelude::*;

verus! {

/// `0-9`, `a-f` and `A-F`.
pub open spec fn is_hex_digit(c: char) -> bool {
    ||| '0' <= c <= '9'
    ||| 'a' <= c <= 'f'
    ||| 'A' <= c <= 'F'
}

/// The number a hex digit stands for.
pub open spec fn hex_value(c: char) -> int {
    if '0' <= c <= '9' {
        c as int - '0' as int
    } else if 'a' <= c <= 'f' {
        c as int - 'a' as int + 10
    } else {
        c as int - 'A' as int + 10
    }
}

/// The lower-case digit for a number below sixteen.
pub open spec fn hex_char(value: int) -> char {
    seq!['0', '1', '2', '3', '4', '5', '6', '7', '8', '9', 'a', 'b', 'c', 'd', 'e', 'f'][value]
}

/// Every character of `s` is a hex digit.
pub open spec fn is_hex_text(s: Seq<char>) -> bool {
    forall|i: int| 0 <= i < s.len() ==> is_hex_digit(#[trigger] s[i])
}

/// `s` decodes: hex digits only, two for each byte.
pub open spec fn is_hex_encoding(s: Seq<char>) -> bool {
    is_hex_text(s) && s.len() % 2 == 0
}

/// The bytes that the digit pairs of `s` stand for.
pub open spec fn decode_hex(s: Seq<char>) -> Seq<u8> {
    Seq::new(
        s.len() / 2,
        |i: int| (hex_value(s[2 * i]) * 16 + hex_value(s[2 * i + 1])) as u8,
    )
}

/// Two lower-case digits for each byte of `bytes`, high nibble first.
pub open spec fn encode_hex(bytes: Seq<u8>) -> Seq<char> {
    Seq::new(
        2 * bytes.len(),
        |i: int|
            if i % 2 == 0 {
                hex_char(bytes[i / 2] as int / 16)
            } else {
                hex_char(bytes[i / 2] as int % 16)
            },
    )
}

/// Encoded bytes are hex digits, two for each byte.
pub proof fn lemma_encode_is_hex_encoding(bytes: Seq<u8>)
    ensures
        is_hex_encoding(encode_hex(bytes)),
        encode_hex(bytes).len() == 2 * bytes.len(),
{
    let text = encode_hex(bytes);
    assert forall|i: int| 0 <= i < text.len() implies is_hex_digit(#[trigger] text[i]) by {
        let b = bytes[i / 2] as int;
        assert(0 <= b / 16 < 16 && 0 <= b % 16 < 16);
        lemma_hex_char_is_digit(b / 16);
        lemma_hex_char_is_digit(b % 16);
    }
}

/// Each of the sixteen digits is a hex digit and stands for its own index.
pub proof fn lemma_hex_char_is_digit(value: int)
    requires
        0 <= value < 16,
    ensures
        is_hex_digit(hex_char(value)),
        hex_value(hex_char(value)) == value,
        !('A' <= hex_char(value) <= 'F'),
{
    if value == 0 {
    } else if value == 1 {
    } else if value == 2 {
    } else if value == 3 {
    } else if value == 4 {
    } else if value == 5 {
    } else if value == 6 {
    } else if value == 7 {
    } else if value == 8 {
    } else if value == 9 {
    } else if value == 10 {
    } else if value == 11 {
    } else if value == 12 {
    } else if value == 13 {
    } else if value == 14 {
    } else {
        assert(value == 15);
    }
}

/// Decoding undoes encoding.
pub proof fn lemma_decode_encode(bytes: Seq<u8>)
    ensures
        decode_hex(encode_hex(bytes)) == bytes,
{
    let text = encode_hex(bytes);
    let back = decode_hex(text);
    assert(back.len() == bytes.len());
    assert forall|i: int| 0 <= i < bytes.len() implies back[i] == bytes[i] by {
        let b = bytes[i] as int;
        assert((2 * i) / 2 == i && (2 * i) % 2 == 0);
        assert((2 * i + 1) / 2 == i && (2 * i + 1) % 2 == 1);
        assert(text[2 * i] == hex_char(b / 16));
        assert(text[2 * i + 1] == hex_char(b % 16));
        lemma_hex_char_is_digit(b / 16);
        lemma_hex_char_is_digit(b % 16);
        assert((b / 16) * 16 + b % 16 == b);
    }
    assert(back =~= bytes);
}

#[verifier::external_type_specification]
#[verifier::external_body]
pub struct ExFromHexError(hex::FromHexError);

/// `hex::decode` on a string. It reads the string's bytes, refuses an odd
/// number of them and any byte that is not a hex digit, and otherwise packs
/// each pair of digits into one byte, high nibble first. A character outside
/// ASCII encodes to bytes that are no hex digits, so the call succeeds exactly
/// on an even number of hex-digit characters. Trusted.
#[verifier::external_body]
fn hex_decode(text: &str) -> (r: Result<Vec<u8>, hex::FromHexError>)
    ensures
        r is Ok <==> is_hex_encoding(text@),
        r matches Ok(bytes) ==> bytes@ == decode_hex(text@),
{
    hex::decode(text)
}

/// `hex::encode`: two lower-case digits for each byte. Trusted.
#[verifier::external_body]
fn hex_encode(bytes: &[u8]) -> (r: String)
    ensures
        r@ == encode_hex(bytes@),
{
    hex::encode(bytes)
}

/// The text is no hex encoding: it holds something that is no hex digit, or
/// an odd number of digits.
#[derive(Clone, Copy, Debug, PartialEq, Eq, Structural)]
pub struct HexError;

/// Decodes hex text into bytes.
///
/// Succeeds exactly on an even number of hex digits.
pub fn decode(text: &str) -> (r: Result<Vec<u8>, HexError>)
    ensures
        r is Ok <==> is_hex_encoding(text@),
        r matches Ok(bytes) ==> bytes@ == decode_hex(text@),
{
    match hex_decode(text) {
        Ok(bytes) => Ok(bytes),
        Err(_) => Err(HexError),
    }
}

/// Encodes bytes as lower-case hex text.
pub fn encode(bytes: &[u8]) -> (text: String)
    ensures
        text@ == encode_hex(bytes@),
        is_hex_encoding(text@),
        decode_hex(text@) == bytes@,
{
    proof {
        lemma_encode_is_hex_encoding(bytes@);
        lemma_decode_encode(bytes@);
    }
    hex_encode(bytes)
}

} // verus!
