//! Hexadecimal text of byte strings.

use vstd::prelude::*;
use vstd::utf8::{encode_utf8, is_ascii_chars, is_ascii_chars_encode_utf8};

verus! {

/// The lower-case hexadecimal digit for a value below sixteen.
pub open spec fn hex_digit(n: int) -> char {
    if n == 0 {
        '0'
    } else if n == 1 {
        '1'
    } else if n == 2 {
        '2'
    } else if n == 3 {
        '3'
    } else if n == 4 {
        '4'
    } else if n == 5 {
        '5'
    } else if n == 6 {
        '6'
    } else if n == 7 {
        '7'
    } else if n == 8 {
        '8'
    } else if n == 9 {
        '9'
    } else if n == 10 {
        'a'
    } else if n == 11 {
        'b'
    } else if n == 12 {
        'c'
    } else if n == 13 {
        'd'
    } else if n == 14 {
        'e'
    } else {
        'f'
    }
}

/// The hexadecimal text of `bytes`: two lower-case digits for each byte, the
/// high half first.
pub open spec fn hex_text(bytes: Seq<u8>) -> Seq<char> {
    Seq::new(
        2 * bytes.len(),
        |i: int|
            if i % 2 == 0 {
                hex_digit(bytes[i / 2] as int / 16)
            } else {
                hex_digit(bytes[i / 2] as int % 16)
            },
    )
}

/// The value of one hexadecimal digit given as a byte of text, in either
/// case; `None` for any other byte.
pub open spec fn hex_value(c: u8) -> Option<int> {
    if 48 <= c <= 57 {
        Some(c - 48)
    } else if 97 <= c <= 102 {
        Some(c - 87)
    } else if 65 <= c <= 70 {
        Some(c - 55)
    } else {
        None
    }
}

/// Whether `text` is hexadecimal: an even number of bytes, each one a digit.
pub open spec fn is_hex(text: Seq<u8>) -> bool {
    &&& text.len() % 2 == 0
    &&& forall|i: int| 0 <= i < text.len() ==> (#[trigger] hex_value(text[i])) is Some
}

/// The bytes that hexadecimal `text` stands for.
pub open spec fn hex_bytes(text: Seq<u8>) -> Seq<u8> {
    Seq::new(
        text.len() / 2,
        |i: int| (hex_value(text[2 * i])->0 * 16 + hex_value(text[2 * i + 1])->0) as u8,
    )
}

/// The value of a hexadecimal digit is the number it was written for.
pub proof fn lemma_digit_value(n: int)
    requires
        0 <= n < 16,
    ensures
        '\0' <= hex_digit(n) <= '\u{7f}',
        hex_value(hex_digit(n) as u8) == Some(n),
{
}

/// Reading back the text of a byte string gives the byte string: the text
/// is hexadecimal, of twice the length, and stands for the same bytes.
pub proof fn lemma_hex_round_trip(bytes: Seq<u8>)
    ensures
        encode_utf8(hex_text(bytes)).len() == 2 * bytes.len(),
        is_hex(encode_utf8(hex_text(bytes))),
        hex_bytes(encode_utf8(hex_text(bytes))) == bytes,
{
    let text = hex_text(bytes);
    let encoded = encode_utf8(text);
    assert forall|i: int| 0 <= i < text.len() implies '\0' <= #[trigger] text[i] <= '\u{7f}' by {
        let b = bytes[i / 2] as int;
        lemma_digit_value(b / 16);
        lemma_digit_value(b % 16);
    }
    assert(is_ascii_chars(text));
    is_ascii_chars_encode_utf8(text);
    assert forall|i: int| 0 <= i < encoded.len() implies (#[trigger] hex_value(encoded[i]))
        is Some by {
        let b = bytes[i / 2] as int;
        lemma_digit_value(b / 16);
        lemma_digit_value(b % 16);
        assert(encoded[i] == text[i] as u8);
    }
    let decoded = hex_bytes(encoded);
    assert forall|j: int| 0 <= j < bytes.len() implies decoded[j] == bytes[j] by {
        let b = bytes[j] as int;
        lemma_digit_value(b / 16);
        lemma_digit_value(b % 16);
        assert(encoded[2 * j] == text[2 * j] as u8);
        assert(encoded[2 * j + 1] == text[2 * j + 1] as u8);
        assert((2 * j) / 2 == j);
        assert((2 * j + 1) / 2 == j);
        assert(text[2 * j] == hex_digit(b / 16));
        assert(text[2 * j + 1] == hex_digit(b % 16));
    }
    assert(decoded =~= bytes);
}

/// The error of the hexadecimal decoder.
#[verifier::external_type_specification]
#[verifier::external_body]
pub struct ExHexError(cdk_common::util::hex::Error);

/// `cdk_common::util::hex::encode`: the text holds two lower-case digits per
/// byte, high half first.
#[verifier::external_body]
pub(crate) fn encode(bytes: &[u8]) -> (text: String)
    ensures
        text@ == hex_text(bytes@),
{
    cdk_common::util::hex::encode(bytes)
}

/// `cdk_common::util::hex::decode`: succeeds on an even number of digits of
/// either case and nothing else, and gives one byte per pair of digits.
#[verifier::external_body]
pub(crate) fn decode(text: &[u8]) -> (r: Result<Vec<u8>, cdk_common::util::hex::Error>)
    ensures
        r is Ok <==> is_hex(text@),
        r is Ok ==> r->Ok_0@ == hex_bytes(text@),
{
    cdk_common::util::hex::decode(text)
}

/// The hexadecimal text of a 32-byte value.
pub fn encode_32(bytes: &[u8; 32]) -> (text: String)
    ensures
        text@ == hex_text(bytes@),
{
    encode(bytes.as_slice())
}

/// Whether `text` is the hexadecimal form of a 32-byte value.
pub open spec fn is_hex_32(text: Seq<u8>) -> bool {
    is_hex(text) && text.len() == 64
}

/// Why a text is not a 32-byte identifier.
#[derive(Clone, Copy, Debug, PartialEq, Eq)]
pub enum DecodeError {
    /// The text is not hexadecimal.
    NotHex,
    /// The text is hexadecimal but does not stand for 32 bytes.
    WrongLength,
}

/// Reads a 32-byte value from its hexadecimal text.
pub fn decode_32(text: &str) -> (r: Result<[u8; 32], DecodeError>)
    ensures
        r is Ok <==> is_hex_32(encode_utf8(text@)),
        r is Ok ==> r->Ok_0@ == hex_bytes(encode_utf8(text@)),
        r == Err::<[u8; 32], DecodeError>(DecodeError::NotHex) <==> !is_hex(encode_utf8(text@)),
{
    match decode(text.as_bytes()) {
        Err(_) => Err(DecodeError::NotHex),
        Ok(bytes) => {
            if bytes.len() != 32 {
                Err(DecodeError::WrongLength)
            } else {
                let mut out = [0u8; 32];
                let mut i: usize = 0;
                while i < 32
                    invariant
                        i <= 32,
                        bytes.len() == 32,
                        forall|j: int| 0 <= j < i ==> out@[j] == bytes@[j],
                    decreases 32 - i,
                {
                    out[i] = bytes[i];
                    i = i + 1;
                }
                assert(out@ =~= bytes@);
                Ok(out)
            }
        },
    }
}

} // verus!
