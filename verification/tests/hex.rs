use cdk_ldk_node::hex::{decode_32, encode_32, DecodeError};

fn counting() -> [u8; 32] {
    let mut bytes = [0u8; 32];
    for (i, b) in bytes.iter_mut().enumerate() {
        *b = (i as u8).wrapping_mul(9).wrapping_add(0xa5);
    }
    bytes
}

#[test]
fn encode_writes_two_lower_case_digits_per_byte() {
    let mut bytes = [0u8; 32];
    bytes[0] = 0x01;
    bytes[1] = 0xab;
    bytes[2] = 0xf0;
    bytes[31] = 0xff;
    let text = encode_32(&bytes);
    assert_eq!(text.len(), 64);
    assert_eq!(&text[..6], "01abf0");
    assert_eq!(&text[62..], "ff");
    assert_eq!(&text[6..62], "0".repeat(56));
}

#[test]
fn decode_reads_back_what_encode_wrote() {
    let bytes = counting();
    assert_eq!(decode_32(&encode_32(&bytes)), Ok(bytes));
}

#[test]
fn decode_takes_either_case() {
    let lower = "ab".repeat(32);
    let upper = "AB".repeat(32);
    let mixed = "aB".repeat(32);
    assert_eq!(decode_32(&lower), Ok([0xab; 32]));
    assert_eq!(decode_32(&upper), Ok([0xab; 32]));
    assert_eq!(decode_32(&mixed), Ok([0xab; 32]));
}

#[test]
fn decode_refuses_what_is_not_hexadecimal() {
    let mut text = "00".repeat(31);
    text.push_str("0g");
    assert_eq!(decode_32(&text), Err(DecodeError::NotHex));
    assert_eq!(decode_32(&"0".repeat(63)), Err(DecodeError::NotHex));
    assert_eq!(decode_32("é"), Err(DecodeError::NotHex));
}

#[test]
fn decode_refuses_other_lengths() {
    assert_eq!(decode_32(""), Err(DecodeError::WrongLength));
    assert_eq!(decode_32(&"00".repeat(31)), Err(DecodeError::WrongLength));
    assert_eq!(decode_32(&"00".repeat(33)), Err(DecodeError::WrongLength));
}
