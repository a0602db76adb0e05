use receipt_verifier::identity::{decode_identity, DecodeError};

#[test]
fn round_trip_through_hex_encoding() {
    let mut id = [0u8; 32];
    for (i, b) in id.iter_mut().enumerate() {
        *b = (i as u8).wrapping_mul(37).wrapping_add(5);
    }
    let text = hex::encode(id);
    assert_eq!(decode_identity(&text), Ok(id));
}

#[test]
fn round_trip_all_ones() {
    let id = [0xffu8; 32];
    assert_eq!(decode_identity(&hex::encode(id)), Ok(id));
}

#[test]
fn zero_identity_decodes_to_zero_bytes() {
    let text = "00".repeat(32);
    assert_eq!(text.len(), 64);
    assert_eq!(decode_identity(&text), Ok([0u8; 32]));
}

#[test]
fn upper_case_digits_decode() {
    let text = "AB".repeat(32);
    assert_eq!(decode_identity(&text), Ok([0xabu8; 32]));
}

#[test]
fn thirty_one_bytes_is_length_error() {
    let text = "11".repeat(31);
    assert_eq!(text.len(), 62);
    assert_eq!(decode_identity(&text), Err(DecodeError::Length { expected: 32, got: 31 }));
}

#[test]
fn thirty_three_bytes_is_length_error() {
    let text = "a0".repeat(33);
    assert_eq!(decode_identity(&text), Err(DecodeError::Length { expected: 32, got: 33 }));
}

#[test]
fn empty_text_is_length_error() {
    assert_eq!(decode_identity(""), Err(DecodeError::Length { expected: 32, got: 0 }));
}

#[test]
fn odd_length_is_format_error() {
    let text = "0".repeat(63);
    assert_eq!(decode_identity(&text), Err(DecodeError::HexFormat { length: 63 }));
}

#[test]
fn non_hex_character_is_format_error() {
    let mut text = "00".repeat(31);
    text.push_str("zz");
    assert_eq!(decode_identity(&text), Err(DecodeError::HexFormat { length: 64 }));
}

#[test]
fn non_ascii_text_reports_byte_length() {
    let text = "é".repeat(32);
    assert_eq!(decode_identity(&text), Err(DecodeError::HexFormat { length: 64 }));
}
