//! Hexadecimal program identities: decoding a caller's text into 32 bytes.

use vstd::prelude::*;
use vstd::string::StringSliceAdditionalSpecFns;

verus! {

/// Number of bytes in a program identity.
pub const IDENTITY_LEN: usize = 32;

/// Whether an ASCII byte is a hexadecimal digit (either case).
pub open spec fn is_hex_digit(c: u8) -> bool {
    (48 <= c && c <= 57) || (65 <= c && c <= 70) || (97 <= c && c <= 102)
}

/// The value of a hexadecimal digit.
pub open spec fn hex_digit_value(c: u8) -> int {
    if c <= 57 {
        c - 48
    } else if c <= 70 {
        c - 55
    } else {
        c - 87
    }
}

/// Text that decodes: an even number of hexadecimal digits.
pub open spec fn is_hex_text(t: Seq<u8>) -> bool {
    &&& t.len() % 2 == 0
    &&& forall|i: int| 0 <= i < t.len() ==> is_hex_digit(#[trigger] t[i])
}

/// The bytes that hexadecimal text stands for: one byte per pair of digits,
/// the first digit the high half.
pub open spec fn hex_decoded(t: Seq<u8>) -> Seq<u8> {
    Seq::new(
        t.len() / 2,
        |i: int| (hex_digit_value(t[2 * i]) * 16 + hex_digit_value(t[2 * i + 1])) as u8,
    )
}

/// The lower-case ASCII digit for a value below sixteen.
pub open spec fn lower_hex_digit(v: int) -> u8 {
    if v < 10 {
        (48 + v) as u8
    } else {
        (87 + v) as u8
    }
}

/// The lower-case hexadecimal text of some bytes, two digits per byte.
pub open spec fn hex_text(b: Seq<u8>) -> Seq<u8> {
    Seq::new(
        2 * b.len(),
        |i: int|
            if i % 2 == 0 {
                lower_hex_digit(b[i / 2] as int / 16)
            } else {
                lower_hex_digit(b[i / 2] as int % 16)
            },
    )
}

/// The same text as characters.
pub open spec fn hex_chars(b: Seq<u8>) -> Seq<char> {
    hex_text(b).map_values(|c: u8| c as char)
}

/// Why a text is not a program identity.
#[derive(Debug, Clone, Copy, PartialEq, Eq, Structural)]
pub enum DecodeError {
    /// The text is not an even number of hexadecimal digits; `length` is its
    /// length in bytes.
    HexFormat { length: usize },
    /// The text decodes, to `got` bytes rather than `expected`.
    Length { expected: usize, got: usize },
}

#[verifier::external_type_specification]
#[verifier::external_body]
pub struct ExFromHexError(hex::FromHexError);

/// Relies on hex::decode: it accepts exactly an even number of digits of
/// either case, and gives one byte per pair, high half first.
#[verifier::external_body]
fn hex_decode(text: &[u8]) -> (r: Result<Vec<u8>, hex::FromHexError>)
    ensures
        r is Ok <==> is_hex_text(text@),
        r matches Ok(v) ==> v@ == hex_decoded(text@),
{
    hex::decode(text)
}

/// Relies on hex::encode: two lower-case digits per byte, high half first.
#[verifier::external_body]
pub(crate) fn hex_encode(bytes: &[u8]) -> (r: String)
    ensures
        r@ == hex_chars(bytes@),
{
    hex::encode(bytes)
}

proof fn lemma_digit_pair(x: u8)
    ensures
        is_hex_digit(lower_hex_digit(x as int / 16)),
        is_hex_digit(lower_hex_digit(x as int % 16)),
        hex_digit_value(lower_hex_digit(x as int / 16)) * 16 + hex_digit_value(
            lower_hex_digit(x as int % 16),
        ) == x,
{
}

/// Hexadecimal text of any bytes decodes, and gives those bytes back; in
/// particular the text of every 32-byte identity decodes to that identity.
pub proof fn lemma_hex_round_trip(b: Seq<u8>)
    ensures
        is_hex_text(hex_text(b)),
        hex_decoded(hex_text(b)) == b,
{
    let t = hex_text(b);
    assert forall|i: int| 0 <= i < t.len() implies is_hex_digit(#[trigger] t[i]) by {
        lemma_digit_pair(b[i / 2]);
    }
    assert forall|i: int| 0 <= i < b.len() implies #[trigger] hex_decoded(t)[i] == b[i] by {
        lemma_digit_pair(b[i]);
        assert((2 * i) / 2 == i);
        assert((2 * i + 1) / 2 == i);
    }
    assert(hex_decoded(t) =~= b);
}

/// Decodes a caller's hexadecimal text into a 32-byte program identity.
pub fn decode_identity(text: &str) -> (r: Result<[u8; 32], DecodeError>)
    ensures
        match r {
            Ok(id) => {
                &&& is_hex_text(text.spec_bytes())
                &&& hex_decoded(text.spec_bytes()).len() == 32
                &&& id@ == hex_decoded(text.spec_bytes())
            },
            Err(DecodeError::HexFormat { length }) => {
                &&& !is_hex_text(text.spec_bytes())
                &&& length == text.spec_bytes().len()
            },
            Err(DecodeError::Length { expected, got }) => {
                &&& is_hex_text(text.spec_bytes())
                &&& expected == 32
                &&& got == hex_decoded(text.spec_bytes()).len()
                &&& got != 32
            },
        },
        is_hex_text(text.spec_bytes()) && hex_decoded(text.spec_bytes()).len() != 32 ==> r == Err::<
            [u8; 32],
            DecodeError,
        >(DecodeError::Length { expected: 32, got: hex_decoded(text.spec_bytes()).len() as usize }),
{
    let raw = text.as_bytes();
    let decoded = match hex_decode(raw) {
        Ok(v) => v,
        Err(_) => {
            return Err(DecodeError::HexFormat { length: raw.len() });
        },
    };
    if decoded.len() != IDENTITY_LEN {
        return Err(DecodeError::Length { expected: IDENTITY_LEN, got: decoded.len() });
    }
    let mut id = [0u8; 32];
    let mut i: usize = 0;
    while i < IDENTITY_LEN
        invariant
            i <= 32,
            decoded@.len() == 32,
            forall|j: int| 0 <= j < i ==> id@[j] == decoded@[j],
        decreases 32 - i,
    {
        id[i] = decoded[i];
        i = i + 1;
    }
    assert(id@ =~= decoded@);
    Ok(id)
}

} // verus!
