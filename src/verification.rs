//! Checking a receipt against a program identity, and the outcome reported
//! to the caller.

use vstd::prelude::*;
use vstd::string::StringExecFns;
use crate::identity::{hex_chars, hex_encode};

verus! {

#[verifier::external_type_specification]
#[verifier::external_body]
pub struct ExReceipt(risc0_zkvm::Receipt);

#[verifier::external_type_specification]
#[verifier::external_body]
pub struct ExSerdeError(risc0_zkvm::serde::Error);

/// The result of checking one receipt.
#[derive(Debug, Clone)]
pub struct VerificationOutcome {
    pub valid: bool,
    pub message: String,
    pub journal_value: Option<u32>,
}

/// The outcome as plain values.
pub struct OutcomeView {
    pub valid: bool,
    pub message: Seq<char>,
    pub journal_value: Option<u32>,
}

impl View for VerificationOutcome {
    type V = OutcomeView;

    open spec fn view(&self) -> OutcomeView {
        OutcomeView { valid: self.valid, message: self.message@, journal_value: self.journal_value }
    }
}

/// What the external verifier said, as plain values: accepted, or rejected
/// with a description.
pub open spec fn verdict_view(v: Result<(), String>) -> Result<(), Seq<char>> {
    match v {
        Ok(()) => Ok(()),
        Err(d) => Err(d@),
    }
}

/// An unsigned 32-bit integer from four bytes, least significant first.
pub open spec fn le_word(b: Seq<u8>) -> u32 {
    (b[0] as int + 256 * b[1] as int + 65536 * b[2] as int + 16777216 * b[3] as int) as u32
}

/// The journal read as one canonically encoded `u32`: whole words, at least
/// one, of which the first is the value.
pub open spec fn journal_word(journal: Seq<u8>) -> Option<u32> {
    if journal.len() >= 4 && journal.len() % 4 == 0 {
        Some(le_word(journal))
    } else {
        None
    }
}

/// The outcome owed for a verdict and the receipt's journal.
pub open spec fn expected_outcome(verdict: Result<(), Seq<char>>, journal: Seq<u8>) -> OutcomeView {
    match verdict {
        Ok(()) => match journal_word(journal) {
            Some(v) => OutcomeView {
                valid: true,
                message: "receipt is valid"@,
                journal_value: Some(v),
            },
            None => OutcomeView {
                valid: true,
                message: "receipt is valid; journal is not a u32: "@ + hex_chars(journal),
                journal_value: None,
            },
        },
        Err(detail) => OutcomeView {
            valid: false,
            message: "receipt is invalid: "@ + detail,
            journal_value: None,
        },
    }
}

/// Relies on risc0_zkvm::serde::from_slice::<u32, u8>: on bytes that fill
/// whole words it reads the first word and fails only when there is none.
/// Words are taken in the machine's byte order; this library is built for
/// little-endian targets only. On other lengths it panics when the bytes
/// happen to be word-aligned, so they are not admitted.
#[verifier::external_body]
fn decode_journal_word(bytes: &[u8]) -> (r: Result<u32, risc0_zkvm::serde::Error>)
    requires
        bytes@.len() % 4 == 0,
    ensures
        r is Ok <==> bytes@.len() >= 4,
        r matches Ok(v) ==> v == le_word(bytes@),
{
    risc0_zkvm::serde::from_slice::<u32, u8>(bytes)
}

/// Relies on risc0_zkvm::Receipt::verify: whether the receipt proves a
/// successful run of the program with this image identity. A rejection
/// comes back as the Debug text of the verifier's error.
#[verifier::external_body]
fn receipt_verify(receipt: &risc0_zkvm::Receipt, image_id: &[u8; 32]) -> (r: Result<(), String>) {
    match receipt.verify(*image_id) {
        Ok(()) => Ok(()),
        Err(e) => Err(format!("{e:?}")),
    }
}

/// Relies on the public field `journal.bytes` of risc0_zkvm::Receipt: the
/// output that the program committed.
#[verifier::external_body]
fn receipt_journal(receipt: &risc0_zkvm::Receipt) -> (r: &[u8]) {
    &receipt.journal.bytes
}

/// The journal's value as one `u32`, when it holds exactly that encoding's
/// shape.
pub fn journal_value_of(journal: &[u8]) -> (r: Option<u32>)
    ensures
        r == journal_word(journal@),
{
    if journal.len() % 4 != 0 {
        return None;
    }
    match decode_journal_word(journal) {
        Ok(v) => Some(v),
        Err(_) => None,
    }
}

/// The outcome for a verdict of the external verifier and the receipt's
/// journal. A rejection is an outcome, not an error.
pub fn outcome_of(verdict: Result<(), String>, journal: &[u8]) -> (r: VerificationOutcome)
    ensures
        r@ == expected_outcome(verdict_view(verdict), journal@),
{
    match verdict {
        Ok(()) => match journal_value_of(journal) {
            Some(v) => VerificationOutcome {
                valid: true,
                message: "receipt is valid".to_owned(),
                journal_value: Some(v),
            },
            None => {
                let mut message = "receipt is valid; journal is not a u32: ".to_owned();
                let shown = hex_encode(journal);
                message.append(shown.as_str());
                VerificationOutcome { valid: true, message, journal_value: None }
            },
        },
        Err(detail) => {
            let mut message = "receipt is invalid: ".to_owned();
            message.append(detail.as_str());
            VerificationOutcome { valid: false, message, journal_value: None }
        },
    }
}

/// Checks a receipt against a program identity. Whatever the external
/// verifier decides, the outcome is the one owed for some verdict and the
/// receipt's journal.
pub fn verify_receipt(image_id: &[u8; 32], receipt: &risc0_zkvm::Receipt) -> (r: VerificationOutcome)
    ensures
        exists|verdict: Result<(), Seq<char>>, journal: Seq<u8>|
            r@ == expected_outcome(verdict, journal),
{
    let verdict = receipt_verify(receipt, image_id);
    let journal = receipt_journal(receipt);
    let r = outcome_of(verdict, journal);
    assert(r@ == expected_outcome(verdict_view(verdict), journal@));
    r
}

/// The journal value depends on the journal alone: two accepted checks of
/// receipts with the same journal report the same value, the journal's word.
pub proof fn lemma_journal_value_deterministic(
    first: Result<(), Seq<char>>,
    second: Result<(), Seq<char>>,
    journal: Seq<u8>,
)
    requires
        first is Ok,
        second is Ok,
    ensures
        expected_outcome(first, journal).journal_value == expected_outcome(second, journal).journal_value,
        expected_outcome(first, journal).journal_value == journal_word(journal),
{
}

/// Only an accepted receipt is valid, and only a valid outcome carries a
/// journal value.
pub proof fn lemma_value_only_when_valid(verdict: Result<(), Seq<char>>, journal: Seq<u8>)
    ensures
        expected_outcome(verdict, journal).valid <==> verdict is Ok,
        expected_outcome(verdict, journal).journal_value is Some ==> expected_outcome(verdict, journal).valid,
{
}

} // verus!
