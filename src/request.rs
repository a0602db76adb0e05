//! The request pipeline shared by both transports: size admission, identity
//! decoding, verification, and the status each transport reports.

use vstd::prelude::*;
use vstd::string::StringSliceAdditionalSpecFns;
use crate::identity::{decode_identity, hex_decoded, is_hex_text, DecodeError};
use crate::verification::{expected_outcome, verify_receipt, VerificationOutcome};

verus! {

/// The largest whole request body, in bytes, that the synchronous transport
/// decodes.
pub const MAX_BODY_BYTES: usize = 5242880;

/// Why a request produced no verification outcome.
#[derive(Debug, Clone)]
pub enum RequestError {
    /// The identity text is not an even number of hexadecimal digits.
    HexFormat { length: usize },
    /// The identity decodes to the wrong number of bytes.
    Length { expected: usize, got: usize },
    /// The payload is not a well-formed request.
    Malformed { detail: String },
    /// The body is over the size ceiling; it was not decoded.
    TooLarge { size: usize, limit: usize },
    /// The chunk stream failed before it ended.
    Transport { detail: String },
    /// The verifier could not be run.
    Internal { detail: String },
}

/// Who is at fault for a failed or rejected request.
#[derive(Debug, Clone, Copy, PartialEq, Eq, Structural)]
pub enum FaultClass {
    /// The request was handled; the receipt was accepted.
    Accepted,
    /// The request was handled; the receipt was rejected.
    Rejected,
    /// The caller sent something that could not be handled.
    Client,
    /// The body was over the size ceiling.
    Oversized,
    /// The network or the server failed.
    Infrastructure,
}

/// The fault class of a request's result.
pub open spec fn fault_of(r: Result<VerificationOutcome, RequestError>) -> FaultClass {
    match r {
        Ok(o) => if o.valid {
            FaultClass::Accepted
        } else {
            FaultClass::Rejected
        },
        Err(RequestError::HexFormat { .. }) => FaultClass::Client,
        Err(RequestError::Length { .. }) => FaultClass::Client,
        Err(RequestError::Malformed { .. }) => FaultClass::Client,
        Err(RequestError::TooLarge { .. }) => FaultClass::Oversized,
        Err(RequestError::Transport { .. }) => FaultClass::Infrastructure,
        Err(RequestError::Internal { .. }) => FaultClass::Infrastructure,
    }
}

/// The error for an identity that did not decode.
pub fn identity_error(e: DecodeError) -> (r: RequestError)
    ensures
        match e {
            DecodeError::HexFormat { length } => r matches RequestError::HexFormat { length: l }
                && l == length,
            DecodeError::Length { expected, got } => r matches RequestError::Length {
                expected: x,
                got: g,
            } && x == expected && g == got,
        },
{
    match e {
        DecodeError::HexFormat { length } => RequestError::HexFormat { length },
        DecodeError::Length { expected, got } => RequestError::Length { expected, got },
    }
}

/// Whether a body of `size` bytes may be decoded under a ceiling of `limit`
/// bytes; one over it is refused before any byte of it is read.
pub fn admit_body(size: usize, limit: usize) -> (r: Result<(), RequestError>)
    ensures
        r is Ok <==> size <= limit,
        r matches Err(e) ==> e matches RequestError::TooLarge { size: s, limit: l } && s == size
            && l == limit,
{
    if size > limit {
        Err(RequestError::TooLarge { size, limit })
    } else {
        Ok(())
    }
}

/// Decodes the identity text and checks the receipt against it. An identity
/// that does not decode stops the request before the verifier is called; a
/// receipt that the verifier rejects is an outcome, not an error.
pub fn verify_request(image_id: &str, receipt: &risc0_zkvm::Receipt) -> (r: Result<
    VerificationOutcome,
    RequestError,
>)
    ensures
        !is_hex_text(image_id.spec_bytes()) ==> (r matches Err(RequestError::HexFormat { length })
            && length == image_id.spec_bytes().len()),
        is_hex_text(image_id.spec_bytes()) && hex_decoded(image_id.spec_bytes()).len() != 32
            ==> (r matches Err(RequestError::Length { expected, got }) && expected == 32 && got
            == hex_decoded(image_id.spec_bytes()).len()),
        is_hex_text(image_id.spec_bytes()) && hex_decoded(image_id.spec_bytes()).len() == 32
            ==> (r matches Ok(o) && exists|verdict: Result<(), Seq<char>>, journal: Seq<u8>|
            o@ == expected_outcome(verdict, journal)),
{
    match decode_identity(image_id) {
        Ok(id) => Ok(verify_receipt(&id, receipt)),
        Err(e) => Err(identity_error(e)),
    }
}

/// The fault class of a request's result, for a transport to report.
pub fn classify(r: &Result<VerificationOutcome, RequestError>) -> (c: FaultClass)
    ensures
        c == fault_of(*r),
{
    match r {
        Ok(o) => if o.valid {
            FaultClass::Accepted
        } else {
            FaultClass::Rejected
        },
        Err(RequestError::HexFormat { .. }) => FaultClass::Client,
        Err(RequestError::Length { .. }) => FaultClass::Client,
        Err(RequestError::Malformed { .. }) => FaultClass::Client,
        Err(RequestError::TooLarge { .. }) => FaultClass::Oversized,
        Err(RequestError::Transport { .. }) => FaultClass::Infrastructure,
        Err(RequestError::Internal { .. }) => FaultClass::Infrastructure,
    }
}

/// The HTTP status code of the synchronous transport: success for an
/// accepted receipt; a client error for a rejected receipt and for input that
/// could not be handled; a server error for infrastructure faults.
pub fn http_status(r: &Result<VerificationOutcome, RequestError>) -> (code: u16)
    ensures
        code == match fault_of(*r) {
            FaultClass::Accepted => 200u16,
            FaultClass::Rejected => 400u16,
            FaultClass::Client => 400u16,
            FaultClass::Oversized => 413u16,
            FaultClass::Infrastructure => 500u16,
        },
{
    match classify(r) {
        FaultClass::Accepted => 200,
        FaultClass::Rejected => 400,
        FaultClass::Client => 400,
        FaultClass::Oversized => 413,
        FaultClass::Infrastructure => 500,
    }
}

/// The status a streaming response reports.
#[derive(Debug, Clone, Copy, PartialEq, Eq, Structural)]
pub enum RpcCode {
    /// A response carrying the outcome, accepted or rejected.
    Answered,
    /// The caller's payload could not be handled.
    InvalidArgument,
    /// The payload was over the size ceiling.
    ResourceExhausted,
    /// The stream or the server failed.
    Internal,
}

/// The status of the streaming transport: every outcome, accepted or
/// rejected, is a response; only failures to produce one are errors.
pub fn rpc_code(r: &Result<VerificationOutcome, RequestError>) -> (code: RpcCode)
    ensures
        code == match fault_of(*r) {
            FaultClass::Accepted => RpcCode::Answered,
            FaultClass::Rejected => RpcCode::Answered,
            FaultClass::Client => RpcCode::InvalidArgument,
            FaultClass::Oversized => RpcCode::ResourceExhausted,
            FaultClass::Infrastructure => RpcCode::Internal,
        },
{
    match classify(r) {
        FaultClass::Accepted => RpcCode::Answered,
        FaultClass::Rejected => RpcCode::Answered,
        FaultClass::Client => RpcCode::InvalidArgument,
        FaultClass::Oversized => RpcCode::ResourceExhausted,
        FaultClass::Infrastructure => RpcCode::Internal,
    }
}

} // verus!
