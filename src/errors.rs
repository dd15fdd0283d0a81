use vstd::prelude::*;

verus! {

/// Status code handed back across the enclave boundary.
#[derive(Clone, Copy, Debug, PartialEq, Eq, Structural)]
pub enum StatusCode {
    Success,
    UnexpectedError,
}

/// Failure to open, read or write a file, on the sealed store or elsewhere.
#[derive(Clone, Copy, Debug, PartialEq, Eq, Structural)]
pub enum IoError {
    Open,
    Read,
    Write,
}

/// Failure to unseal the stored key record.
#[derive(Clone, Copy, Debug, PartialEq, Eq, Structural)]
pub enum SealError {
    /// No record is stored under the slot.
    NotFound,
    /// The record was sealed by another module identity.
    IdentityMismatch,
    /// The record does not have the sealed layout.
    Corrupted,
}

/// Failure to decode the textual key encoding.
#[derive(Clone, Copy, Debug, PartialEq, Eq, Structural)]
pub enum DecodeError {
    Malformed,
}

/// Failure of RSA decryption.
#[derive(Clone, Copy, Debug, PartialEq, Eq, Structural)]
pub enum CryptoError {
    /// The ciphertext is not exactly one key block long.
    InvalidLength,
    /// The block did not decrypt to validly padded plaintext.
    PaddingInvalid,
}

/// The recovered plaintext is not valid UTF-8.
#[derive(Clone, Copy, Debug, PartialEq, Eq, Structural)]
pub enum TextEncodingError {
    InvalidUtf8,
}

/// A failure of any stage of the decryption pipeline.
#[derive(Clone, Copy, Debug, PartialEq, Eq, Structural)]
pub enum PipelineError {
    Io(IoError),
    Seal(SealError),
    Decode(DecodeError),
    Crypto(CryptoError),
    Text(TextEncodingError),
}

/// The boundary status for the outcome of a stage: every failure collapses to
/// `UnexpectedError`.
pub open spec fn status_spec<T>(r: Result<T, PipelineError>) -> StatusCode {
    match r {
        Ok(_) => StatusCode::Success,
        Err(_) => StatusCode::UnexpectedError,
    }
}

/// Maps the outcome of a stage to the boundary status code.
pub fn status_of<T>(r: &Result<T, PipelineError>) -> (s: StatusCode)
    ensures
        s == status_spec(*r),
{
    match r {
        Ok(_) => StatusCode::Success,
        Err(_) => StatusCode::UnexpectedError,
    }
}

} // verus!
