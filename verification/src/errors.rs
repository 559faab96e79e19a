//! The failure taxonomy of the text cryptography subsystem.

use vstd::prelude::*;

verus! {

/// Every operation of the subsystem fails with one of these distinct,
/// non-recoverable errors; none of them is retried, since cryptographic
/// failures are not transient.
#[derive(Clone, Copy, Debug, PartialEq, Eq, Structural)]
pub enum CryptoError {
    /// Malformed base64, or bytes that are not a valid text encoding.
    EncodingError,
    /// Key material shorter than required, or a decoded key, nonce or
    /// signature that does not have its fixed required length.
    KeyShapeError,
    /// The authenticated cipher's integrity tag did not verify: the
    /// ciphertext does not belong to the given key and nonce.
    AuthenticationError,
    /// An underlying cryptographic primitive reported failure outside the
    /// expected cases.
    CryptoError,
    /// The secure random source was unavailable.
    GenerationError,
}

impl CryptoError {
    /// A short description of the failure, in place of a `Display` impl.
    pub fn message(&self) -> (r: &'static str)
        ensures
            r@ == (match self {
                CryptoError::EncodingError => "invalid encoding"@,
                CryptoError::KeyShapeError => "key material has the wrong shape"@,
                CryptoError::AuthenticationError => "authentication failed"@,
                CryptoError::CryptoError => "cryptographic primitive failed"@,
                CryptoError::GenerationError => "secure random source unavailable"@,
            }),
    {
        match self {
            CryptoError::EncodingError => "invalid encoding",
            CryptoError::KeyShapeError => "key material has the wrong shape",
            CryptoError::AuthenticationError => "authentication failed",
            CryptoError::CryptoError => "cryptographic primitive failed",
            CryptoError::GenerationError => "secure random source unavailable",
        }
    }
}

} // verus!
