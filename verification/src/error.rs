use vstd::prelude::*;

verus! {

/// Why an operation of this library failed.
#[derive(Clone, Copy, Debug, PartialEq, Eq, Structural)]
pub enum CipherError {
    /// The recipient's x-coordinate is not that of a point on the curve.
    InvalidRecipientKey,
    /// The key-derivation expansion step failed.
    KeyDerivationError,
    /// Authenticated encryption failed.
    EncryptionError,
    /// The authentication tag did not verify.
    AuthenticationFailed,
    /// The byte buffer is too short to hold an envelope.
    MalformedMessage,
    /// The text is not hexadecimal.
    InvalidEncoding,
    /// The decrypted bytes are not UTF-8 text.
    Utf8DecodingError,
}

} // verus!
