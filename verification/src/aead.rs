use crate::error::CipherError;
use crate::kdf::KEY_LEN;
use chacha20poly1305::aead::{Aead, OsRng};
use chacha20poly1305::{AeadCore, KeyInit};
use vstd::prelude::*;

verus! {

/// Length of the nonce, in bytes.
pub const NONCE_LEN: usize = 12;

/// Length of the authentication tag, in bytes.
pub const TAG_LEN: usize = 16;

/// The number of 64-byte blocks from which on a plaintext is too long.
pub const MAX_BLOCKS: usize = 0xFFFF_FFFF;

/// The ciphertext with its tag that ChaCha20-Poly1305 gives for a key, a
/// nonce and a plaintext, without associated data, as
/// `chacha20poly1305::ChaCha20Poly1305::encrypt` computes it.
pub uninterp spec fn sealed(key: Seq<u8>, nonce: Seq<u8>, plaintext: Seq<u8>) -> Seq<u8>;

/// The plaintext that ChaCha20-Poly1305 releases for a key, a nonce and a
/// ciphertext with its tag, or `None` where the tag does not verify, as
/// `chacha20poly1305::ChaCha20Poly1305::decrypt` decides it.
pub uninterp spec fn opened(key: Seq<u8>, nonce: Seq<u8>, ciphertext: Seq<u8>) -> Option<Seq<u8>>;

/// Whether a plaintext is short enough to be encrypted.
pub open spec fn fits(plaintext: Seq<u8>) -> bool {
    plaintext.len() / 64 < MAX_BLOCKS
}

/// The error of `ChaCha20Poly1305::encrypt` and `decrypt`, which holds
/// nothing.
#[verifier::external_type_specification]
#[verifier::external_body]
pub struct ExAeadError(chacha20poly1305::Error);

/// Calls `ChaCha20Poly1305::generate_nonce` with the operating system's
/// random number generator. Whatever is drawn has 12 bytes.
#[verifier::external_body]
pub(crate) fn random_nonce() -> (nonce: Vec<u8>)
    ensures
        nonce@.len() == NONCE_LEN,
{
    chacha20poly1305::ChaCha20Poly1305::generate_nonce(&mut OsRng).to_vec()
}

/// Calls `ChaCha20Poly1305::new` and `encrypt`, which fails exactly when
/// the plaintext has too many blocks, and otherwise appends the 16-byte tag
/// to the encrypted text. What it gives, `decrypt` opens again under the same
/// key and nonce.
#[verifier::external_body]
pub(crate) fn seal(key: &[u8], nonce: &[u8], plaintext: &[u8]) -> (ciphertext: Result<
    Vec<u8>,
    chacha20poly1305::Error,
>)
    requires
        key@.len() == KEY_LEN,
        nonce@.len() == NONCE_LEN,
    ensures
        ciphertext is Ok <==> fits(plaintext@),
        ciphertext matches Ok(c) ==> {
            &&& c@ == sealed(key@, nonce@, plaintext@)
            &&& c@.len() == plaintext@.len() + TAG_LEN
            &&& opened(key@, nonce@, c@) == Some(plaintext@)
        },
{
    let cipher = chacha20poly1305::ChaCha20Poly1305::new(chacha20poly1305::Key::from_slice(key));
    cipher.encrypt(chacha20poly1305::Nonce::from_slice(nonce), plaintext)
}

/// Calls `ChaCha20Poly1305::new` and `decrypt`, which takes the last 16
/// bytes as the tag and releases the plaintext, as long as what stands
/// before the tag, only where the tag verifies.
#[verifier::external_body]
pub(crate) fn open(key: &[u8], nonce: &[u8], ciphertext: &[u8]) -> (plaintext: Result<
    Vec<u8>,
    chacha20poly1305::Error,
>)
    requires
        key@.len() == KEY_LEN,
        nonce@.len() == NONCE_LEN,
    ensures
        match plaintext {
            Ok(p) => opened(key@, nonce@, ciphertext@) == Some(p@) && p@.len() + TAG_LEN
                == ciphertext@.len(),
            Err(_) => opened(key@, nonce@, ciphertext@) is None,
        },
{
    let cipher = chacha20poly1305::ChaCha20Poly1305::new(chacha20poly1305::Key::from_slice(key));
    cipher.decrypt(chacha20poly1305::Nonce::from_slice(nonce), ciphertext)
}

/// A result with the bytes, if there are any, taken as a sequence.
pub open spec fn bytes_of(outcome: Result<Vec<u8>, CipherError>) -> Result<Seq<u8>, CipherError> {
    match outcome {
        Ok(bytes) => Ok(bytes@),
        Err(error) => Err(error),
    }
}

/// What encrypting a plaintext under a key and a nonce gives.
pub open spec fn encryption(key: Seq<u8>, nonce: Seq<u8>, plaintext: Seq<u8>) -> Result<
    Seq<u8>,
    CipherError,
> {
    if fits(plaintext) {
        Ok(sealed(key, nonce, plaintext))
    } else {
        Err(CipherError::EncryptionError)
    }
}

/// What decrypting a ciphertext under a key and a nonce gives.
pub open spec fn decryption(key: Seq<u8>, nonce: Seq<u8>, ciphertext: Seq<u8>) -> Result<
    Seq<u8>,
    CipherError,
> {
    match opened(key, nonce, ciphertext) {
        Some(plaintext) => Ok(plaintext),
        None => Err(CipherError::AuthenticationFailed),
    }
}

/// Encrypts a plaintext under a 32-byte key and a 12-byte nonce. The result
/// is the encrypted text followed by the 16-byte tag, and decrypts to the
/// plaintext under the same key and nonce.
pub fn aead_encrypt(key: &[u8], nonce: &[u8], plaintext: &[u8]) -> (ciphertext: Result<
    Vec<u8>,
    CipherError,
>)
    requires
        key@.len() == KEY_LEN,
        nonce@.len() == NONCE_LEN,
    ensures
        bytes_of(ciphertext) == encryption(key@, nonce@, plaintext@),
        ciphertext matches Ok(c) ==> {
            &&& c@.len() == plaintext@.len() + TAG_LEN
            &&& decryption(key@, nonce@, c@) == Ok::<Seq<u8>, CipherError>(plaintext@)
        },
{
    match seal(key, nonce, plaintext) {
        Ok(ciphertext) => Ok(ciphertext),
        Err(_) => Err(CipherError::EncryptionError),
    }
}

/// Decrypts a ciphertext under a 32-byte key and a 12-byte nonce. No byte
/// of plaintext is returned unless the tag verifies.
pub fn aead_decrypt(key: &[u8], nonce: &[u8], ciphertext: &[u8]) -> (plaintext: Result<
    Vec<u8>,
    CipherError,
>)
    requires
        key@.len() == KEY_LEN,
        nonce@.len() == NONCE_LEN,
    ensures
        bytes_of(plaintext) == decryption(key@, nonce@, ciphertext@),
        plaintext matches Ok(p) ==> p@.len() + TAG_LEN == ciphertext@.len(),
{
    match open(key, nonce, ciphertext) {
        Ok(plaintext) => Ok(plaintext),
        Err(_) => Err(CipherError::AuthenticationFailed),
    }
}

} // verus!
