//! Public-key message encryption: an ephemeral Diffie-Hellman exchange on
//! secp256k1, HKDF-SHA-256 key derivation and ChaCha20-Poly1305, with a
//! fixed-offset wire format for the encrypted envelope.

pub mod aead;
pub mod curve;
pub mod envelope;
pub mod error;
pub mod hex_text;
pub mod kdf;
pub mod keys;
pub mod text;
pub mod wipe;

use crate::aead::{
    aead_decrypt, aead_encrypt, decryption, encryption, fits, opened, random_nonce, NONCE_LEN,
    TAG_LEN,
};
use crate::curve::{
    is_compressed, is_key_pair, is_public_point, is_secret_scalar, public_point, x_of,
};
use crate::envelope::{envelope_of, EncryptedMessage, Envelope};
use crate::error::CipherError;
use crate::kdf::{derived_key, try_derive_key};
use crate::keys::{normalize_recipient_key, normalized, EphemeralKeyPair};
use crate::text::text_from_utf8;
use crate::wipe::wipe;
use vstd::prelude::*;
use vstd::utf8::{
    decode_utf8, decode_utf8_encode_utf8, encode_utf8, encode_utf8_decode_utf8,
    encode_utf8_valid_utf8, valid_utf8,
};

verus! {

/// Why a text cannot be encrypted to a recipient, or `None` where it can:
/// the recipient's x-coordinate is that of no point, or the text is too long.
pub open spec fn refusal(recipient_x: Seq<u8>, text: Seq<char>) -> Option<CipherError> {
    if normalized(recipient_x) is Err {
        Some(CipherError::InvalidRecipientKey)
    } else if !fits(encode_utf8(text)) {
        Some(CipherError::EncryptionError)
    } else {
        None
    }
}

/// The envelope that encrypting a text to a recipient gives with a given
/// single-use secret scalar and nonce.
pub open spec fn encrypted(
    recipient_x: Seq<u8>,
    text: Seq<char>,
    scalar: Seq<u8>,
    nonce: Seq<u8>,
) -> Result<Envelope, CipherError> {
    match normalized(recipient_x) {
        Err(error) => Err(error),
        Ok(recipient) => match encryption(
            derived_key(scalar, recipient),
            nonce,
            encode_utf8(text),
        ) {
            Err(error) => Err(error),
            Ok(ciphertext) => Ok(
                Envelope { nonce, ephemeral_public_key: public_point(scalar), ciphertext },
            ),
        },
    }
}

/// The text that an envelope holds for the owner of a secret scalar.
pub open spec fn decrypted(envelope: Envelope, scalar: Seq<u8>) -> Result<Seq<char>, CipherError> {
    if !is_secret_scalar(scalar) || !is_public_point(envelope.ephemeral_public_key)
        || envelope.nonce.len() != NONCE_LEN {
        Err(CipherError::AuthenticationFailed)
    } else {
        match decryption(
            derived_key(scalar, envelope.ephemeral_public_key),
            envelope.nonce,
            envelope.ciphertext,
        ) {
            Err(error) => Err(error),
            Ok(plaintext) => if valid_utf8(plaintext) {
                Ok(decode_utf8(plaintext))
            } else {
                Err(CipherError::Utf8DecodingError)
            },
        }
    }
}

/// A result with the text, if there is one, taken as a sequence of
/// characters.
pub open spec fn text_of(outcome: Result<String, CipherError>) -> Result<Seq<char>, CipherError> {
    match outcome {
        Ok(text) => Ok(text@),
        Err(error) => Err(error),
    }
}

/// Encrypts a text to a public point with a given single-use key pair and
/// a given nonce, and wipes the pair's secret and the symmetric key.
fn seal_to(recipient: &[u8], message: &str, ephemeral: EphemeralKeyPair, nonce: &[u8]) -> (result:
    Result<EncryptedMessage, CipherError>)
    requires
        is_public_point(recipient@),
        is_compressed(recipient@),
        nonce@.len() == NONCE_LEN,
    ensures
        match encryption(
            derived_key(ephemeral.secret_scalar(), recipient@),
            nonce@,
            encode_utf8(message@),
        ) {
            Ok(ciphertext) => envelope_of(result) == Ok::<Envelope, CipherError>(
                Envelope {
                    nonce: nonce@,
                    ephemeral_public_key: public_point(ephemeral.secret_scalar()),
                    ciphertext,
                },
            ),
            Err(error) => envelope_of(result) == Err::<Envelope, CipherError>(error),
        },
        result matches Ok(m) ==> m@.well_formed(),
        result matches Ok(m) ==> m@.ciphertext.len() == encode_utf8(message@).len() + TAG_LEN,
        result matches Ok(m) ==> is_compressed(m@.ephemeral_public_key) && is_public_point(
            m@.ephemeral_public_key,
        ),
        result matches Ok(m) ==> forall|secret: Seq<u8>|
            is_key_pair(secret, x_of(recipient@)) ==> #[trigger] decrypted(m@, secret) == Ok::<
                Seq<char>,
                CipherError,
            >(message@),
{
    let public = ephemeral.public_key_bytes();
    let mut key = match ephemeral.derive_key(recipient) {
        Ok(key) => key,
        Err(error) => {
            return Err(error);
        },
    };
    let ghost key_bytes = key@;
    let sealed = aead_encrypt(key.as_slice(), nonce, message.as_bytes());
    wipe(&mut key);
    match sealed {
        Ok(ciphertext) => {
            let result = EncryptedMessage::new(ciphertext.as_slice(), nonce, public.as_slice());
            proof {
                encode_utf8_valid_utf8(message@);
                encode_utf8_decode_utf8(message@);
                assert forall|secret: Seq<u8>|
                    is_key_pair(secret, x_of(recipient@)) implies #[trigger] decrypted(
                    result@,
                    secret,
                ) == Ok::<Seq<char>, CipherError>(message@) by {
                    assert(derived_key(secret, ephemeral.public_key()) == key_bytes);
                }
            }
            Ok(result)
        },
        Err(error) => Err(error),
    }
}

/// Encrypts a text to a recipient with a given single-use key pair and a
/// given 12-byte nonce. The key pair is consumed and its secret wiped.
///
/// Whoever holds a secret scalar that generates a point with the
/// recipient's x-coordinate decrypts the result to the text.
pub fn encrypt_with(
    recipient_public_key: &[u8],
    message: &str,
    ephemeral: EphemeralKeyPair,
    nonce: &[u8],
) -> (result: Result<EncryptedMessage, CipherError>)
    requires
        nonce@.len() == NONCE_LEN,
    ensures
        envelope_of(result) == encrypted(
            recipient_public_key@,
            message@,
            ephemeral.secret_scalar(),
            nonce@,
        ),
        result matches Ok(m) ==> m@.well_formed(),
        result matches Ok(m) ==> m@.ciphertext.len() == encode_utf8(message@).len() + TAG_LEN,
        result matches Ok(m) ==> is_compressed(m@.ephemeral_public_key) && is_public_point(
            m@.ephemeral_public_key,
        ),
        result matches Ok(m) ==> forall|secret: Seq<u8>|
            is_key_pair(secret, recipient_public_key@) ==> #[trigger] decrypted(m@, secret) == Ok::<
                Seq<char>,
                CipherError,
            >(message@),
{
    match normalize_recipient_key(recipient_public_key) {
        Ok(recipient) => seal_to(recipient.as_slice(), message, ephemeral, nonce),
        Err(error) => {
            ephemeral.discard();
            Err(error)
        },
    }
}

/// Encrypts a text to the recipient whose public key has the given 32-byte
/// x-coordinate, with a fresh key pair and a fresh nonce.
///
/// The call fails only for an x-coordinate of no point or a text too long to
/// encrypt. What it returns is the encryption of the text under some secret
/// scalar and the nonce in the result, and whoever holds a secret scalar that
/// generates a point with the recipient's x-coordinate decrypts it to the
/// text.
pub fn encrypt_message(recipient_public_key: &[u8], message: &str) -> (result: Result<
    EncryptedMessage,
    CipherError,
>)
    ensures
        match result {
            Ok(m) => refusal(recipient_public_key@, message@) is None,
            Err(error) => refusal(recipient_public_key@, message@) == Some(error),
        },
        result matches Ok(m) ==> m@.well_formed(),
        result matches Ok(m) ==> m@.ciphertext.len() == encode_utf8(message@).len() + TAG_LEN,
        result matches Ok(m) ==> is_compressed(m@.ephemeral_public_key) && is_public_point(
            m@.ephemeral_public_key,
        ),
        result matches Ok(m) ==> exists|scalar: Seq<u8>|
            is_secret_scalar(scalar) && #[trigger] encrypted(
                recipient_public_key@,
                message@,
                scalar,
                m@.nonce,
            ) == Ok::<Envelope, CipherError>(m@),
        result matches Ok(m) ==> forall|secret: Seq<u8>|
            is_key_pair(secret, recipient_public_key@) ==> #[trigger] decrypted(m@, secret) == Ok::<
                Seq<char>,
                CipherError,
            >(message@),
{
    let recipient = match normalize_recipient_key(recipient_public_key) {
        Ok(recipient) => recipient,
        Err(error) => {
            return Err(error);
        },
    };
    let ephemeral = EphemeralKeyPair::generate();
    let nonce = random_nonce();
    let result = seal_to(recipient.as_slice(), message, ephemeral, nonce.as_slice());
    proof {
        if result is Ok {
            let envelope = result->Ok_0@;
            assert(encrypted(
                recipient_public_key@,
                message@,
                ephemeral.secret_scalar(),
                envelope.nonce,
            ) == Ok::<Envelope, CipherError>(envelope));
        }
    }
    result
}

/// Decrypts a message with the recipient's 32-byte secret scalar.
///
/// Bytes that are no secret scalar, a key field that holds no point, a nonce
/// of another length than 12 and a tag that does not verify all give
/// `AuthenticationFailed`, as does every ciphertext too short to end in a
/// tag; plaintext that is not UTF-8 gives `Utf8DecodingError`.
pub fn decrypt_message(encrypted_message: EncryptedMessage, recipient_secret_scalar: &[u8]) -> (result:
    Result<String, CipherError>)
    ensures
        text_of(result) == decrypted(encrypted_message@, recipient_secret_scalar@),
        result matches Err(error) ==> error == CipherError::AuthenticationFailed || error
            == CipherError::Utf8DecodingError,
        result matches Ok(text) ==> encode_utf8(text@).len() + TAG_LEN
            == encrypted_message@.ciphertext.len(),
        encrypted_message@.ciphertext.len() < TAG_LEN ==> result matches Err(
            CipherError::AuthenticationFailed,
        ),
{
    if encrypted_message.nonce.len() != NONCE_LEN {
        return Err(CipherError::AuthenticationFailed);
    }
    let mut key = match try_derive_key(
        recipient_secret_scalar,
        encrypted_message.ephemeral_public_key.as_slice(),
    ) {
        Some(key) => key,
        None => {
            return Err(CipherError::AuthenticationFailed);
        },
    };
    let opened = aead_decrypt(
        key.as_slice(),
        encrypted_message.nonce.as_slice(),
        encrypted_message.ciphertext.as_slice(),
    );
    wipe(&mut key);
    match opened {
        Ok(plaintext) => {
            match text_from_utf8(plaintext) {
                Ok(text) => {
                    proof {
                        encode_utf8_decode_utf8(text@);
                    }
                    Ok(text)
                },
                Err(_) => Err(CipherError::Utf8DecodingError),
            }
        },
        Err(error) => Err(error),
    }
}

/// Decryption releases no text but the one whose UTF-8 bytes the
/// ciphertext opens to, under the key that the secret scalar and the key
/// field of the envelope lead to.
pub proof fn lemma_released_text_was_sealed(envelope: Envelope, scalar: Seq<u8>)
    requires
        decrypted(envelope, scalar) is Ok,
    ensures
        opened(
            derived_key(scalar, envelope.ephemeral_public_key),
            envelope.nonce,
            envelope.ciphertext,
        ) == Some(encode_utf8(decrypted(envelope, scalar)->Ok_0)),
{
    let plaintext = opened(
        derived_key(scalar, envelope.ephemeral_public_key),
        envelope.nonce,
        envelope.ciphertext,
    )->Some_0;
    decode_utf8_encode_utf8(plaintext);
}

} // verus!
