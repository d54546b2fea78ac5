use crate::aead::{NONCE_LEN, TAG_LEN};
use crate::curve::POINT_LEN;
use crate::error::CipherError;
use crate::hex_text::{decode, encode, hex_decoding, hex_encoding, is_hex, lemma_hex_round_trip};
use vstd::prelude::*;
use vstd::slice::slice_to_vec;

verus! {

/// Length of the header of the serialized form, the nonce and the key: the
/// offset at which the ciphertext starts.
pub const HEADER_LEN: usize = 45;

/// An encrypted message: the nonce, the sender's single-use public key and
/// the ciphertext with its trailing authentication tag.
#[derive(Clone, Debug, PartialEq, Eq)]
pub struct EncryptedMessage {
    /// 12 bytes in a message that `encrypt_message` made.
    pub nonce: Vec<u8>,
    /// 33 bytes, a compressed point, in a message that `encrypt_message` made.
    pub ephemeral_public_key: Vec<u8>,
    /// The encrypted text followed by the 16-byte tag.
    pub ciphertext: Vec<u8>,
}

/// The three fields of an `EncryptedMessage` as sequences of bytes.
pub struct Envelope {
    pub nonce: Seq<u8>,
    pub ephemeral_public_key: Seq<u8>,
    pub ciphertext: Seq<u8>,
}

impl Envelope {
    /// The field lengths of a message that encryption produces.
    pub open spec fn well_formed(self) -> bool {
        &&& self.nonce.len() == NONCE_LEN
        &&& self.ephemeral_public_key.len() == POINT_LEN
        &&& self.ciphertext.len() >= TAG_LEN
    }

    /// The serialized form: nonce, then key, then ciphertext.
    pub open spec fn to_bytes(self) -> Seq<u8> {
        self.nonce + self.ephemeral_public_key + self.ciphertext
    }

    /// Whether a buffer is long enough to be cut into an envelope: the
    /// 45-byte header and at least a tag.
    pub open spec fn accepts(bytes: Seq<u8>) -> bool {
        bytes.len() >= HEADER_LEN + TAG_LEN
    }

    /// The envelope cut from a buffer at the fixed offsets 12 and 45.
    pub open spec fn cut(bytes: Seq<u8>) -> Envelope {
        Envelope {
            nonce: bytes.subrange(0, NONCE_LEN as int),
            ephemeral_public_key: bytes.subrange(NONCE_LEN as int, HEADER_LEN as int),
            ciphertext: bytes.subrange(HEADER_LEN as int, bytes.len() as int),
        }
    }

    /// The envelope that a buffer holds, or why it holds none.
    pub open spec fn from_bytes(bytes: Seq<u8>) -> Result<Envelope, CipherError> {
        if Self::accepts(bytes) {
            Ok(Self::cut(bytes))
        } else {
            Err(CipherError::MalformedMessage)
        }
    }

    /// The serialized form in lowercase hexadecimal.
    pub open spec fn to_hex(self) -> Seq<char> {
        hex_encoding(self.to_bytes())
    }

    /// The envelope that a hexadecimal text holds, or why it holds none.
    pub open spec fn from_hex(text: Seq<char>) -> Result<Envelope, CipherError> {
        if is_hex(text) {
            Self::from_bytes(hex_decoding(text))
        } else {
            Err(CipherError::InvalidEncoding)
        }
    }
}

/// A result with the message, if there is one, taken by its view.
pub open spec fn envelope_of(
    outcome: Result<EncryptedMessage, CipherError>,
) -> Result<Envelope, CipherError> {
    match outcome {
        Ok(message) => Ok(message@),
        Err(error) => Err(error),
    }
}

impl View for EncryptedMessage {
    type V = Envelope;

    open spec fn view(&self) -> Envelope {
        Envelope {
            nonce: self.nonce@,
            ephemeral_public_key: self.ephemeral_public_key@,
            ciphertext: self.ciphertext@,
        }
    }
}

impl EncryptedMessage {
    /// Builds a message from copies of its three fields, whatever their lengths.
    pub fn new(ciphertext: &[u8], nonce: &[u8], ephemeral_public_key: &[u8]) -> (message: Self)
        ensures
            message@.ciphertext == ciphertext@,
            message@.nonce == nonce@,
            message@.ephemeral_public_key == ephemeral_public_key@,
    {
        Self {
            ciphertext: slice_to_vec(ciphertext),
            nonce: slice_to_vec(nonce),
            ephemeral_public_key: slice_to_vec(ephemeral_public_key),
        }
    }

    /// Serializes the message: nonce, then key, then ciphertext.
    pub fn to_bytes(&self) -> (bytes: Vec<u8>)
        ensures
            bytes@ == self@.to_bytes(),
            self@.well_formed() ==> bytes@.len() == NONCE_LEN + POINT_LEN
                + self@.ciphertext.len(),
    {
        let mut bytes: Vec<u8> = Vec::new();
        bytes.extend_from_slice(self.nonce.as_slice());
        bytes.extend_from_slice(self.ephemeral_public_key.as_slice());
        bytes.extend_from_slice(self.ciphertext.as_slice());
        assert(bytes@ =~= self@.to_bytes());
        bytes
    }

    /// Cuts a buffer at the fixed offsets: bytes 0 to 11 are the nonce, bytes
    /// 12 to 44 the key, and the rest the ciphertext. A buffer too short to
    /// hold the 45-byte header and a 16-byte tag is refused. What is returned
    /// is well-formed and serializes to the buffer.
    pub fn from_bytes(bytes: &[u8]) -> (message: Result<Self, CipherError>)
        ensures
            envelope_of(message) == Envelope::from_bytes(bytes@),
            bytes@.len() < HEADER_LEN ==> message matches Err(CipherError::MalformedMessage),
            message matches Ok(m) ==> m@.well_formed() && m@.to_bytes() == bytes@,
    {
        proof {
            if Envelope::accepts(bytes@) {
                lemma_cut_then_serialize(bytes@);
            }
        }
        if bytes.len() < HEADER_LEN + TAG_LEN {
            return Err(CipherError::MalformedMessage);
        }
        Ok(
            Self {
                nonce: slice_to_vec(&bytes[0..NONCE_LEN]),
                ephemeral_public_key: slice_to_vec(&bytes[NONCE_LEN..HEADER_LEN]),
                ciphertext: slice_to_vec(&bytes[HEADER_LEN..bytes.len()]),
            },
        )
    }

    /// The serialized form in lowercase hexadecimal.
    pub fn to_hex(&self) -> (text: String)
        ensures
            text@ == self@.to_hex(),
    {
        let bytes = self.to_bytes();
        encode(bytes.as_slice())
    }

    /// Reads a message from hexadecimal text, small or capital. Text that is
    /// not hexadecimal gives `InvalidEncoding`; the decoded bytes are then
    /// cut as `from_bytes` cuts them.
    pub fn from_hex(text: &str) -> (message: Result<Self, CipherError>)
        ensures
            envelope_of(message) == Envelope::from_hex(text@),
            message matches Ok(m) ==> m@.well_formed() && m@.to_bytes() == hex_decoding(text@),
    {
        match decode(text) {
            Ok(bytes) => Self::from_bytes(bytes.as_slice()),
            Err(_) => Err(CipherError::InvalidEncoding),
        }
    }
}

/// What is cut from a buffer long enough is well-formed, and serializing it
/// gives the buffer back.
pub proof fn lemma_cut_then_serialize(bytes: Seq<u8>)
    requires
        Envelope::accepts(bytes),
    ensures
        Envelope::cut(bytes).well_formed(),
        Envelope::cut(bytes).to_bytes() == bytes,
{
    assert(Envelope::cut(bytes).to_bytes() =~= bytes);
}

/// Cutting the serialized form of a well-formed envelope gives the envelope
/// back.
pub proof fn lemma_serialize_then_cut(envelope: Envelope)
    requires
        envelope.well_formed(),
    ensures
        Envelope::from_bytes(envelope.to_bytes()) == Ok::<Envelope, CipherError>(envelope),
{
    let cut = Envelope::cut(envelope.to_bytes());
    assert(cut.nonce =~= envelope.nonce);
    assert(cut.ephemeral_public_key =~= envelope.ephemeral_public_key);
    assert(cut.ciphertext =~= envelope.ciphertext);
}

/// Reading the hexadecimal form of an envelope gives what cutting its
/// serialized form gives.
pub proof fn lemma_hex_then_read(envelope: Envelope)
    ensures
        Envelope::from_hex(envelope.to_hex()) == Envelope::from_bytes(envelope.to_bytes()),
{
    lemma_hex_round_trip(envelope.to_bytes());
}

/// Reading the hexadecimal form of a well-formed envelope gives the envelope
/// back.
pub proof fn lemma_hex_round_trip_of_envelope(envelope: Envelope)
    requires
        envelope.well_formed(),
    ensures
        Envelope::from_hex(envelope.to_hex()) == Ok::<Envelope, CipherError>(envelope),
{
    lemma_hex_then_read(envelope);
    lemma_serialize_then_cut(envelope);
}

} // verus!
