use crate::aead::bytes_of;
use crate::curve::{
    even_point, is_compressed, is_key_pair, is_public_point, is_secret_scalar, is_x_coordinate,
    point_is_valid, point_with_x, public_point, public_point_of, random_scalar, scalar_is_valid,
    x_of, SCALAR_LEN,
};
use crate::error::CipherError;
use crate::kdf::{derive_key, derived_key, KEY_LEN};
use crate::wipe::wipe;
use vstd::prelude::*;
use vstd::slice::slice_to_vec;

verus! {

/// The full public key that a recipient's x-coordinate stands for: the
/// compressed point with that x-coordinate and an even y-coordinate, or
/// `InvalidRecipientKey` where there is no such point.
pub open spec fn normalized(x: Seq<u8>) -> Result<Seq<u8>, CipherError> {
    if is_x_coordinate(x) && is_public_point(even_point(x)) {
        Ok(even_point(x))
    } else {
        Err(CipherError::InvalidRecipientKey)
    }
}

/// Turns a recipient's 32-byte x-coordinate into the 33-byte compressed
/// public key with an even y-coordinate.
pub fn normalize_recipient_key(x: &[u8]) -> (point: Result<Vec<u8>, CipherError>)
    ensures
        bytes_of(point) == normalized(x@),
        point matches Ok(p) ==> is_compressed(p@) && is_public_point(p@) && x_of(p@) == x@,
{
    match point_with_x(x, 0) {
        Ok(point) => {
            assert(point@ =~= even_point(x@));
            assert(x_of(point@) =~= x@);
            if point_is_valid(point.as_slice()) {
                Ok(point)
            } else {
                Err(CipherError::InvalidRecipientKey)
            }
        },
        Err(_) => Err(CipherError::InvalidRecipientKey),
    }
}

/// A secret scalar with the point that it generates, made for one
/// encryption. The pair cannot be copied, and deriving a key consumes it.
pub struct EphemeralKeyPair {
    secret: Vec<u8>,
    public: Vec<u8>,
}

impl EphemeralKeyPair {
    /// The secret scalar, 32 bytes.
    pub closed spec fn secret_scalar(self) -> Seq<u8> {
        self.secret@
    }

    /// The compressed public point, 33 bytes.
    pub closed spec fn public_key(self) -> Seq<u8> {
        self.public@
    }

    /// The scalar is a secret scalar and the point is the one it generates.
    #[verifier::type_invariant]
    pub open spec fn well_formed(self) -> bool {
        &&& is_secret_scalar(self.secret_scalar())
        &&& self.public_key() == public_point(self.secret_scalar())
        &&& is_compressed(self.public_key())
        &&& is_public_point(self.public_key())
    }

    /// Draws a fresh secret scalar from the operating system's random number
    /// generator and computes its public point.
    pub fn generate() -> (pair: Self)
        ensures
            pair.well_formed(),
    {
        let secret = random_scalar();
        let public = public_point_of(secret.as_slice());
        EphemeralKeyPair { secret, public }
    }

    /// The pair of a given secret scalar, or `None` where the bytes are no
    /// secret scalar.
    pub fn from_scalar(scalar: &[u8]) -> (pair: Option<Self>)
        ensures
            pair is Some <==> is_secret_scalar(scalar@),
            pair matches Some(p) ==> p.well_formed() && p.secret_scalar() == scalar@,
    {
        if scalar.len() != SCALAR_LEN || !scalar_is_valid(scalar) {
            return None;
        }
        let secret = slice_to_vec(scalar);
        let public = public_point_of(secret.as_slice());
        Some(EphemeralKeyPair { secret, public })
    }

    /// A copy of the compressed public point.
    pub fn public_key_bytes(&self) -> (point: Vec<u8>)
        ensures
            point@ == self.public_key(),
            self.well_formed(),
    {
        proof {
            use_type_invariant(self);
        }
        slice_to_vec(self.public.as_slice())
    }

    /// Wipes the secret scalar of a pair that will not be used.
    pub fn discard(self) {
        let mut secret = self.secret;
        wipe(&mut secret);
    }

    /// Derives the symmetric key shared with the holder of `peer_point` and
    /// wipes the secret scalar. The key is the one that any scalar
    /// generating a point with the peer's x-coordinate derives from this
    /// pair's public point.
    pub fn derive_key(self, peer_point: &[u8]) -> (key: Result<Vec<u8>, CipherError>)
        requires
            is_public_point(peer_point@),
        ensures
            key matches Ok(k) && k@ == derived_key(self.secret_scalar(), peer_point@) && k@.len()
                == KEY_LEN,
            forall|peer: Seq<u8>|
                is_compressed(peer_point@) && is_key_pair(peer, x_of(peer_point@))
                    ==> #[trigger] derived_key(peer, self.public_key()) == key->Ok_0@,
    {
        proof {
            use_type_invariant(&self);
        }
        let mut secret = self.secret;
        let key = derive_key(secret.as_slice(), peer_point);
        wipe(&mut secret);
        key
    }
}

} // verus!
