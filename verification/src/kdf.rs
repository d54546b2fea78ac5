use crate::curve::{
    agree, is_compressed, is_key_pair, is_public_point, is_secret_scalar, point_is_valid,
    public_point, scalar_is_valid, shared_x, x_of, SCALAR_LEN,
};
use crate::error::CipherError;
use crate::wipe::wipe;
use vstd::prelude::*;

verus! {

/// Length of the symmetric key, in bytes.
pub const KEY_LEN: usize = 32;

/// The longest output that HKDF with SHA-256 gives: 255 blocks of 32 bytes.
pub const MAX_OUTPUT_LEN: usize = 8160;

/// The output of HKDF with SHA-256 (extract, then expand) for a salt, a
/// 32-byte input secret, an info string and an output length, as
/// `k256::ecdh::SharedSecret::extract` and `hkdf::Hkdf::expand` compute it.
pub uninterp spec fn hkdf_sha256(
    salt: Option<Seq<u8>>,
    secret: Seq<u8>,
    info: Seq<u8>,
    len: nat,
) -> Seq<u8>;

/// An optional salt with its bytes taken as a sequence.
pub open spec fn salt_bytes(salt: Option<&[u8]>) -> Option<Seq<u8>> {
    match salt {
        Some(bytes) => Some(bytes@),
        None => None,
    }
}

/// The symmetric key that a secret scalar and a peer's point lead to: HKDF
/// without salt and with an empty info string, over the shared x-coordinate,
/// 32 bytes long.
pub open spec fn derived_key(scalar: Seq<u8>, point: Seq<u8>) -> Seq<u8> {
    hkdf_sha256(None, shared_x(scalar, point), Seq::empty(), KEY_LEN as nat)
}

/// The error of `hkdf::Hkdf::expand`, which holds nothing.
#[verifier::external_type_specification]
#[verifier::external_body]
pub struct ExInvalidLength(hkdf::InvalidLength);

/// Calls `k256::ecdh::SharedSecret::extract` with SHA-256 on the 32-byte
/// secret, then `hkdf::Hkdf::expand`, which fills the whole buffer with
/// output, and fails exactly when the buffer is longer than 255 blocks.
#[verifier::external_body]
pub(crate) fn extract_and_expand(
    salt: Option<&[u8]>,
    secret: &[u8],
    info: &[u8],
    okm: &mut Vec<u8>,
) -> (outcome: Result<(), hkdf::InvalidLength>)
    requires
        secret@.len() == SCALAR_LEN,
    ensures
        outcome is Ok <==> old(okm)@.len() <= MAX_OUTPUT_LEN,
        final(okm)@.len() == old(okm)@.len(),
        outcome is Ok ==> final(okm)@ == hkdf_sha256(
            salt_bytes(salt),
            secret@,
            info@,
            old(okm)@.len(),
        ),
{
    let shared = k256::ecdh::SharedSecret::from(k256::FieldBytes::clone_from_slice(secret));
    shared.extract::<sha2::Sha256>(salt).expand(info, okm.as_mut_slice())
}

/// Derives the 32-byte symmetric key from a local secret scalar and a
/// peer's public point: Diffie-Hellman, then HKDF-SHA-256 without salt and
/// with an empty info string. The shared x-coordinate is wiped before the
/// function returns.
///
/// The expansion cannot fail for a 32-byte key, so the result is always `Ok`.
/// Both sides of an exchange derive the same key: it is the key that any
/// scalar generating a point with the peer's x-coordinate derives from the
/// point that the local scalar generates.
pub fn derive_key(local_scalar: &[u8], peer_point: &[u8]) -> (key: Result<Vec<u8>, CipherError>)
    requires
        is_secret_scalar(local_scalar@),
        is_public_point(peer_point@),
    ensures
        key matches Ok(k) && k@ == derived_key(local_scalar@, peer_point@) && k@.len() == KEY_LEN,
        forall|peer: Seq<u8>|
            is_compressed(peer_point@) && is_key_pair(peer, x_of(peer_point@))
                ==> #[trigger] derived_key(peer, public_point(local_scalar@)) == key->Ok_0@,
{
    let mut shared = agree(local_scalar, peer_point);
    let info: [u8; 0] = [];
    let mut key: Vec<u8> = vec![0u8; KEY_LEN];
    let expanded = extract_and_expand(None, shared.as_slice(), info.as_slice(), &mut key);
    assert(info@ =~= Seq::<u8>::empty());
    wipe(&mut shared);
    match expanded {
        Ok(()) => Ok(key),
        Err(_) => {
            wipe(&mut key);
            Err(CipherError::KeyDerivationError)
        },
    }
}

/// Derives the symmetric key as `derive_key` does where the bytes are a
/// secret scalar and a public point, and gives `None` where they are not.
pub fn try_derive_key(local_scalar: &[u8], peer_point: &[u8]) -> (key: Option<Vec<u8>>)
    ensures
        key is Some <==> is_secret_scalar(local_scalar@) && is_public_point(peer_point@),
        key matches Some(k) ==> k@ == derived_key(local_scalar@, peer_point@) && k@.len()
            == KEY_LEN,
{
    if local_scalar.len() != SCALAR_LEN || !scalar_is_valid(local_scalar) {
        return None;
    }
    if !point_is_valid(peer_point) {
        return None;
    }
    match derive_key(local_scalar, peer_point) {
        Ok(key) => Some(key),
        Err(_) => None,
    }
}

} // verus!
