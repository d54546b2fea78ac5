use chacha20poly1305::aead::OsRng;
use vstd::prelude::*;

verus! {

/// Length of a secret scalar and of a coordinate, in bytes.
pub const SCALAR_LEN: usize = 32;

/// Length of a compressed point, in bytes.
pub const POINT_LEN: usize = 33;

/// The number that bytes stand for, most significant byte first.
pub open spec fn big_endian(bytes: Seq<u8>) -> nat
    decreases bytes.len(),
{
    if bytes.len() == 0 {
        0
    } else {
        256 * big_endian(bytes.drop_last()) + bytes.last() as nat
    }
}

/// The order of the secp256k1 group.
pub open spec fn group_order() -> nat {
    0xFFFFFFFF_FFFFFFFF_FFFFFFFF_FFFFFFFE_BAAEDCE6_AF48A03B_BFD25E8C_D0364141nat
}

/// Whether bytes are a secret scalar: 32 bytes that stand for a number
/// above zero and below the group order.
pub open spec fn is_secret_scalar(bytes: Seq<u8>) -> bool {
    &&& bytes.len() == SCALAR_LEN
    &&& 0 < big_endian(bytes) < group_order()
}

/// The prime of the field over which secp256k1 is defined.
pub open spec fn field_prime() -> nat {
    0xFFFFFFFF_FFFFFFFF_FFFFFFFF_FFFFFFFF_FFFFFFFF_FFFFFFFF_FFFFFFFE_FFFFFC2Fnat
}

/// Whether `root` is a field element whose square is `value` in the field.
pub open spec fn squares_to(root: nat, value: nat) -> bool {
    &&& root < field_prime()
    &&& (root * root) % field_prime() == value % field_prime()
}

/// The right-hand side of the curve equation `y * y == x * x * x + 7`.
pub open spec fn curve_value(x: nat) -> nat {
    x * x * x + 7
}

/// Whether the curve has a point with the given x: some field element
/// squares to the right-hand side of the curve equation.
pub open spec fn has_point_at(x: nat) -> bool {
    exists|y: nat| #[trigger] squares_to(y, curve_value(x))
}

/// Whether bytes are the x-coordinate of a point on the curve: 32 bytes
/// that stand for a number below the field prime at which the curve has a
/// point.
pub open spec fn is_x_coordinate(bytes: Seq<u8>) -> bool {
    &&& bytes.len() == SCALAR_LEN
    &&& big_endian(bytes) < field_prime()
    &&& has_point_at(big_endian(bytes))
}

/// Whether bytes are the SEC1 encoding of a point that can serve as a public
/// key, as `k256::PublicKey::from_sec1_bytes` decides it.
pub uninterp spec fn is_public_point(bytes: Seq<u8>) -> bool;

/// The compressed encoding of the point that a secret scalar generates, as
/// `k256::SecretKey::public_key` computes it.
pub uninterp spec fn public_point(scalar: Seq<u8>) -> Seq<u8>;

/// The x-coordinate of the product of a secret scalar and a point, as
/// `k256::ecdh::diffie_hellman` computes it.
pub uninterp spec fn shared_x(scalar: Seq<u8>, point: Seq<u8>) -> Seq<u8>;

/// Whether bytes have the shape of a compressed point: a parity byte, 2 for
/// an even and 3 for an odd y-coordinate, and 32 more bytes.
pub open spec fn is_compressed(point: Seq<u8>) -> bool {
    &&& point.len() == POINT_LEN
    &&& (point[0] == 2 || point[0] == 3)
}

/// The x-coordinate that a compressed point carries after its parity byte.
pub open spec fn x_of(point: Seq<u8>) -> Seq<u8> {
    point.subrange(1, POINT_LEN as int)
}

/// The compressed point with the given x-coordinate and an even y-coordinate.
pub open spec fn even_point(x: Seq<u8>) -> Seq<u8> {
    seq![2u8] + x
}

/// Whether a secret scalar and an x-coordinate belong together: the scalar
/// generates a point with that x-coordinate.
pub open spec fn is_key_pair(scalar: Seq<u8>, x: Seq<u8>) -> bool {
    &&& is_secret_scalar(scalar)
    &&& x_of(public_point(scalar)) == x
}

/// The error of the `secp256k1` crate, of which nothing is read here.
#[verifier::external_type_specification]
#[verifier::external_body]
pub struct ExSecpError(secp256k1::Error);

/// Calls `secp256k1::XOnlyPublicKey::from_slice`, then
/// `secp256k1::PublicKey::from_x_only_public_key` and `serialize`. The first
/// accepts 32 bytes that stand for a number below the field prime whose cube
/// plus 7 has a square root in the field, and refuses all else; the others
/// put the byte 2 or 3, by the parity asked for, before the x-coordinate.
#[verifier::external_body]
pub(crate) fn point_with_x(x: &[u8], parity: u8) -> (point: Result<Vec<u8>, secp256k1::Error>)
    requires
        parity <= 1,
    ensures
        point is Ok <==> is_x_coordinate(x@),
        point matches Ok(p) ==> p@ == seq![(2 + parity) as u8] + x@,
{
    let key = secp256k1::XOnlyPublicKey::from_slice(x)?;
    let parity = secp256k1::Parity::from_u8(parity).unwrap();
    Ok(secp256k1::PublicKey::from_x_only_public_key(key, parity).serialize().to_vec())
}

/// Calls `k256::SecretKey::from_slice` on 32 bytes, which accepts them when
/// the number they stand for is above zero and below the group order.
#[verifier::external_body]
pub(crate) fn scalar_is_valid(bytes: &[u8]) -> (valid: bool)
    requires
        bytes@.len() == SCALAR_LEN,
    ensures
        valid == is_secret_scalar(bytes@),
{
    k256::SecretKey::from_slice(bytes).is_ok()
}

/// Calls `k256::PublicKey::from_sec1_bytes` and says whether it accepted the
/// bytes.
#[verifier::external_body]
pub(crate) fn point_is_valid(bytes: &[u8]) -> (valid: bool)
    ensures
        valid == is_public_point(bytes@),
{
    k256::PublicKey::from_sec1_bytes(bytes).is_ok()
}

/// Calls `k256::NonZeroScalar::random` with the operating system's random
/// number generator. Whatever is drawn is a secret scalar: the call draws
/// again until the number is above zero and below the group order.
#[verifier::external_body]
pub(crate) fn random_scalar() -> (scalar: Vec<u8>)
    ensures
        is_secret_scalar(scalar@),
{
    k256::NonZeroScalar::random(&mut OsRng).to_bytes().to_vec()
}

/// Calls `k256::SecretKey::public_key` and `k256::PublicKey::to_sec1_bytes`,
/// which give the point that the scalar generates in compressed form: 33
/// bytes that `from_sec1_bytes` accepts.
#[verifier::external_body]
pub(crate) fn public_point_of(scalar: &[u8]) -> (point: Vec<u8>)
    requires
        is_secret_scalar(scalar@),
    ensures
        point@ == public_point(scalar@),
        is_compressed(point@),
        is_public_point(point@),
{
    let secret = k256::SecretKey::from_slice(scalar).unwrap();
    secret.public_key().to_sec1_bytes().to_vec()
}

/// Calls `k256::ecdh::diffie_hellman`, which multiplies the point by the
/// scalar and keeps the product's x-coordinate, 32 bytes.
///
/// The last clause is the agreement that Diffie-Hellman rests on, which the
/// crate documents as both participants arriving on the same shared secret:
/// whoever holds a scalar that generates a point with the x-coordinate of
/// `point` reaches the same 32 bytes from the point that `scalar`
/// generates. The parity of `point` plays no part, since a point and its
/// negative have products with the same x-coordinate.
#[verifier::external_body]
pub(crate) fn agree(scalar: &[u8], point: &[u8]) -> (secret: Vec<u8>)
    requires
        is_secret_scalar(scalar@),
        is_public_point(point@),
    ensures
        secret@ == shared_x(scalar@, point@),
        secret@.len() == SCALAR_LEN,
        forall|peer: Seq<u8>|
            is_compressed(point@) && is_key_pair(peer, x_of(point@)) ==> #[trigger] shared_x(
                peer,
                public_point(scalar@),
            ) == secret@,
{
    let secret = k256::SecretKey::from_slice(scalar).unwrap();
    let public = k256::PublicKey::from_sec1_bytes(point).unwrap();
    k256::ecdh::diffie_hellman(secret.to_nonzero_scalar(), public.as_affine())
        .raw_secret_bytes().to_vec()
}

} // verus!
