use vstd::prelude::*;
use zeroize::Zeroize;

verus! {

/// Calls `zeroize` on the vector, which overwrites its bytes and its spare
/// capacity with zeros and then empties it.
#[verifier::external_body]
pub(crate) fn wipe(secret: &mut Vec<u8>)
    ensures
        final(secret)@.len() == 0,
{
    secret.zeroize()
}

} // verus!
