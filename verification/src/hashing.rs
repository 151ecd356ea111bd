//! The fixed 256-bit hash function every digest in the tree comes from.

use blake2::Blake2s256;
use blake2::Digest;
use vstd::prelude::*;

verus! {

/// The digest the fixed 256-bit hash function assigns to a byte sequence.
/// The function's output depends on its input bytes alone.
pub uninterp spec fn blake2s_of(data: Seq<u8>) -> Seq<u8>;

/// Relies on blake2::Blake2s256 (through the Digest trait): the digest is a
/// function of the input bytes alone and is always exactly 32 bytes.
#[verifier::external_body]
pub(crate) fn blake2s256(data: &[u8]) -> (r: Vec<u8>)
    ensures
        r@ == blake2s_of(data@),
        r@.len() == 32,
{
    Blake2s256::digest(data).to_vec()
}

} // verus!
