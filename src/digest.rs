//! The hash function that ties a preimage to its hash lock.
use vstd::prelude::*;

verus! {

/// The SHA3-256 digest of a byte string.
pub uninterp spec fn sha3_256_of(data: Seq<u8>) -> Seq<u8>;

/// Relies on tiny_keccak::sha3_256: the SHA3-256 digest of the input, which
/// depends on the input alone and is 32 bytes long.
#[verifier::external_body]
pub(crate) fn sha3_256(data: &Vec<u8>) -> (r: Vec<u8>)
    ensures
        r@ == sha3_256_of(data@),
        r@.len() == 32,
{
    tiny_keccak::sha3_256(data.as_slice()).to_vec()
}

} // verus!
