//! The hash primitive of the new ledger. The mapping registry protocol uses
//! Keccak-256 for call-data selectors and for the digest of an endorsement
//! payload; the algorithm itself is external and its result is only named.

use vstd::prelude::*;
use sha3::Digest;

verus! {

/// The Keccak-256 digest of a byte sequence. The digest is a function of the
/// input bytes alone; it is computed only by the external implementation.
pub uninterp spec fn keccak256_of(bytes: Seq<u8>) -> Seq<u8>;

/// Relies on sha3's `Keccak256`: a 32-byte digest that depends on the input
/// bytes alone.
#[verifier::external_body]
pub(crate) fn keccak256(bytes: &[u8]) -> (r: Vec<u8>)
    ensures
        r@ == keccak256_of(bytes@),
        r@.len() == 32,
{
    sha3::Keccak256::digest(bytes).to_vec()
}

} // verus!
