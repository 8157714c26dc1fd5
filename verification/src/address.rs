//! Deriving a validator's destination-chain address from its public key.
//!
//! This is the one derived, non-transport field in the data model: the
//! address must be recomputed from the public key, never trusted from input.

use vstd::prelude::*;

verus! {

/// The Keccak-256 digest of a byte string. Named, not spelled out: the digest
/// is a function of the input bytes alone, and no short statement of it
/// exists.
pub uninterp spec fn keccak256_of(data: Seq<u8>) -> Seq<u8>;

/// Relies on axon_tools::keccak_256: the 32-byte Keccak-256 digest of the
/// input, a function of the input bytes alone.
#[verifier::external_body]
fn keccak256(data: &[u8]) -> (r: [u8; 32])
    ensures
        r@ == keccak256_of(data@),
{
    axon_tools::keccak_256(data)
}

/// A validator's address: the low-order twenty bytes of the Keccak-256 digest
/// of its public key.
pub open spec fn address_of(pub_key: Seq<u8>) -> Seq<u8> {
    keccak256_of(pub_key).subrange(12, 32)
}

/// Computes the twenty-byte on-chain address for a public key.
pub fn derive_address(pub_key: &[u8]) -> (r: [u8; 20])
    ensures
        r@ == address_of(pub_key@),
{
    let digest = keccak256(pub_key);
    let mut out: [u8; 20] = [0u8; 20];
    let mut i: usize = 0;
    while i < 20
        invariant
            0 <= i <= 20,
            digest@ == keccak256_of(pub_key@),
            forall|j: int| 0 <= j < i ==> out@[j] == digest@[j + 12],
        decreases 20 - i,
    {
        out[i] = digest[i + 12];
        i += 1;
    }
    proof {
        assert(out@ =~= address_of(pub_key@));
    }
    out
}

} // verus!
