//! The cryptographic hash behind selectors and mapping-slot derivation.

use sha3::Digest;
use vstd::prelude::*;

verus! {

/// The 32-byte Keccak-256 digest of a byte sequence. The digest is a fixed
/// function of the input bytes alone; its definition is not restated here.
pub uninterp spec fn keccak_of(data: Seq<u8>) -> Seq<u8>;

/// Relies on sha3's `Keccak256::digest`: the Keccak-256 digest of the input,
/// always 32 bytes long.
#[verifier::external_body]
pub fn keccak256(data: &Vec<u8>) -> (r: Vec<u8>)
    ensures
        r@ == keccak_of(data@),
        r@.len() == 32,
{
    sha3::Keccak256::digest(data.as_slice()).to_vec()
}

} // verus!
