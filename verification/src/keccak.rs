//! The digest used to identify deployed bytecode.

use vstd::prelude::*;

verus! {

/// The 32-byte digest of a byte string. Its value is determined by the
/// bytes alone; nothing further is assumed about it.
pub uninterp spec fn keccak_of(bytes: Seq<u8>) -> Seq<u8>;

/// Relies on `ethers_core::utils::keccak256`: the digest is a function of
/// the input bytes alone, and is 32 bytes long.
#[verifier::external_body]
pub(crate) fn keccak256(bytes: &Vec<u8>) -> (r: [u8; 32])
    ensures
        r@ == keccak_of(bytes@),
        r@.len() == 32,
{
    ethers_core::utils::keccak256(bytes.as_slice())
}

} // verus!
