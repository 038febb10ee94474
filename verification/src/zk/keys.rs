use vstd::prelude::*;

use crate::address::{bytes32_eq, copy_prefix32, prefix32};
use crate::zk::types::{
    Error, VerificationKey, VerifierState, VerifierView, CURVE_BN254, PROOF_SYSTEM_ULTRAHONK,
};

verus! {

broadcast use vstd::array::group_array_axioms;

/// The key that [`set_vk`] stores for `vk_hash`.
pub open spec fn spec_vk(vk_hash: [u8; 32], num_public_inputs: u32) -> VerificationKey {
    VerificationKey {
        vk_hash,
        curve: CURVE_BN254,
        num_public_inputs,
        proof_system: PROOF_SYSTEM_ULTRAHONK,
    }
}

/// What [`get_vk`] returns.
pub open spec fn spec_get_vk(env: VerifierView) -> Result<VerificationKey, Error> {
    match env.vk {
        Some(vk) => Ok(vk),
        None => Err(Error::VkNotSet),
    }
}

/// What [`validate_vk`] returns for an expected hash with bytes `expected`.
pub open spec fn spec_validate_vk(env: VerifierView, expected: Seq<u8>) -> Result<(), Error> {
    match env.vk {
        None => Err(Error::VkNotSet),
        Some(vk) => if vk.vk_hash@ != expected {
            Err(Error::InvalidVkHash)
        } else {
            Ok(())
        },
    }
}

/// Stores the Verification Key hash in contract storage.
///
/// The full VK bytes are too large for on-chain storage (~16KB for UltraHonk).
/// Only the hash is stored; proofs are checked against it.
pub fn set_vk(env: &mut VerifierState, vk_hash: [u8; 32], num_public_inputs: u32) -> (r: Result<(), Error>)
    ensures
        r == Ok::<(), Error>(()),
        final(env)@ == (VerifierView { vk: Some(spec_vk(vk_hash, num_public_inputs)), ..old(env)@ }),
{
    let vk = VerificationKey {
        vk_hash,
        curve: CURVE_BN254,
        num_public_inputs,
        proof_system: PROOF_SYSTEM_ULTRAHONK,
    };
    env.vk = Some(vk);
    Ok(())
}

/// Retrieves the stored Verification Key; `VkNotSet` when there is none.
pub fn get_vk(env: &VerifierState) -> (r: Result<VerificationKey, Error>)
    ensures
        r == spec_get_vk(env@),
{
    match env.vk {
        Some(vk) => Ok(vk),
        None => Err(Error::VkNotSet),
    }
}

/// Validates that the provided VK hash matches the stored VK.
pub fn validate_vk(env: &VerifierState, expected_vk_hash: &[u8; 32]) -> (r: Result<(), Error>)
    ensures
        r == spec_validate_vk(env@, expected_vk_hash@),
{
    let stored = get_vk(env)?;
    if !bytes32_eq(&stored.vk_hash, expected_vk_hash) {
        proof {
            if stored.vk_hash@ == expected_vk_hash@ {
                assert(stored.vk_hash =~= *expected_vk_hash);
            }
        }
        return Err(Error::InvalidVkHash);
    }
    Ok(())
}

/// Computes the reference hash of VK bytes.
///
/// This is not a cryptographic hash: it is the first 32 bytes of the VK,
/// padded with zeros, so any VK whose first 32 bytes equal the stored hash
/// passes [`validate_vk`].
pub fn compute_vk_hash(vk_bytes: &[u8]) -> (r: [u8; 32])
    ensures
        r@ == prefix32(vk_bytes@),
{
    copy_prefix32(vk_bytes)
}

} // verus!
