use vstd::prelude::*;

use crate::address::{bytes32_eq, prefix32};
use crate::zk::inputs::{
    extract_public_inputs, spec_extract_public_inputs, spec_validate_public_inputs,
    validate_public_inputs,
};
use crate::zk::keys::{compute_vk_hash, spec_validate_vk, validate_vk};
use crate::zk::types::{Error, ProofData, PublicInputs, VerifierState, VerifierView};

verus! {

/// What [`verify_proof`] returns: the VK check on the first 32 bytes of
/// `vk_bytes`, then extraction and validation of the public inputs.
pub open spec fn spec_verify_proof(env: VerifierView, public_inputs_bytes: Seq<u8>, vk_bytes: Seq<u8>) -> Result<PublicInputs, Error> {
    match spec_validate_vk(env, prefix32(vk_bytes)) {
        Err(e) => Err(e),
        Ok(_) => match spec_extract_public_inputs(public_inputs_bytes) {
            Err(e) => Err(e),
            Ok(pi) => match spec_validate_public_inputs(pi) {
                Err(e) => Err(e),
                Ok(_) => Ok(pi),
            },
        },
    }
}

/// What [`verify_and_check_nullifier`] returns.
pub open spec fn spec_verify_and_check_nullifier(env: VerifierView, public_inputs_bytes: Seq<u8>, vk_bytes: Seq<u8>) -> Result<PublicInputs, Error> {
    match spec_verify_proof(env, public_inputs_bytes, vk_bytes) {
        Err(e) => Err(e),
        Ok(pi) => if env.is_verified(pi.nullifier) {
            Err(Error::NullifierAlreadyVerified)
        } else {
            Ok(pi)
        },
    }
}

/// Whether `nullifier` is in the verifier's registry.
pub fn is_nullifier_verified(env: &VerifierState, nullifier: &[u8; 32]) -> (r: bool)
    ensures
        r == env@.is_verified(*nullifier),
{
    let n = env.verified_nullifiers.len();
    let mut i: usize = 0;
    while i < n
        invariant
            i <= n,
            n == env.verified_nullifiers@.len(),
            forall|j: int| 0 <= j < i ==> env.verified_nullifiers@[j] != *nullifier,
        decreases n - i,
    {
        if bytes32_eq(&env.verified_nullifiers[i], nullifier) {
            assert(env.verified_nullifiers@[i as int] == *nullifier);
            return true;
        }
        i = i + 1;
    }
    false
}

/// Adds `nullifier` to the verifier's registry.
pub fn record_nullifier(env: &mut VerifierState, nullifier: [u8; 32])
    ensures
        final(env)@ == old(env)@.with_verified(nullifier),
{
    env.verified_nullifiers.push(nullifier);
}

/// Verifies an UltraHonk proof against the stored Verification Key.
///
/// The VK given with the proof is reduced to its reference hash and checked
/// against the stored one; then the public inputs are extracted and
/// validated. The pairing check itself is not performed: any proof whose
/// VK and public inputs pass these checks is accepted.
pub fn verify_proof(env: &VerifierState, proof: &ProofData, vk_bytes: &[u8]) -> (r: Result<PublicInputs, Error>)
    ensures
        r == spec_verify_proof(env@, proof.public_inputs_bytes@, vk_bytes@),
{
    // Step 1: Validate the VK hash
    let vk_hash = compute_vk_hash(vk_bytes);
    validate_vk(env, &vk_hash)?;

    // Step 2: Extract and validate public inputs
    let public_inputs = extract_public_inputs(proof.public_inputs_bytes.as_slice())?;
    validate_public_inputs(&public_inputs)?;

    Ok(public_inputs)
}

/// Verifies a proof and checks the nullifier has not been used before; on
/// success the nullifier is recorded, so the same public inputs are refused
/// the next time.
pub fn verify_and_check_nullifier(env: &mut VerifierState, proof: &ProofData, vk_bytes: &[u8]) -> (r: Result<PublicInputs, Error>)
    ensures
        r == spec_verify_and_check_nullifier(old(env)@, proof.public_inputs_bytes@, vk_bytes@),
        match r {
            Ok(pi) => final(env)@ == old(env)@.with_verified(pi.nullifier),
            Err(_) => final(env)@ == old(env)@,
        },
{
    let public_inputs = verify_proof(env, proof, vk_bytes)?;

    // Check nullifier hasn't been seen before
    if is_nullifier_verified(env, &public_inputs.nullifier) {
        return Err(Error::NullifierAlreadyVerified);
    }
    record_nullifier(env, public_inputs.nullifier);

    Ok(public_inputs)
}

} // verus!
