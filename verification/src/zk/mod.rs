//! Verification of proofs and extraction of their public inputs.
pub mod honk;
pub mod inputs;
pub mod keys;
pub mod types;

use vstd::prelude::*;

use crate::address::Address;
use crate::zk::honk::{
    is_nullifier_verified, record_nullifier, spec_verify_and_check_nullifier, spec_verify_proof,
    verify_and_check_nullifier, verify_proof,
};
use crate::zk::inputs::{
    extract_public_inputs, field_bytes, public_inputs_len, read_field, spec_extract_public_inputs,
    spec_validate_public_inputs, validate_public_inputs,
};
use crate::zk::keys::{get_vk, set_vk, spec_get_vk, spec_vk};
use crate::zk::types::{Error, ProofData, PublicInputs, VerificationKey, VerifierState, VerifierView};

verus! {

/// The public inputs carried by the last 256 bytes of a combined proof.
pub open spec fn proof_public_part(proof_bytes: Seq<u8>) -> Seq<u8> {
    proof_bytes.subrange(proof_bytes.len() - public_inputs_len(), proof_bytes.len() as int)
}

/// What [`verify`] returns for combined proof bytes, given the verifier's storage.
pub open spec fn spec_verify(env: VerifierView, proof_bytes: Seq<u8>) -> Result<PublicInputs, Error> {
    if proof_bytes.len() < public_inputs_len() {
        Err(Error::InvalidProofFormat)
    } else {
        match spec_extract_public_inputs(proof_public_part(proof_bytes)) {
            Err(e) => Err(e),
            Ok(pi) => match spec_validate_public_inputs(pi) {
                Err(e) => Err(e),
                Ok(_) => if env.is_verified(pi.nullifier) {
                    Err(Error::NullifierAlreadyVerified)
                } else {
                    Ok(pi)
                },
            },
        }
    }
}

/// Checks combined proof bytes against the verifier's storage, recording
/// nothing: the public inputs are extracted from the last 256 bytes and
/// validated, and their nullifier must not be registered yet.
pub fn check_proof(env: &VerifierState, proof_bytes: &[u8]) -> (r: Result<PublicInputs, Error>)
    ensures
        r == spec_verify(env@, proof_bytes@),
        r matches Ok(pi) ==> 0 <= pi.loan_amount < 0x1_0000_0000_0000_0000,
{
    let total = proof_bytes.len();
    if total < 256 {
        return Err(Error::InvalidProofFormat);
    }

    // Extract last 256 bytes as public inputs
    let pub_start = total - 256;
    let public_inputs_part = vstd::slice::slice_subrange(proof_bytes, pub_start, total);

    let public_inputs = extract_public_inputs(public_inputs_part)?;
    proof {
        crate::zk::inputs::lemma_encoded_amount_bound(public_inputs_part@, public_inputs);
    }
    validate_public_inputs(&public_inputs)?;

    // Check nullifier hasn't been seen before
    if is_nullifier_verified(env, &public_inputs.nullifier) {
        return Err(Error::NullifierAlreadyVerified);
    }
    Ok(public_inputs)
}

/// Verifies a combined proof + public inputs and extracts the public outputs.
///
/// `proof_bytes` holds the Noir proof followed by the 256-byte serialized
/// public inputs (8 fields x 32 bytes). The public inputs are extracted and
/// validated, and their nullifier is checked against and added to the
/// registry of verified nullifiers.
///
/// `vk_hash_ref` identifies the VK; it is accepted and not checked, and the
/// proof part itself is not checked either.
pub fn verify(env: &mut VerifierState, proof_bytes: &[u8], vk_hash_ref: &[u8; 32]) -> (r: Result<PublicInputs, Error>)
    ensures
        r == spec_verify(old(env)@, proof_bytes@),
        r matches Ok(pi) ==> 0 <= pi.loan_amount < 0x1_0000_0000_0000_0000,
        match r {
            Ok(pi) => final(env)@ == old(env)@.with_verified(pi.nullifier),
            Err(_) => final(env)@ == old(env)@,
        },
{
    let public_inputs = check_proof(env, proof_bytes)?;
    record_nullifier(env, public_inputs.nullifier);
    Ok(public_inputs)
}

/// The nullifier field (field 3) of the public inputs that end combined
/// proof bytes; none when they are shorter than 256 bytes.
pub fn proof_nullifier(proof_bytes: &[u8]) -> (r: Option<[u8; 32]>)
    ensures
        proof_bytes@.len() < public_inputs_len() ==> r is None,
        proof_bytes@.len() >= public_inputs_len() ==> (r matches Some(n) && n@ == field_bytes(
            proof_public_part(proof_bytes@),
            3,
        )),
{
    let total = proof_bytes.len();
    if total < 256 {
        return None;
    }
    let part = vstd::slice::slice_subrange(proof_bytes, total - 256, total);
    Some(read_field(part, 3))
}

/// The verifier contract: holds the verification key and the registry of
/// verified nullifiers, and checks proofs against them.
pub struct VerifierContract;

impl VerifierContract {
    /// Initializes the verifier with its admin and the Verification Key hash.
    ///
    /// Fails with `AlreadyInitialized` when called a second time.
    pub fn init(env: &mut VerifierState, admin: &Address, vk_hash: [u8; 32], num_public_inputs: u32) -> (r: Result<(), Error>)
        ensures
            old(env)@.initialized ==> r == Err::<(), Error>(Error::AlreadyInitialized) && final(env)@ == old(env)@,
            !old(env)@.initialized ==> r == Ok::<(), Error>(()) && final(env)@ == (VerifierView {
                admin: Some(*admin),
                initialized: true,
                vk: Some(spec_vk(vk_hash, num_public_inputs)),
                ..old(env)@
            }),
            old(env)@.initialized ==> final(env)@.initialized,
    {
        if env.initialized {
            return Err(Error::AlreadyInitialized);
        }
        env.admin = Some(*admin);
        set_vk(env, vk_hash, num_public_inputs)?;
        env.initialized = true;
        Ok(())
    }

    /// Verifies a proof with its public inputs against the stored VK, and
    /// records its nullifier; fails with `NotInitialized` before `init`.
    pub fn verify(env: &mut VerifierState, proof_bytes: &[u8], public_inputs_bytes: &[u8], vk_bytes: &[u8]) -> (r: Result<PublicInputs, Error>)
        ensures
            !old(env)@.initialized ==> r == Err::<PublicInputs, Error>(Error::NotInitialized),
            old(env)@.initialized ==> r == spec_verify_and_check_nullifier(old(env)@, public_inputs_bytes@, vk_bytes@),
            match r {
                Ok(pi) => final(env)@ == old(env)@.with_verified(pi.nullifier),
                Err(_) => final(env)@ == old(env)@,
            },
            old(env)@.initialized ==> final(env)@.initialized,
    {
        if !env.initialized {
            return Err(Error::NotInitialized);
        }
        let proof = ProofData {
            proof_bytes: vstd::slice::slice_to_vec(proof_bytes),
            public_inputs_bytes: vstd::slice::slice_to_vec(public_inputs_bytes),
        };
        verify_and_check_nullifier(env, &proof, vk_bytes)
    }

    /// Verifies a proof without checking or recording its nullifier
    /// (a repeatable pre-flight check); fails with `NotInitialized` before `init`.
    pub fn verify_without_nullifier(env: &VerifierState, proof_bytes: &[u8], public_inputs_bytes: &[u8], vk_bytes: &[u8]) -> (r: Result<PublicInputs, Error>)
        ensures
            !env@.initialized ==> r == Err::<PublicInputs, Error>(Error::NotInitialized),
            env@.initialized ==> r == spec_verify_proof(env@, public_inputs_bytes@, vk_bytes@),
    {
        if !env.initialized {
            return Err(Error::NotInitialized);
        }
        let proof = ProofData {
            proof_bytes: vstd::slice::slice_to_vec(proof_bytes),
            public_inputs_bytes: vstd::slice::slice_to_vec(public_inputs_bytes),
        };
        verify_proof(env, &proof, vk_bytes)
    }

    /// Returns the stored Verification Key metadata; `VkNotSet` when there is none.
    pub fn get_vk(env: &VerifierState) -> (r: Result<VerificationKey, Error>)
        ensures
            r == spec_get_vk(env@),
    {
        get_vk(env)
    }

    /// Returns the contract admin; `NotInitialized` when there is none.
    pub fn get_admin(env: &VerifierState) -> (r: Result<Address, Error>)
        ensures
            r == (match env@.admin {
                Some(a) => Ok::<Address, Error>(a),
                None => Err(Error::NotInitialized),
            }),
    {
        match env.admin {
            Some(a) => Ok(a),
            None => Err(Error::NotInitialized),
        }
    }
}

} // verus!
