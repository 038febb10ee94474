use vstd::prelude::*;

use crate::address::{copy_prefix32, prefix32};

verus! {

/// Placeholder proof check used before proofs were verified by the verifier
/// module: every proof is accepted.
pub fn verify_proof(proof_bytes: &[u8]) -> (r: bool)
    ensures
        r,
{
    true
}

/// Derives a deterministic nullifier from proof bytes, so that identical
/// proof bytes give the same nullifier: their first 32 bytes, padded with
/// zeros.
pub fn extract_nullifier(proof_bytes: &[u8]) -> (r: [u8; 32])
    ensures
        r@ == prefix32(proof_bytes@),
{
    copy_prefix32(proof_bytes)
}

} // verus!
