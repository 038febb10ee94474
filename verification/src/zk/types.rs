use vstd::prelude::*;

use crate::address::Address;

verus! {

// --- Public Inputs from Proof ---

/// Public inputs extracted from a verified Noir UltraHonk proof.
/// These values are consumed by the lending contract to issue loans.
#[derive(Clone, Copy, Debug, PartialEq, Eq)]
pub struct PublicInputs {
    /// Nullifier preventing double-spend (Pedersen hash of invoice_id + seed)
    pub nullifier: [u8; 32],
    /// Pedersen commitment to the invoice data (domain-separated with v1 tag)
    pub invoice_hash: [u8; 32],
    /// Computed loan amount in stroops or USDC cents
    pub loan_amount: i128,
    /// Loan-to-value ratio in basis points from circuit output
    pub ltv_bps: u32,
    /// Interest rate in basis points per annum from circuit output
    pub interest_bps: u32,
    /// Pedersen hash binding provider identity to TLS response commitment
    pub provider_response_hash: [u8; 32],
}

// --- Verification Key ---

/// The Noir UltraHonk Verification Key, stored as a hash reference.
/// The full VK bytes are stored off-chain; only the hash is kept on-chain
/// to identify which VK was used during verification.
#[derive(Clone, Copy, Debug, PartialEq, Eq)]
pub struct VerificationKey {
    /// Blake2s hash of the full VK bytes
    pub vk_hash: [u8; 32],
    /// The curve identifier (always BN254 for Stellar)
    pub curve: u32,
    /// Number of public inputs expected by the circuit
    pub num_public_inputs: u32,
    /// Proof system identifier (0 = UltraHonk)
    pub proof_system: u32,
}

// --- Proof ---

/// Raw proof bytes submitted for on-chain verification.
#[derive(Clone, Debug, PartialEq, Eq)]
pub struct ProofData {
    /// The raw proof bytes (compressed UltraHonk proof)
    pub proof_bytes: Vec<u8>,
    /// Public inputs serialized in Noir's format
    pub public_inputs_bytes: Vec<u8>,
}

// --- Contract Errors ---

/// Errors returned by the verifier.
#[derive(Clone, Copy, Debug, PartialEq, Eq, Structural)]
pub enum Error {
    AlreadyInitialized,
    NotInitialized,
    Unauthorized,
    ProofVerificationFailed,
    InvalidProofFormat,
    InvalidVkHash,
    VkNotSet,
    NullifierAlreadyVerified,
    PublicInputMismatch,
}

// --- Storage ---

/// What the verifier keeps in contract storage.
#[derive(Debug)]
pub struct VerifierState {
    /// Contract administrator
    pub admin: Option<Address>,
    /// Whether the contract has been initialized
    pub initialized: bool,
    /// The active Verification Key
    pub vk: Option<VerificationKey>,
    /// Registry of verified nullifiers (double-spend prevention at verifier level)
    pub verified_nullifiers: Vec<[u8; 32]>,
}

/// The contents of [`VerifierState`] as mathematical values.
#[verifier::ext_equal]
pub struct VerifierView {
    pub admin: Option<Address>,
    pub initialized: bool,
    pub vk: Option<VerificationKey>,
    pub verified_nullifiers: Seq<[u8; 32]>,
}

impl View for VerifierState {
    type V = VerifierView;

    open spec fn view(&self) -> VerifierView {
        VerifierView {
            admin: self.admin,
            initialized: self.initialized,
            vk: self.vk,
            verified_nullifiers: self.verified_nullifiers@,
        }
    }
}

impl VerifierView {
    /// Whether `nullifier` has already been verified.
    pub open spec fn is_verified(self, nullifier: [u8; 32]) -> bool {
        self.verified_nullifiers.contains(nullifier)
    }

    /// This storage with `nullifier` added to the registry.
    pub open spec fn with_verified(self, nullifier: [u8; 32]) -> VerifierView {
        VerifierView { verified_nullifiers: self.verified_nullifiers.push(nullifier), ..self }
    }
}

impl VerifierState {
    /// Storage of a verifier that nothing has been written to.
    pub fn new() -> (r: VerifierState)
        ensures
            r@ == (VerifierView {
                admin: None,
                initialized: false,
                vk: None,
                verified_nullifiers: Seq::empty(),
            }),
    {
        VerifierState { admin: None, initialized: false, vk: None, verified_nullifiers: Vec::new() }
    }
}

// --- Protocol Constants ---

/// Curve identifier for BN254 (Stellar Protocol 25/26).
pub const CURVE_BN254: u32 = 1;
/// Proof system identifier for UltraHonk.
pub const PROOF_SYSTEM_ULTRAHONK: u32 = 0;
/// Expected number of public inputs from the Aero circuit.
pub const AERO_NUM_PUBLIC_INPUTS: u32 = 8;
/// Size of a single proof field in bytes (BN254 scalar field).
pub const FIELD_SIZE: u32 = 32;

} // verus!
