//! Aero: invoice-backed lending on Stellar, as a verified library.
//!
//! The contracts' storage, ledger clock and pending token transfers are held
//! as plain values ([`state::ContractState`], [`zk::types::VerifierState`],
//! [`mock_usdc::TokenState`]); every contract entry point is a verified function
//! from that state and its arguments to the next state and its result.
pub mod address;
pub mod contract;
pub mod laws;
pub mod loan;
pub mod math;
pub mod mock_usdc;
pub mod outcomes;
pub mod pool;
pub mod proof_check;
pub mod state;
pub mod types;
pub mod zk;
