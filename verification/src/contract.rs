use vstd::prelude::*;

use crate::address::Address;
use crate::laws;
use crate::loan::{
    self, liquidate_loan_fits, repay_loan_fits, request_loan_fits, spec_liquidate_loan,
    spec_repay_loan, spec_request_loan,
};
use crate::pool::{self, deposit_fits, spec_deposit, spec_withdraw, withdraw_fits};
use crate::state::{ContractState, ContractView};
use crate::types::{Asset, Error, LoanData, PoolPosition, PoolStats};

verus! {

/// What [`AeroContract::init`] leaves in storage.
pub open spec fn spec_init(pre: ContractView, admin: Address, usdc_address: Address) -> (Result<(), Error>, ContractView) {
    if pre.initialized {
        (Err(Error::AlreadyInitialized), pre)
    } else {
        (
            Ok(()),
            ContractView {
                admin: Some(admin),
                usdc_address: Some(usdc_address),
                initialized: true,
                loan_counter: 0,
                ..pre
            },
        )
    }
}

/// Aero Protocol: zero-knowledge trade finance and invoice factoring on Stellar.
///
/// This contract manages:
/// - Multi-asset liquidity pool (XLM + USDC)
/// - Loan origination backed by ZK-verified invoices
/// - Repayment and liquidation with 10% performance bonds
///
/// Every entry point but `init` fails with `NotInitialized`, changing
/// nothing, until `init` has run; once initialized, the contract stays so.
/// Every entry point keeps the ledger consistent (see
/// [`ContractView::ledger_consistent`]), which a fresh contract is. Caller
/// authorization is checked by the host before an entry point runs.
pub struct AeroContract;

impl AeroContract {
    /// Initializes the Aero protocol contract.
    ///
    /// Sets the admin and registers the USDC token contract address.
    /// Must be called once; a second call fails with `AlreadyInitialized`.
    pub fn init(env: &mut ContractState, admin: &Address, usdc_address: &Address) -> (r: Result<(), Error>)
        ensures
            r == spec_init(old(env)@, *admin, *usdc_address).0,
            final(env)@ == spec_init(old(env)@, *admin, *usdc_address).1,
            old(env)@.pools_balanced() ==> final(env)@.pools_balanced(),
            old(env)@.nullifiers_kept_in(final(env)@),
            old(env)@.ledger_consistent() ==> final(env)@.ledger_consistent(),
            old(env)@.initialized ==> final(env)@.initialized,
    {
        // Prevent re-initialization
        if env.initialized {
            return Err(Error::AlreadyInitialized);
        }

        env.admin = Some(*admin);
        pool::set_usdc_address(env, usdc_address);
        env.initialized = true;
        env.loan_counter = 0;

        Ok(())
    }

    // --- Liquidity Pool ---

    /// Deposits an asset into the liquidity pool.
    ///
    /// Returns the number of pool shares minted.
    pub fn deposit(env: &mut ContractState, lender: &Address, asset: Asset, amount: i128) -> (r: Result<i128, Error>)
        requires
            old(env)@.initialized ==> deposit_fits(old(env)@, *lender, asset, amount),
        ensures
            !old(env)@.initialized ==> r == Err::<i128, Error>(Error::NotInitialized) && final(env)@ == old(env)@,
            old(env)@.initialized ==> r == spec_deposit(old(env)@, *lender, asset, amount).0
                && final(env)@ == spec_deposit(old(env)@, *lender, asset, amount).1,
            old(env)@.pools_balanced() ==> final(env)@.pools_balanced(),
            old(env)@.nullifiers_kept_in(final(env)@),
            old(env)@.ledger_consistent() ==> final(env)@.ledger_consistent(),
            old(env)@.initialized ==> final(env)@.initialized,
    {
        require_initialized(env)?;
        proof {
            if env@.ledger_consistent() {
                laws::lemma_deposit_keeps_ledger(env@, *lender, asset, amount);
            }
        }
        pool::deposit(env, lender, asset, amount)
    }

    /// Withdraws an asset from the liquidity pool by burning shares.
    ///
    /// Returns the amount of underlying asset withdrawn.
    pub fn withdraw(env: &mut ContractState, lender: &Address, asset: Asset, share_amount: i128) -> (r: Result<i128, Error>)
        requires
            old(env)@.initialized ==> withdraw_fits(old(env)@, *lender, asset, share_amount),
        ensures
            !old(env)@.initialized ==> r == Err::<i128, Error>(Error::NotInitialized) && final(env)@ == old(env)@,
            old(env)@.initialized ==> r == spec_withdraw(old(env)@, *lender, asset, share_amount).0
                && final(env)@ == spec_withdraw(old(env)@, *lender, asset, share_amount).1,
            old(env)@.pools_balanced() ==> final(env)@.pools_balanced(),
            old(env)@.nullifiers_kept_in(final(env)@),
            old(env)@.ledger_consistent() ==> final(env)@.ledger_consistent(),
            old(env)@.initialized ==> final(env)@.initialized,
    {
        require_initialized(env)?;
        proof {
            if env@.ledger_consistent() {
                laws::lemma_withdraw_keeps_ledger(env@, *lender, asset, share_amount);
            }
        }
        pool::withdraw(env, lender, asset, share_amount)
    }

    /// Returns pool statistics for a given asset.
    pub fn get_pool_stats(env: &ContractState, asset: Asset) -> (r: Result<PoolStats, Error>)
        ensures
            !env@.initialized ==> r == Err::<PoolStats, Error>(Error::NotInitialized),
            env@.initialized ==> r == Ok::<PoolStats, Error>(env@.pool(asset)),
    {
        require_initialized(env)?;
        Ok(pool::get_pool_stats(env, asset))
    }

    /// Returns a lender's pool position for a given asset (zero when the
    /// lender never deposited).
    pub fn get_pool_position(env: &ContractState, lender: &Address, asset: Asset) -> (r: Result<PoolPosition, Error>)
        ensures
            !env@.initialized ==> r == Err::<PoolPosition, Error>(Error::NotInitialized),
            env@.initialized ==> r == Ok::<PoolPosition, Error>(env@.position(*lender, asset)),
    {
        require_initialized(env)?;
        Ok(env.position(lender, asset))
    }

    // --- Loan Management ---

    /// Requests a new loan backed by a ZK-verified invoice.
    ///
    /// `proof_bytes` contains both the proof and the 256-byte serialized
    /// public inputs; `vk_hash` identifies the circuit's Verification Key.
    /// All loan parameters come from the verified public inputs. A 10%
    /// performance bond is required from the borrower.
    ///
    /// Returns the loan ID.
    pub fn request_loan(env: &mut ContractState, borrower: &Address, asset: Asset, proof_bytes: &[u8], vk_hash: &[u8; 32]) -> (r: Result<u64, Error>)
        requires
            old(env)@.initialized ==> request_loan_fits(old(env)@, asset, proof_bytes@),
        ensures
            !old(env)@.initialized ==> r == Err::<u64, Error>(Error::NotInitialized) && final(env)@ == old(env)@,
            old(env)@.initialized ==> r == spec_request_loan(old(env)@, *borrower, asset, proof_bytes@).0
                && final(env)@ == spec_request_loan(old(env)@, *borrower, asset, proof_bytes@).1,
            old(env)@.pools_balanced() ==> final(env)@.pools_balanced(),
            old(env)@.nullifiers_kept_in(final(env)@),
            old(env)@.ledger_consistent() ==> final(env)@.ledger_consistent(),
            old(env)@.initialized ==> final(env)@.initialized,
    {
        require_initialized(env)?;
        proof {
            loan::lemma_request_loan_keeps_nullifiers(env@, *borrower, asset, proof_bytes@);
            if env@.ledger_consistent() {
                laws::lemma_request_loan_keeps_ledger(env@, *borrower, asset, proof_bytes@);
            }
        }
        loan::request_loan(env, borrower, asset, proof_bytes, vk_hash)
    }

    /// Repays a loan with interest.
    ///
    /// Payments are applied to principal first, then interest. On full
    /// repayment, the 10% performance bond is returned.
    pub fn repay_loan(env: &mut ContractState, borrower: &Address, loan_id: u64, amount: i128) -> (r: Result<(), Error>)
        requires
            old(env)@.initialized ==> repay_loan_fits(old(env)@, *borrower, loan_id, amount),
        ensures
            !old(env)@.initialized ==> r == Err::<(), Error>(Error::NotInitialized) && final(env)@ == old(env)@,
            old(env)@.initialized ==> r == spec_repay_loan(old(env)@, *borrower, loan_id, amount).0
                && final(env)@ == spec_repay_loan(old(env)@, *borrower, loan_id, amount).1,
            old(env)@.pools_balanced() ==> final(env)@.pools_balanced(),
            old(env)@.nullifiers_kept_in(final(env)@),
            old(env)@.ledger_consistent() ==> final(env)@.ledger_consistent(),
            old(env)@.initialized ==> final(env)@.initialized,
    {
        require_initialized(env)?;
        proof {
            if env@.ledger_consistent() {
                laws::lemma_repay_keeps_ledger(env@, *borrower, loan_id, amount);
            }
        }
        loan::repay_loan(env, borrower, loan_id, amount)
    }

    /// Liquidates a loan that has passed its due date.
    ///
    /// The borrower's performance bond is slashed and returned to the pool
    /// as compensation to lenders. The loan is marked as Defaulted.
    pub fn liquidate_loan(env: &mut ContractState, liquidator: &Address, loan_id: u64) -> (r: Result<(), Error>)
        requires
            old(env)@.initialized ==> liquidate_loan_fits(old(env)@, loan_id),
        ensures
            !old(env)@.initialized ==> r == Err::<(), Error>(Error::NotInitialized) && final(env)@ == old(env)@,
            old(env)@.initialized ==> r == spec_liquidate_loan(old(env)@, loan_id).0
                && final(env)@ == spec_liquidate_loan(old(env)@, loan_id).1,
            old(env)@.pools_balanced() ==> final(env)@.pools_balanced(),
            old(env)@.nullifiers_kept_in(final(env)@),
            old(env)@.ledger_consistent() ==> final(env)@.ledger_consistent(),
            old(env)@.initialized ==> final(env)@.initialized,
    {
        require_initialized(env)?;
        proof {
            if env@.ledger_consistent() {
                laws::lemma_liquidate_keeps_ledger(env@, loan_id);
            }
        }
        loan::liquidate_loan(env, liquidator, loan_id)
    }

    /// Returns the full loan data for a given loan ID.
    pub fn get_loan(env: &ContractState, loan_id: u64) -> (r: Result<LoanData, Error>)
        ensures
            !env@.initialized ==> r == Err::<LoanData, Error>(Error::NotInitialized),
            env@.initialized ==> r == (match env@.loan(loan_id) {
                Some(l) => Ok::<LoanData, Error>(l),
                None => Err(Error::LoanNotFound),
            }),
    {
        require_initialized(env)?;
        loan::get_loan(env, loan_id)
    }

    /// Returns the total number of loans created.
    pub fn get_loan_count(env: &ContractState) -> (r: Result<u64, Error>)
        ensures
            !env@.initialized ==> r == Err::<u64, Error>(Error::NotInitialized),
            env@.initialized ==> r == Ok::<u64, Error>(env@.loan_counter),
    {
        require_initialized(env)?;
        Ok(loan::get_loan_count(env))
    }

    // --- Admin ---

    /// Returns the contract admin address.
    pub fn get_admin(env: &ContractState) -> (r: Result<Address, Error>)
        ensures
            !env@.initialized ==> r == Err::<Address, Error>(Error::NotInitialized),
            env@.initialized ==> r == (match env@.admin {
                Some(a) => Ok::<Address, Error>(a),
                None => Err(Error::NotInitialized),
            }),
    {
        require_initialized(env)?;
        match env.admin {
            Some(a) => Ok(a),
            None => Err(Error::NotInitialized),
        }
    }
}

/// Verifies that the contract has been initialized.
pub fn require_initialized(env: &ContractState) -> (r: Result<(), Error>)
    ensures
        env@.initialized ==> r == Ok::<(), Error>(()),
        !env@.initialized ==> r == Err::<(), Error>(Error::NotInitialized),
{
    if !env.initialized {
        return Err(Error::NotInitialized);
    }
    Ok(())
}

} // verus!
