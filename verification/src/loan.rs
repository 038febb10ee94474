use vstd::prelude::*;

use crate::address::Address;
use crate::math::fits_i128;
use crate::pool::{deducted_stats, deduct_from_pool, return_to_pool, returned_stats};
use crate::state::{spec_transfer_asset, ContractState, ContractView};
use crate::types::{Asset, Error, LoanData, LoanStatus, Transfer, LOAN_TERM_SECS, SKIN_IN_GAME_BPS};
use crate::zk::spec_verify;
use crate::zk::types::PublicInputs;

verus! {

/// Transfers an asset between two addresses.
///
/// USDC moves through the USDC token contract: the transfer is requested, and
/// `NotInitialized` is returned when the token address is not stored. XLM
/// moves are tracked by the pool alone and request nothing.
pub fn transfer_asset(env: &mut ContractState, from: &Address, to: &Address, asset: &Asset, amount: i128) -> (r: Result<(), Error>)
    ensures
        match spec_transfer_asset(old(env)@, *from, *to, *asset, amount) {
            Ok(post) => r == Ok::<(), Error>(()) && final(env)@ == post,
            Err(e) => r == Err::<(), Error>(e) && final(env)@ == old(env)@,
        },
{
    match asset {
        Asset::USDC => {
            let token = match env.usdc_address {
                Some(a) => a,
                None => return Err(Error::NotInitialized),
            };
            env.push_transfer(Transfer { token, from: *from, to: *to, amount });
        },
        Asset::XLM => {},
    }
    Ok(())
}

/// Collects the skin-in-the-game bond from the borrower into the contract.
pub fn collect_bond(env: &mut ContractState, from: &Address, asset: &Asset, amount: i128) -> (r: Result<(), Error>)
    ensures
        match spec_transfer_asset(old(env)@, *from, old(env)@.current_contract, *asset, amount) {
            Ok(post) => r == Ok::<(), Error>(()) && final(env)@ == post,
            Err(e) => r == Err::<(), Error>(e) && final(env)@ == old(env)@,
        },
{
    let to = env.current_contract;
    transfer_asset(env, from, &to, asset, amount)
}

/// Collects a repayment from the borrower into the contract.
pub fn collect_repayment(env: &mut ContractState, from: &Address, asset: &Asset, amount: i128) -> (r: Result<(), Error>)
    ensures
        match spec_transfer_asset(old(env)@, *from, old(env)@.current_contract, *asset, amount) {
            Ok(post) => r == Ok::<(), Error>(()) && final(env)@ == post,
            Err(e) => r == Err::<(), Error>(e) && final(env)@ == old(env)@,
        },
{
    let to = env.current_contract;
    transfer_asset(env, from, &to, asset, amount)
}


/// Seconds in a year of 365.25 days.
pub const SECONDS_PER_YEAR: i128 = 31_557_600;

/// Simple interest on `principal` at `rate_bps` basis points per year from
/// `start_time` to `end_time`: `principal * rate_bps * elapsed / (seconds per
/// year * 10000)`, rounded down; 0 when no time elapsed or nothing is owed.
pub open spec fn spec_interest(principal: int, rate_bps: int, start_time: int, end_time: int) -> int {
    if end_time <= start_time || principal <= 0 {
        0
    } else {
        (principal * rate_bps * (end_time - start_time)) / (SECONDS_PER_YEAR * 10000)
    }
}

/// An interest computation that does not overflow (the contract panics otherwise).
pub open spec fn interest_fits(principal: int, rate_bps: int, start_time: int, end_time: int) -> bool {
    (end_time > start_time && principal > 0) ==> fits_i128(principal * rate_bps * (end_time - start_time))
}

/// Calculates simple interest accrued on a principal amount.
///
/// interest = principal * rate_bps * elapsed_seconds / (365.25 * 24 * 3600 * 10000)
pub fn calculate_interest(principal: i128, rate_bps: u32, start_time: u64, end_time: u64) -> (r: i128)
    requires
        interest_fits(principal as int, rate_bps as int, start_time as int, end_time as int),
    ensures
        r == spec_interest(principal as int, rate_bps as int, start_time as int, end_time as int),
        r >= 0,
{
    if end_time <= start_time || principal <= 0 {
        return 0;
    }
    let elapsed: i128 = (end_time - start_time) as i128;
    let seconds_per_year: i128 = SECONDS_PER_YEAR;
    let rate = rate_bps as i128;
    assert(0 <= principal * rate <= principal * rate * elapsed) by (nonlinear_arith)
        requires
            principal > 0,
            rate >= 0,
            elapsed >= 1,
    ;
    let numerator = principal * rate * elapsed;
    numerator / (seconds_per_year * 10000)
}

/// The skin-in-the-game bond for a loan of `amount`: 10%, rounded down.
pub open spec fn spec_bond(amount: int) -> int {
    (amount * SKIN_IN_GAME_BPS) / 10000
}

/// The loan created for `borrower` from verified public inputs `pi`.
pub open spec fn spec_new_loan(borrower: Address, asset: Asset, pi: PublicInputs, bond: int, now: u64) -> LoanData {
    LoanData {
        borrower,
        invoice_hash: pi.invoice_hash,
        loan_amount: pi.loan_amount,
        asset,
        skin_in_game: bond as i128,
        ltv_bps: pi.ltv_bps,
        interest_bps: pi.interest_bps,
        status: LoanStatus::Active,
        created_at: now,
        due_date: (now + LOAN_TERM_SECS) as u64,
        amount_repaid: 0,
        accrued_interest: 0,
        interest_repaid: 0,
    }
}

/// What [`request_loan`] returns and leaves in storage.
///
/// The proof is verified (its nullifier is then recorded by the verifier);
/// the loan takes its amount, LTV, interest rate and invoice hash from the
/// proof's public inputs; the nullifier is marked used; the amount leaves the
/// pool; the 10% bond is collected from the borrower; the loan is stored under
/// the next loan ID, due 90 days from now; and the amount is paid to the
/// borrower. Any failure leaves storage as it was.
pub open spec fn spec_request_loan(pre: ContractView, borrower: Address, asset: Asset, proof_bytes: Seq<u8>) -> (Result<u64, Error>, ContractView) {
    match spec_verify(pre.verifier, proof_bytes) {
        Err(_) => (Err(Error::ProofVerificationFailed), pre),
        Ok(pi) => {
            let amount = pi.loan_amount;
            let bond = spec_bond(amount as int);
            if amount <= 0 {
                (Err(Error::InvalidAmount), pre)
            } else if bond <= 0 {
                (Err(Error::InvalidSkinInGame), pre)
            } else if pre.nullifier_used(pi.nullifier) {
                (Err(Error::NullifierAlreadyUsed), pre)
            } else if pre.pool(asset).available_liquidity < amount {
                (Err(Error::InsufficientPoolLiquidity), pre)
            } else {
                let s1 = ContractView { verifier: pre.verifier.with_verified(pi.nullifier), ..pre }
                    .with_used_nullifier(pi.nullifier)
                    .with_pool(asset, deducted_stats(pre.pool(asset), amount as int));
                match spec_transfer_asset(s1, borrower, pre.current_contract, asset, bond as i128) {
                    Err(e) => (Err(e), pre),
                    Ok(s2) => {
                        let id = (pre.loan_counter + 1) as u64;
                        let s3 = ContractView { loan_counter: id, ..s2 }.with_loan(
                            id,
                            spec_new_loan(borrower, asset, pi, bond, pre.timestamp),
                        );
                        match spec_transfer_asset(s3, pre.current_contract, borrower, asset, amount) {
                            Err(e) => (Err(e), pre),
                            Ok(post) => (Ok(id), post),
                        }
                    },
                }
            }
        },
    }
}

/// A loan request only adds to the nullifier registries.
pub proof fn lemma_request_loan_keeps_nullifiers(pre: ContractView, borrower: Address, asset: Asset, proof_bytes: Seq<u8>)
    ensures
        pre.nullifiers_kept_in(spec_request_loan(pre, borrower, asset, proof_bytes).1),
{
    broadcast use vstd::seq_lib::lemma_seq_contains_after_push;

}

/// A [`request_loan`] that computes without overflow (the contract panics otherwise).
pub open spec fn request_loan_fits(pre: ContractView, asset: Asset, proof_bytes: Seq<u8>) -> bool {
    match spec_verify(pre.verifier, proof_bytes) {
        Err(_) => true,
        Ok(pi) => (pi.loan_amount > 0 && spec_bond(pi.loan_amount as int) > 0 && !pre.nullifier_used(
            pi.nullifier,
        ) && pre.pool(asset).available_liquidity >= pi.loan_amount && (asset == Asset::XLM
            || pre.usdc_address is Some)) ==> {
            &&& fits_i128(pre.pool(asset).total_lent + pi.loan_amount)
            &&& fits_i128(pre.pool(asset).available_liquidity - pi.loan_amount)
            &&& pre.loan_counter < u64::MAX
            &&& pre.timestamp + LOAN_TERM_SECS <= u64::MAX
        },
    }
}

/// Requests a new loan backed by a ZK-verified invoice.
///
/// The borrower provides a proof (`proof_bytes`: the proof followed by the
/// 256-byte serialized public inputs) and the Verification Key hash
/// (`vk_hash`). All loan parameters (amount, LTV, interest rate, invoice
/// hash, nullifier) come from the verified public inputs, so the borrower
/// cannot choose loan terms. A 10% performance bond is collected from the
/// borrower.
///
/// Returns the loan ID.
pub fn request_loan(env: &mut ContractState, borrower: &Address, asset: Asset, proof_bytes: &[u8], vk_hash: &[u8; 32]) -> (r: Result<u64, Error>)
    requires
        request_loan_fits(old(env)@, asset, proof_bytes@),
    ensures
        r == spec_request_loan(old(env)@, *borrower, asset, proof_bytes@).0,
        final(env)@ == spec_request_loan(old(env)@, *borrower, asset, proof_bytes@).1,
{
    let ghost pre = env@;
    // Verify the ZK proof and extract all public inputs
    let public_inputs = match crate::zk::verify(&mut env.verifier, proof_bytes, vk_hash) {
        Ok(pi) => pi,
        Err(_) => return Err(Error::ProofVerificationFailed),
    };

    let amount = public_inputs.loan_amount;
    let required_bond = (amount * SKIN_IN_GAME_BPS) / 10000;

    // Every check happens before storage changes; a failed check forgets the
    // nullifier that the verifier just recorded.
    let failure = if amount <= 0 {
        Some(Error::InvalidAmount)
    } else if required_bond <= 0 {
        Some(Error::InvalidSkinInGame)
    } else if env.is_nullifier_used(&public_inputs.nullifier) {
        Some(Error::NullifierAlreadyUsed)
    } else if env.pool(asset).available_liquidity < amount {
        Some(Error::InsufficientPoolLiquidity)
    } else if asset == Asset::USDC && env.usdc_address.is_none() {
        Some(Error::NotInitialized)
    } else {
        None
    };
    if let Some(e) = failure {
        env.verifier.verified_nullifiers.pop();
        assert(env.verifier.verified_nullifiers@ =~= pre.verifier.verified_nullifiers);
        return Err(e);
    }

    // Mark the nullifier used
    env.mark_nullifier_used(public_inputs.nullifier);

    // Deduct loan amount from pool
    deduct_from_pool(env, asset, amount)?;

    // Collect skin-in-the-game bond from borrower
    collect_bond(env, borrower, &asset, required_bond)?;

    // Generate loan ID
    let loan_id = increment_loan_counter(env);

    // Set loan due date (90 days from now)
    let created_at = env.timestamp;
    let due_date = created_at + LOAN_TERM_SECS;

    let loan_data = LoanData {
        borrower: *borrower,
        invoice_hash: public_inputs.invoice_hash,
        loan_amount: amount,
        asset,
        skin_in_game: required_bond,
        ltv_bps: public_inputs.ltv_bps,
        interest_bps: public_inputs.interest_bps,
        status: LoanStatus::Active,
        created_at,
        due_date,
        amount_repaid: 0,
        accrued_interest: 0,
        interest_repaid: 0,
    };
    env.set_loan(loan_id, loan_data);

    // Transfer loan amount to borrower
    let contract = env.current_contract;
    transfer_asset(env, &contract, borrower, &asset, amount)?;

    Ok(loan_id)
}

/// The total interest of `loan` at time `now`: locked at the first repayment,
/// and computed on the outstanding principal from creation until then.
pub open spec fn spec_locked_interest(loan: LoanData, now: u64) -> int {
    if loan.accrued_interest == 0 {
        spec_interest(
            loan.loan_amount - loan.amount_repaid,
            loan.interest_bps as int,
            loan.created_at as int,
            now as int,
        )
    } else {
        loan.accrued_interest as int
    }
}

/// The principal and the interest still owed on `loan` at time `now`.
pub open spec fn spec_owed(loan: LoanData, now: u64) -> (int, int) {
    (loan.loan_amount - loan.amount_repaid, spec_locked_interest(loan, now) - loan.interest_repaid)
}

/// `loan` after `amount` is paid at time `now`: the interest is locked, the
/// payment goes to the principal still owed first and the rest to interest.
pub open spec fn spec_paid_loan(loan: LoanData, now: u64, amount: int) -> LoanData {
    let principal_owed = spec_owed(loan, now).0;
    let principal = if amount <= principal_owed { amount } else { principal_owed };
    LoanData {
        amount_repaid: (loan.amount_repaid + principal) as i128,
        interest_repaid: (loan.interest_repaid + (amount - principal)) as i128,
        accrued_interest: spec_locked_interest(loan, now) as i128,
        ..loan
    }
}

/// Whether both the principal and the locked interest of `loan` are repaid.
pub open spec fn fully_repaid(loan: LoanData) -> bool {
    loan.amount_repaid >= loan.loan_amount && loan.interest_repaid >= loan.accrued_interest
}

/// What [`repay_loan`] returns and leaves in storage.
///
/// At most the principal plus the locked interest still owed is accepted.
/// The payment is collected from the borrower and goes to principal first,
/// then interest; all of it goes back to the pool. Once both the principal
/// and the locked interest are repaid, the bond is returned to the borrower
/// and the loan is marked Repaid. Any failure leaves storage as it was.
pub open spec fn spec_repay_loan(pre: ContractView, borrower: Address, loan_id: u64, amount: i128) -> (Result<(), Error>, ContractView) {
    match pre.loan(loan_id) {
        None => (Err(Error::LoanNotFound), pre),
        Some(loan) => if loan.borrower != borrower {
            (Err(Error::NotBorrower), pre)
        } else if loan.status != LoanStatus::Active {
            (Err(Error::LoanNotActive), pre)
        } else if amount <= 0 {
            (Err(Error::InvalidAmount), pre)
        } else if amount > spec_owed(loan, pre.timestamp).0 + spec_owed(loan, pre.timestamp).1 {
            (Err(Error::InvalidAmount), pre)
        } else {
            match spec_transfer_asset(pre, borrower, pre.current_contract, loan.asset, amount) {
                Err(e) => (Err(e), pre),
                Ok(s1) => {
                    let paid = spec_paid_loan(loan, pre.timestamp, amount as int);
                    let s2 = s1.with_pool(loan.asset, returned_stats(pre.pool(loan.asset), amount as int));
                    if fully_repaid(paid) {
                        match spec_transfer_asset(s2, pre.current_contract, borrower, loan.asset, loan.skin_in_game) {
                            Err(e) => (Err(e), pre),
                            Ok(s3) => (Ok(()), s3.with_loan(loan_id, LoanData { status: LoanStatus::Repaid, ..paid })),
                        }
                    } else {
                        (Ok(()), s2.with_loan(loan_id, paid))
                    }
                },
            }
        },
    }
}

/// A [`repay_loan`] that computes without overflow (the contract panics otherwise).
pub open spec fn repay_loan_fits(pre: ContractView, borrower: Address, loan_id: u64, amount: i128) -> bool {
    match pre.loan(loan_id) {
        None => true,
        Some(loan) => (loan.borrower == borrower && loan.status == LoanStatus::Active && amount > 0) ==> {
            let principal_owed = loan.loan_amount - loan.amount_repaid;
            let interest_owed = spec_locked_interest(loan, pre.timestamp) - loan.interest_repaid;
            let principal = if amount <= principal_owed { amount as int } else { principal_owed };
            let stats = pre.pool(loan.asset);
            &&& fits_i128(principal_owed)
            &&& loan.accrued_interest == 0 ==> interest_fits(
                principal_owed,
                loan.interest_bps as int,
                loan.created_at as int,
                pre.timestamp as int,
            )
            &&& fits_i128(interest_owed)
            &&& fits_i128(principal_owed + interest_owed)
            &&& amount <= principal_owed + interest_owed ==> {
                &&& fits_i128(amount - principal)
                &&& fits_i128(loan.amount_repaid + principal)
                &&& fits_i128(loan.interest_repaid + (amount - principal))
                &&& fits_i128(stats.available_liquidity + amount)
                &&& fits_i128(stats.total_lent - amount)
            }
        },
    }
}

/// Repays a loan with interest.
///
/// On first repayment, total interest is calculated and locked to prevent
/// recalculation drift across multiple partial payments. Payments are
/// applied to principal first, then interest; more than what is owed is
/// refused. Every payment goes back to the pool.
///
/// Once principal and interest are fully repaid, the performance bond is
/// returned to the borrower and the loan is marked as Repaid.
pub fn repay_loan(env: &mut ContractState, borrower: &Address, loan_id: u64, amount: i128) -> (r: Result<(), Error>)
    requires
        repay_loan_fits(old(env)@, *borrower, loan_id, amount),
    ensures
        r == spec_repay_loan(old(env)@, *borrower, loan_id, amount).0,
        final(env)@ == spec_repay_loan(old(env)@, *borrower, loan_id, amount).1,
{
    let mut loan = match env.find_loan(loan_id) {
        Some(l) => l,
        None => return Err(Error::LoanNotFound),
    };

    if !loan.borrower.same(borrower) {
        return Err(Error::NotBorrower);
    }

    if loan.status != LoanStatus::Active {
        return Err(Error::LoanNotActive);
    }

    if amount <= 0 {
        return Err(Error::InvalidAmount);
    }

    // Lock total interest on first repayment to prevent recalculation drift
    if loan.accrued_interest == 0 {
        let remaining = loan.loan_amount - loan.amount_repaid;
        loan.accrued_interest = calculate_interest(
            remaining,
            loan.interest_bps,
            loan.created_at,
            env.timestamp,
        );
    }

    let remaining_principal = loan.loan_amount - loan.amount_repaid;
    let remaining_interest = loan.accrued_interest - loan.interest_repaid;
    let total_owed = remaining_principal + remaining_interest;

    if amount > total_owed {
        return Err(Error::InvalidAmount);
    }

    // Collect repayment from borrower
    collect_repayment(env, borrower, &loan.asset, amount)?;

    // Split payment: principal first, then interest
    let principal_paid = if amount <= remaining_principal {
        amount
    } else {
        remaining_principal
    };
    let interest_paid = amount - principal_paid;

    loan.amount_repaid = loan.amount_repaid + principal_paid;
    loan.interest_repaid = loan.interest_repaid + interest_paid;

    // What was received goes back to available liquidity
    return_to_pool(env, loan.asset, amount)?;

    if loan.amount_repaid >= loan.loan_amount && loan.interest_repaid >= loan.accrued_interest {
        // Fully repaid: return bond, mark repaid
        let contract = env.current_contract;
        transfer_asset(env, &contract, borrower, &loan.asset, loan.skin_in_game)?;

        loan.status = LoanStatus::Repaid;
    }

    env.set_loan(loan_id, loan);

    Ok(())
}

/// What [`liquidate_loan`] returns and leaves in storage: an active loan
/// past its due date has its bond returned to the pool and is marked
/// Defaulted.
pub open spec fn spec_liquidate_loan(pre: ContractView, loan_id: u64) -> (Result<(), Error>, ContractView) {
    match pre.loan(loan_id) {
        None => (Err(Error::LoanNotFound), pre),
        Some(loan) => if loan.status != LoanStatus::Active {
            (Err(Error::LoanNotActive), pre)
        } else if pre.timestamp < loan.due_date {
            (Err(Error::LoanNotDue), pre)
        } else {
            (
                Ok(()),
                pre.with_pool(loan.asset, returned_stats(pre.pool(loan.asset), loan.skin_in_game as int))
                    .with_loan(loan_id, LoanData { status: LoanStatus::Defaulted, ..loan }),
            )
        },
    }
}

/// A [`liquidate_loan`] that computes without overflow (the contract panics otherwise).
pub open spec fn liquidate_loan_fits(pre: ContractView, loan_id: u64) -> bool {
    match pre.loan(loan_id) {
        None => true,
        Some(loan) => (loan.status == LoanStatus::Active && pre.timestamp >= loan.due_date) ==> {
            &&& fits_i128(pre.pool(loan.asset).available_liquidity + loan.skin_in_game)
            &&& fits_i128(pre.pool(loan.asset).total_lent - loan.skin_in_game)
        },
    }
}

/// Liquidates a loan that has passed its due date.
///
/// The borrower's performance bond is slashed and returned to the pool
/// as compensation to lenders. The loan is marked as Defaulted.
pub fn liquidate_loan(env: &mut ContractState, liquidator: &Address, loan_id: u64) -> (r: Result<(), Error>)
    requires
        liquidate_loan_fits(old(env)@, loan_id),
    ensures
        r == spec_liquidate_loan(old(env)@, loan_id).0,
        final(env)@ == spec_liquidate_loan(old(env)@, loan_id).1,
{
    let mut loan = match env.find_loan(loan_id) {
        Some(l) => l,
        None => return Err(Error::LoanNotFound),
    };

    if loan.status != LoanStatus::Active {
        return Err(Error::LoanNotActive);
    }

    // Check if loan is past due
    let current_time = env.timestamp;
    if current_time < loan.due_date {
        return Err(Error::LoanNotDue);
    }

    // Slash the bond: return it to pool as compensation to lenders
    return_to_pool(env, loan.asset, loan.skin_in_game)?;

    loan.status = LoanStatus::Defaulted;
    env.set_loan(loan_id, loan);

    Ok(())
}

/// Whether [`request_loan`] computes without overflow for these arguments.
pub fn request_loan_in_range(env: &ContractState, asset: Asset, proof_bytes: &[u8]) -> (r: bool)
    ensures
        r == request_loan_fits(env@, asset, proof_bytes@),
{
    let pi = match crate::zk::check_proof(&env.verifier, proof_bytes) {
        Err(_) => return true,
        Ok(pi) => pi,
    };
    let amount = pi.loan_amount;
    if amount <= 0 {
        return true;
    }
    let bond = (amount * SKIN_IN_GAME_BPS) / 10000;
    if bond <= 0 {
        return true;
    }
    if env.is_nullifier_used(&pi.nullifier) {
        return true;
    }
    let stats = env.pool(asset);
    if stats.available_liquidity < amount {
        return true;
    }
    if asset == Asset::USDC && env.usdc_address.is_none() {
        return true;
    }
    stats.total_lent.checked_add(amount).is_some() && stats.available_liquidity.checked_sub(amount).is_some()
        && env.loan_counter < u64::MAX && env.timestamp.checked_add(LOAN_TERM_SECS).is_some()
}

/// Whether [`repay_loan`] computes without overflow for these arguments.
pub fn repay_loan_in_range(env: &ContractState, borrower: &Address, loan_id: u64, amount: i128) -> (r: bool)
    ensures
        r == repay_loan_fits(env@, *borrower, loan_id, amount),
{
    let loan = match env.find_loan(loan_id) {
        None => return true,
        Some(l) => l,
    };
    if !(loan.borrower.same(borrower) && loan.status == LoanStatus::Active && amount > 0) {
        return true;
    }
    let remaining = match loan.loan_amount.checked_sub(loan.amount_repaid) {
        None => return false,
        Some(x) => x,
    };
    let accrued = if loan.accrued_interest == 0 {
        if env.timestamp > loan.created_at && remaining > 0 {
            let elapsed: i128 = (env.timestamp - loan.created_at) as i128;
            let rate = loan.interest_bps as i128;
            match remaining.checked_mul(rate) {
                None => {
                    assert(!fits_i128(remaining * rate * elapsed)) by (nonlinear_arith)
                        requires
                            !fits_i128(remaining * rate),
                            remaining > 0,
                            rate >= 0,
                            elapsed >= 1,
                    ;
                    return false;
                },
                Some(x) => if x.checked_mul(elapsed).is_none() {
                    return false;
                },
            }
        }
        calculate_interest(remaining, loan.interest_bps, loan.created_at, env.timestamp)
    } else {
        loan.accrued_interest
    };
    let interest_owed = match accrued.checked_sub(loan.interest_repaid) {
        None => return false,
        Some(x) => x,
    };
    let owed = match remaining.checked_add(interest_owed) {
        None => return false,
        Some(x) => x,
    };
    if amount > owed {
        return true;
    }
    let principal = if amount <= remaining {
        amount
    } else {
        remaining
    };
    let interest = match amount.checked_sub(principal) {
        None => return false,
        Some(x) => x,
    };
    let stats = env.pool(loan.asset);
    loan.amount_repaid.checked_add(principal).is_some() && loan.interest_repaid.checked_add(interest).is_some()
        && stats.available_liquidity.checked_add(amount).is_some() && stats.total_lent.checked_sub(
        amount,
    ).is_some()
}

/// Whether [`liquidate_loan`] computes without overflow for these arguments.
pub fn liquidate_loan_in_range(env: &ContractState, loan_id: u64) -> (r: bool)
    ensures
        r == liquidate_loan_fits(env@, loan_id),
{
    let loan = match env.find_loan(loan_id) {
        None => return true,
        Some(l) => l,
    };
    if loan.status != LoanStatus::Active || env.timestamp < loan.due_date {
        return true;
    }
    let stats = env.pool(loan.asset);
    stats.available_liquidity.checked_add(loan.skin_in_game).is_some() && stats.total_lent.checked_sub(
        loan.skin_in_game,
    ).is_some()
}

/// Increments the loan counter and returns the new value (the next loan ID).
pub fn increment_loan_counter(env: &mut ContractState) -> (r: u64)
    requires
        old(env)@.loan_counter < u64::MAX,
    ensures
        r == old(env)@.loan_counter + 1,
        final(env)@ == (ContractView { loan_counter: r, ..old(env)@ }),
{
    let count = env.loan_counter + 1;
    env.loan_counter = count;
    count
}

/// Returns the loan data for a given loan ID; `LoanNotFound` when there is none.
pub fn get_loan(env: &ContractState, loan_id: u64) -> (r: Result<LoanData, Error>)
    ensures
        r == (match env@.loan(loan_id) {
            Some(l) => Ok::<LoanData, Error>(l),
            None => Err(Error::LoanNotFound),
        }),
{
    match env.find_loan(loan_id) {
        Some(l) => Ok(l),
        None => Err(Error::LoanNotFound),
    }
}

/// Returns the current loan counter value (the number of loans created).
pub fn get_loan_count(env: &ContractState) -> (r: u64)
    ensures
        r == env@.loan_counter,
{
    env.loan_counter
}

} // verus!
