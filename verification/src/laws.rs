//! Properties of the library that span several calls.
use vstd::prelude::*;

use crate::address::Address;
use crate::contract::spec_init;
use crate::loan::{
    fully_repaid, liquidate_loan_fits, repay_loan_fits, request_loan_fits, spec_bond, spec_liquidate_loan, spec_locked_interest,
    spec_owed, spec_paid_loan, spec_repay_loan, spec_request_loan,
};
use crate::math::trunc_div;
use crate::pool::{
    deducted_stats, deposit_fits, deposited_stats, returned_stats, spec_deposit, spec_deposit_shares, spec_withdraw,
    spec_withdraw_amount, withdraw_fits, withdrawn_stats,
};
use crate::state::{
    current_shares, latest_loan, lemma_shares_total_bounds, lemma_shares_total_push, shares_total, ContractView,
    LoanRecord, PositionRecord,
};
use crate::types::{Asset, Error, LoanData, LoanStatus, PoolPosition, PoolStats, LOAN_TERM_SECS};
use crate::zk::types::{Error as VerifierError, VerifierView};
use crate::zk::honk::spec_verify_and_check_nullifier;
use crate::zk::inputs::{
    encode_public_inputs, encodes, field_bytes, lemma_encodes_unique, spec_extract_public_inputs,
    spec_public_inputs,
};
use crate::math::{le_bytes, lemma_le_bytes_prefix, lemma_le_bytes_roundtrip, pow256};
use crate::zk::types::PublicInputs;
use crate::zk::{proof_public_part, spec_verify};

verus! {

/// Reading a position right after writing it gives what was written; other
/// positions read as before.
pub proof fn lemma_position_after_write(v: ContractView, lender: Address, asset: Asset, p: PoolPosition, other: Address, other_asset: Asset)
    ensures
        v.with_position(lender, asset, p).position(other, other_asset) == (if other == lender && other_asset == asset {
            p
        } else {
            v.position(other, other_asset)
        }),
{
    let s = v.positions.push(PositionRecord { lender, asset, position: p });
    assert(s.drop_last() =~= v.positions);
}

/// Reading a loan right after writing it gives what was written; other
/// loans read as before.
pub proof fn lemma_loan_after_write(v: ContractView, id: u64, loan: LoanData, other: u64)
    ensures
        v.with_loan(id, loan).loan(other) == (if other == id {
            Some(loan)
        } else {
            v.loan(other)
        }),
{
    let s = v.loans.push(LoanRecord { id, loan });
    assert(s.drop_last() =~= v.loans);
}

/// Depositing into an empty pool mints exactly the amount deposited as
/// shares, and burning those shares right after pays the amount back and
/// leaves the pool empty again (for amounts whose square fits in an `i128`:
/// the withdrawal computes `shares * deposits`).
pub proof fn lemma_deposit_withdraw_roundtrip(pre: ContractView, lender: Address, asset: Asset, amount: i128)
    requires
        pre.pool(asset) == PoolStats::spec_empty(),
        pre.position(lender, asset) == PoolPosition::spec_empty(),
        amount > 0,
        amount * amount <= i128::MAX,
        asset == Asset::XLM || pre.usdc_address is Some,
    ensures
        deposit_fits(pre, lender, asset, amount),
        spec_deposit(pre, lender, asset, amount).0 == Ok::<i128, Error>(amount),
        withdraw_fits(spec_deposit(pre, lender, asset, amount).1, lender, asset, amount),
        spec_withdraw(spec_deposit(pre, lender, asset, amount).1, lender, asset, amount).0 == Ok::<i128, Error>(amount),
        spec_withdraw(spec_deposit(pre, lender, asset, amount).1, lender, asset, amount).1.pool(asset)
            == PoolStats::spec_empty(),
{
    let mid = spec_deposit(pre, lender, asset, amount).1;
    let moved = match asset {
        Asset::USDC => pre.with_transfer(crate::types::Transfer { token: pre.usdc_address->0, from: lender, to: pre.current_contract, amount }),
        Asset::XLM => pre,
    };
    lemma_position_after_write(
        moved.with_pool(asset, PoolStats { total_deposits: amount, total_shares: amount, total_lent: 0, available_liquidity: amount }),
        lender,
        asset,
        PoolPosition { deposit_amount: amount, shares: amount },
        lender,
        asset,
    );
    assert(mid.position(lender, asset) == PoolPosition { deposit_amount: amount, shares: amount });
    assert(mid.pool(asset) == PoolStats { total_deposits: amount, total_shares: amount, total_lent: 0, available_liquidity: amount });
    assert((amount as int * amount as int) / (amount as int) == amount as int) by (nonlinear_arith)
        requires
            amount > 0,
    ;
    assert(trunc_div(amount as int * amount as int, amount as int) == amount);
}

/// A nullifier pays out at most one loan: once a loan request succeeded,
/// every later request whose proof carries the same nullifier is refused
/// with `ProofVerificationFailed`, as long as the registries kept what they
/// held (every contract entry point keeps them).
pub proof fn lemma_nullifier_single_use(
    pre: ContractView,
    borrower: Address,
    asset: Asset,
    proof_bytes: Seq<u8>,
    later: ContractView,
    borrower2: Address,
    asset2: Asset,
    proof_bytes2: Seq<u8>,
)
    requires
        spec_request_loan(pre, borrower, asset, proof_bytes).0 is Ok,
        spec_request_loan(pre, borrower, asset, proof_bytes).1.nullifiers_kept_in(later),
        proof_bytes2.len() >= 256,
        spec_public_inputs(proof_public_part(proof_bytes2)).nullifier == spec_public_inputs(
            proof_public_part(proof_bytes),
        ).nullifier,
    ensures
        spec_request_loan(later, borrower2, asset2, proof_bytes2).0 == Err::<u64, Error>(Error::ProofVerificationFailed),
        spec_request_loan(later, borrower2, asset2, proof_bytes2).1 == later,
{
    broadcast use vstd::seq_lib::lemma_seq_contains_after_push;

    let n = spec_public_inputs(proof_public_part(proof_bytes)).nullifier;
    let post = spec_request_loan(pre, borrower, asset, proof_bytes).1;
    assert(post.verifier.is_verified(n));
    assert(later.verifier.is_verified(n));
}

/// The verifier accepts given public inputs once: after a successful check,
/// the same public inputs are refused with `NullifierAlreadyVerified`.
pub proof fn lemma_verifier_nullifier_single_use(env: VerifierView, public_inputs_bytes: Seq<u8>, vk_bytes: Seq<u8>)
    requires
        spec_verify_and_check_nullifier(env, public_inputs_bytes, vk_bytes) is Ok,
    ensures
        spec_verify_and_check_nullifier(
            env.with_verified(spec_verify_and_check_nullifier(env, public_inputs_bytes, vk_bytes)->Ok_0.nullifier),
            public_inputs_bytes,
            vk_bytes,
        ) == Err::<crate::zk::types::PublicInputs, VerifierError>(VerifierError::NullifierAlreadyVerified),
{
    broadcast use vstd::seq_lib::lemma_seq_contains_after_push;

}

/// The same holds of combined proofs given to the lending contract's verifier.
pub proof fn lemma_combined_proof_single_use(env: VerifierView, proof_bytes: Seq<u8>)
    requires
        spec_verify(env, proof_bytes) is Ok,
    ensures
        spec_verify(env.with_verified(spec_verify(env, proof_bytes)->Ok_0.nullifier), proof_bytes)
            == Err::<crate::zk::types::PublicInputs, VerifierError>(VerifierError::NullifierAlreadyVerified),
{
    broadcast use vstd::seq_lib::lemma_seq_contains_after_push;

}

/// A call that fails changes nothing: no storage write and no transfer.
pub proof fn lemma_failed_calls_change_nothing(
    pre: ContractView,
    who: Address,
    other: Address,
    asset: Asset,
    amount: i128,
    loan_id: u64,
    proof_bytes: Seq<u8>,
)
    ensures
        spec_init(pre, who, other).0 is Err ==> spec_init(pre, who, other).1 == pre,
        spec_deposit(pre, who, asset, amount).0 is Err ==> spec_deposit(pre, who, asset, amount).1 == pre,
        spec_withdraw(pre, who, asset, amount).0 is Err ==> spec_withdraw(pre, who, asset, amount).1 == pre,
        spec_request_loan(pre, who, asset, proof_bytes).0 is Err ==> spec_request_loan(pre, who, asset, proof_bytes).1
            == pre,
        spec_repay_loan(pre, who, loan_id, amount).0 is Err ==> spec_repay_loan(pre, who, loan_id, amount).1 == pre,
        spec_liquidate_loan(pre, loan_id).0 is Err ==> spec_liquidate_loan(pre, loan_id).1 == pre,
{
}

/// A loan that is no longer active (repaid or defaulted) is final: neither
/// repayment nor liquidation succeeds or changes anything.
pub proof fn lemma_settled_loan_is_final(pre: ContractView, loan_id: u64, borrower: Address, amount: i128)
    requires
        pre.loan(loan_id) matches Some(l) && l.status != LoanStatus::Active,
    ensures
        spec_repay_loan(pre, borrower, loan_id, amount).0 is Err,
        spec_repay_loan(pre, borrower, loan_id, amount).1 == pre,
        spec_liquidate_loan(pre, loan_id) == (Err::<(), Error>(Error::LoanNotActive), pre),
{
}

/// A loan cannot be liquidated before its due date.
pub proof fn lemma_no_liquidation_before_due(pre: ContractView, loan_id: u64)
    requires
        pre.loan(loan_id) matches Some(l) && l.status == LoanStatus::Active && pre.timestamp < l.due_date,
    ensures
        spec_liquidate_loan(pre, loan_id) == (Err::<(), Error>(Error::LoanNotDue), pre),
{
}

/// Serializing public inputs and extracting them back gives the same values,
/// for every loan amount that the circuit can output (a `u64`).
pub proof fn lemma_public_inputs_roundtrip(pi: PublicInputs)
    requires
        0 <= pi.loan_amount < 0x1_0000_0000_0000_0000,
    ensures
        spec_extract_public_inputs(encode_public_inputs(pi)) == Ok::<PublicInputs, VerifierError>(pi),
{
    broadcast use vstd::array::group_array_axioms;

    crate::math::lemma_le_bytes_len(pi.loan_amount as nat, 32);
    crate::math::lemma_le_bytes_len(pi.ltv_bps as nat, 32);
    crate::math::lemma_le_bytes_len(pi.interest_bps as nat, 32);
    let b = encode_public_inputs(pi);
    assert(b.len() == 256);
    assert(field_bytes(b, 0) =~= pi.invoice_hash@);
    assert(field_bytes(b, 1) =~= le_bytes(pi.loan_amount as nat, 32));
    assert(field_bytes(b, 2) =~= pi.provider_response_hash@);
    assert(field_bytes(b, 3) =~= pi.nullifier@);
    assert(field_bytes(b, 4) =~= le_bytes(pi.ltv_bps as nat, 32));
    assert(field_bytes(b, 5) =~= le_bytes(pi.interest_bps as nat, 32));
    reveal_with_fuel(pow256, 9);
    lemma_le_bytes_prefix(pi.loan_amount as nat, 32, 8);
    lemma_le_bytes_roundtrip(pi.loan_amount as nat, 8);
    lemma_le_bytes_prefix(pi.ltv_bps as nat, 32, 4);
    lemma_le_bytes_roundtrip(pi.ltv_bps as nat, 4);
    lemma_le_bytes_prefix(pi.interest_bps as nat, 32, 4);
    lemma_le_bytes_roundtrip(pi.interest_bps as nat, 4);
    assert(encodes(b, pi));
    lemma_encodes_unique(b, pi, spec_public_inputs(b));
}

/// A successful loan request issues the next loan ID and stores under it an
/// active loan to the borrower with the amount, rates and invoice hash of the
/// proof's public inputs, a 10% bond, nothing repaid, due 90 days from now;
/// the proof's nullifier is then used, and the amount has left the pool.
pub proof fn lemma_loan_issued(pre: ContractView, borrower: Address, asset: Asset, proof_bytes: Seq<u8>)
    requires
        spec_request_loan(pre, borrower, asset, proof_bytes).0 is Ok,
        request_loan_fits(pre, asset, proof_bytes),
    ensures
        ({
            let (r, post) = spec_request_loan(pre, borrower, asset, proof_bytes);
            let pi = spec_verify(pre.verifier, proof_bytes)->Ok_0;
            let id = (pre.loan_counter + 1) as u64;
            &&& r == Ok::<u64, Error>(id)
            &&& post.loan_counter == id
            &&& post.loan(id) matches Some(l) && {
                &&& l.borrower == borrower
                &&& l.asset == asset
                &&& l.status == LoanStatus::Active
                &&& l.loan_amount == pi.loan_amount
                &&& l.invoice_hash == pi.invoice_hash
                &&& l.ltv_bps == pi.ltv_bps
                &&& l.interest_bps == pi.interest_bps
                &&& l.skin_in_game == spec_bond(pi.loan_amount as int)
                &&& l.skin_in_game * 10 <= l.loan_amount < (l.skin_in_game + 1) * 10
                &&& l.created_at == pre.timestamp
                &&& l.due_date == pre.timestamp + 7_776_000
                &&& l.amount_repaid == 0
                &&& l.accrued_interest == 0
            }
            &&& post.nullifier_used(pi.nullifier)
            &&& post.verifier.is_verified(pi.nullifier)
            &&& post.pool(asset).available_liquidity == pre.pool(asset).available_liquidity - pi.loan_amount
            &&& post.pool(asset).total_lent == pre.pool(asset).total_lent + pi.loan_amount
        }),
{
    broadcast use vstd::seq_lib::lemma_seq_contains_after_push;

    let pi = spec_verify(pre.verifier, proof_bytes)->Ok_0;
    let id = (pre.loan_counter + 1) as u64;
    let bond = spec_bond(pi.loan_amount as int);
    let s1 = ContractView { verifier: pre.verifier.with_verified(pi.nullifier), ..pre }
        .with_used_nullifier(pi.nullifier)
        .with_pool(asset, deducted_stats(pre.pool(asset), pi.loan_amount as int));
    let s2 = crate::state::spec_transfer_asset(s1, borrower, pre.current_contract, asset, bond as i128)->Ok_0;
    let loan = crate::loan::spec_new_loan(borrower, asset, pi, bond, pre.timestamp);
    lemma_loan_after_write(ContractView { loan_counter: id, ..s2 }, id, loan, id);
}

/// The loan that a successful repayment leaves in storage: the loan paid as
/// [`spec_paid_loan`] says, marked Repaid when that clears both principal and
/// locked interest.
pub proof fn lemma_repaid_loan_stored(pre: ContractView, borrower: Address, loan_id: u64, amount: i128)
    requires
        spec_repay_loan(pre, borrower, loan_id, amount).0 is Ok,
    ensures
        ({
            let l = pre.loan(loan_id)->Some_0;
            let paid = spec_paid_loan(l, pre.timestamp, amount as int);
            let post = spec_repay_loan(pre, borrower, loan_id, amount).1;
            post.loan(loan_id) == Some(
                if fully_repaid(paid) {
                    LoanData { status: LoanStatus::Repaid, ..paid }
                } else {
                    paid
                },
            )
        }),
{
    let l = pre.loan(loan_id)->Some_0;
    let paid = spec_paid_loan(l, pre.timestamp, amount as int);
    let s1 = crate::state::spec_transfer_asset(pre, borrower, pre.current_contract, l.asset, amount)->Ok_0;
    let s2 = s1.with_pool(l.asset, returned_stats(pre.pool(l.asset), amount as int));
    if fully_repaid(paid) {
        let s3 = crate::state::spec_transfer_asset(s2, pre.current_contract, borrower, l.asset, l.skin_in_game)->Ok_0;
        lemma_loan_after_write(s3, loan_id, LoanData { status: LoanStatus::Repaid, ..paid }, loan_id);
    } else {
        lemma_loan_after_write(s2, loan_id, paid, loan_id);
    }
}

/// Every successful repayment is collected whole and goes back to the pool:
/// available liquidity grows and total lent shrinks by the payment, and the
/// principal and interest repaid on the loan grow by it together.
pub proof fn lemma_repayment_returns_to_pool(pre: ContractView, borrower: Address, loan_id: u64, amount: i128)
    requires
        spec_repay_loan(pre, borrower, loan_id, amount).0 is Ok,
        repay_loan_fits(pre, borrower, loan_id, amount),
    ensures
        ({
            let l = pre.loan(loan_id)->Some_0;
            let post = spec_repay_loan(pre, borrower, loan_id, amount).1;
            &&& post.pool(l.asset).available_liquidity == pre.pool(l.asset).available_liquidity + amount
            &&& post.pool(l.asset).total_lent == pre.pool(l.asset).total_lent - amount
            &&& post.loan(loan_id) matches Some(l2) && l2.amount_repaid + l2.interest_repaid == l.amount_repaid
                + l.interest_repaid + amount
        }),
{
    lemma_repaid_loan_stored(pre, borrower, loan_id, amount);
}

/// Repaying, in one payment, the principal and the locked interest still
/// owed closes the loan: it is marked Repaid with its whole amount and
/// interest repaid, and for USDC the last transfer requested returns the
/// bond to the borrower.
pub proof fn lemma_full_repayment_closes_loan(pre: ContractView, borrower: Address, loan_id: u64, amount: i128)
    requires
        pre.loan(loan_id) matches Some(l) && {
            &&& spec_owed(l, pre.timestamp).0 >= 0
            &&& spec_owed(l, pre.timestamp).1 >= 0
            &&& amount == spec_owed(l, pre.timestamp).0 + spec_owed(l, pre.timestamp).1
        },
        spec_repay_loan(pre, borrower, loan_id, amount).0 is Ok,
        repay_loan_fits(pre, borrower, loan_id, amount),
    ensures
        ({
            let l = pre.loan(loan_id)->Some_0;
            let post = spec_repay_loan(pre, borrower, loan_id, amount).1;
            &&& post.loan(loan_id) matches Some(l2) && {
                &&& l2.status == LoanStatus::Repaid
                &&& l2.amount_repaid == l.loan_amount
                &&& l2.accrued_interest == spec_locked_interest(l, pre.timestamp)
                &&& l2.interest_repaid == l2.accrued_interest
            }
            &&& l.asset == Asset::USDC ==> post.transfers.last() == crate::types::Transfer {
                token: pre.usdc_address->Some_0,
                from: pre.current_contract,
                to: borrower,
                amount: l.skin_in_game,
            }
        }),
{
    lemma_repaid_loan_stored(pre, borrower, loan_id, amount);
}

/// A payment of less than what is still owed leaves the loan active and the
/// bond held: the only transfer requested collects the payment.
pub proof fn lemma_partial_repayment_keeps_loan_active(pre: ContractView, borrower: Address, loan_id: u64, amount: i128)
    requires
        pre.loan(loan_id) matches Some(l) && {
            &&& spec_owed(l, pre.timestamp).0 >= 0
            &&& spec_owed(l, pre.timestamp).1 >= 0
            &&& amount < spec_owed(l, pre.timestamp).0 + spec_owed(l, pre.timestamp).1
        },
        spec_repay_loan(pre, borrower, loan_id, amount).0 is Ok,
        repay_loan_fits(pre, borrower, loan_id, amount),
    ensures
        ({
            let l = pre.loan(loan_id)->Some_0;
            let post = spec_repay_loan(pre, borrower, loan_id, amount).1;
            &&& post.loan(loan_id) matches Some(l2) && l2.status == LoanStatus::Active
            &&& post.transfers == crate::state::spec_transfer_asset(
                pre,
                borrower,
                pre.current_contract,
                l.asset,
                amount,
            )->Ok_0.transfers
        }),
{
    lemma_repaid_loan_stored(pre, borrower, loan_id, amount);
}

/// Interest is locked at the first repayment: after a successful repayment
/// the loan holds the interest computed then, and a loan that already held
/// interest keeps it whatever the time.
pub proof fn lemma_interest_locked(pre: ContractView, borrower: Address, loan_id: u64, amount: i128)
    requires
        spec_repay_loan(pre, borrower, loan_id, amount).0 is Ok,
        repay_loan_fits(pre, borrower, loan_id, amount),
    ensures
        ({
            let l = pre.loan(loan_id)->Some_0;
            let post = spec_repay_loan(pre, borrower, loan_id, amount).1;
            &&& post.loan(loan_id) matches Some(l2) && l2.accrued_interest == spec_locked_interest(l, pre.timestamp)
            &&& l.accrued_interest != 0 ==> post.loan(loan_id)->Some_0.accrued_interest == l.accrued_interest
            &&& l.accrued_interest == 0 ==> post.loan(loan_id)->Some_0.accrued_interest == crate::loan::spec_interest(
                l.loan_amount - l.amount_repaid,
                l.interest_bps as int,
                l.created_at as int,
                pre.timestamp as int,
            )
        }),
{
    lemma_repaid_loan_stored(pre, borrower, loan_id, amount);
}

/// Payments go to principal first: a successful repayment adds to the
/// repaid principal the payment or, when that is more, what principal was
/// outstanding, and the rest of the payment to the repaid interest.
pub proof fn lemma_principal_first(pre: ContractView, borrower: Address, loan_id: u64, amount: i128)
    requires
        spec_repay_loan(pre, borrower, loan_id, amount).0 is Ok,
        repay_loan_fits(pre, borrower, loan_id, amount),
    ensures
        ({
            let l = pre.loan(loan_id)->Some_0;
            let remaining = l.loan_amount - l.amount_repaid;
            let principal = if amount <= remaining { amount as int } else { remaining };
            let post = spec_repay_loan(pre, borrower, loan_id, amount).1;
            post.loan(loan_id) matches Some(l2) && l2.amount_repaid == l.amount_repaid + principal
                && l2.interest_repaid == l.interest_repaid + (amount - principal)
        }),
{
    lemma_repaid_loan_stored(pre, borrower, loan_id, amount);
}

/// Liquidating a loan past its due date slashes its bond into the pool:
/// available liquidity grows by the bond, and the loan is marked Defaulted.
pub proof fn lemma_liquidation_slashes_bond(pre: ContractView, loan_id: u64)
    requires
        spec_liquidate_loan(pre, loan_id).0 is Ok,
        liquidate_loan_fits(pre, loan_id),
    ensures
        ({
            let l = pre.loan(loan_id)->Some_0;
            let post = spec_liquidate_loan(pre, loan_id).1;
            &&& pre.timestamp >= l.due_date
            &&& post.loan(loan_id) matches Some(l2) && l2.status == LoanStatus::Defaulted
            &&& post.pool(l.asset).available_liquidity == pre.pool(l.asset).available_liquidity + l.skin_in_game
            &&& post.pool(l.asset).total_lent == pre.pool(l.asset).total_lent - l.skin_in_game
            &&& post.transfers == pre.transfers
        }),
{
    let l = pre.loan(loan_id)->Some_0;
    lemma_loan_after_write(
        pre.with_pool(l.asset, returned_stats(pre.pool(l.asset), l.skin_in_game as int)),
        loan_id,
        LoanData { status: LoanStatus::Defaulted, ..l },
        loan_id,
    );
}

/// With no negative bond written, the loan stored under `id` holds none.
proof fn lemma_stored_bond_nonneg(s: Seq<LoanRecord>, id: u64)
    requires
        forall|i: int| 0 <= i < s.len() ==> (#[trigger] s[i]).loan.skin_in_game >= 0,
    ensures
        latest_loan(s, id) matches Some(l) ==> l.skin_in_game >= 0,
    decreases s.len(),
{
    if s.len() > 0 {
        let rest = s.drop_last();
        assert forall|i: int| 0 <= i < rest.len() implies (#[trigger] rest[i]).loan.skin_in_game >= 0 by {
            assert(rest[i] == s[i]);
        }
        lemma_stored_bond_nonneg(rest, id);
    }
}

/// Burning `share_amount` of `total_shares` shares pays at most the deposits,
/// and all of them exactly when every share is burnt.
proof fn lemma_share_payout(share_amount: int, total_deposits: int, total_shares: int)
    requires
        0 < share_amount <= total_shares,
        total_deposits > 0,
    ensures
        0 <= (share_amount * total_deposits) / total_shares <= total_deposits,
        ((share_amount * total_deposits) / total_shares == total_deposits) <==> (share_amount == total_shares),
{
    assert(0 <= (share_amount * total_deposits) / total_shares <= total_deposits) by (nonlinear_arith)
        requires
            0 < share_amount <= total_shares,
            total_deposits > 0,
    ;
    if share_amount == total_shares {
        assert((share_amount * total_deposits) / total_shares == total_deposits) by (nonlinear_arith)
            requires
                share_amount == total_shares,
                total_shares > 0,
        ;
    } else {
        assert((share_amount * total_deposits) / total_shares < total_deposits) by (nonlinear_arith)
            requires
                0 < share_amount < total_shares,
                total_deposits > 0,
        ;
    }
}

/// A write of a position with no negative shares keeps every position
/// written free of negative shares.
proof fn lemma_shares_nonneg_push(s: Seq<PositionRecord>, rec: PositionRecord, asset: Asset)
    requires
        crate::state::shares_nonneg(s, asset),
        rec.asset == asset ==> rec.position.shares >= 0,
    ensures
        crate::state::shares_nonneg(s.push(rec), asset),
{
    let t = s.push(rec);
    assert forall|i: int| 0 <= i < t.len() && (#[trigger] t[i]).asset == asset implies t[i].position.shares >= 0 by {
        if i < s.len() {
            assert(t[i] == s[i]);
        }
    }
}

/// A fresh contract's ledger is consistent, and initialization keeps it so.
pub proof fn lemma_init_keeps_ledger(pre: ContractView, admin: Address, usdc_address: Address)
    requires
        pre.ledger_consistent(),
    ensures
        spec_init(pre, admin, usdc_address).1.ledger_consistent(),
{
}

/// A deposit keeps the ledger consistent.
pub proof fn lemma_deposit_keeps_ledger(pre: ContractView, lender: Address, asset: Asset, amount: i128)
    requires
        pre.ledger_consistent(),
        deposit_fits(pre, lender, asset, amount),
    ensures
        spec_deposit(pre, lender, asset, amount).1.ledger_consistent(),
{
    if spec_deposit(pre, lender, asset, amount).0 is Ok {
        let stats = pre.pool(asset);
        let pos = pre.position(lender, asset);
        let shares = spec_deposit_shares(stats, amount as int);
        let moved = crate::state::spec_transfer_asset(pre, lender, pre.current_contract, asset, amount)->Ok_0;
        let rec = PositionRecord {
            lender,
            asset,
            position: PoolPosition {
                deposit_amount: (pos.deposit_amount + amount) as i128,
                shares: (pos.shares + shares) as i128,
            },
        };
        lemma_shares_total_bounds(pre.positions, asset, lender);
        assert(pos.shares == current_shares(pre.positions, lender, asset));
        if stats.total_deposits != 0 {
            assert(stats.total_deposits > 0 && stats.total_shares > 0);
            assert((amount * stats.total_shares) / (stats.total_deposits as int) >= 0) by (nonlinear_arith)
                requires
                    amount > 0,
                    stats.total_shares > 0,
                    stats.total_deposits > 0,
            ;
        }
        assert(shares >= 0);
        lemma_shares_total_push(pre.positions, rec, Asset::XLM);
        lemma_shares_total_push(pre.positions, rec, Asset::USDC);
        lemma_shares_nonneg_push(pre.positions, rec, Asset::XLM);
        lemma_shares_nonneg_push(pre.positions, rec, Asset::USDC);
        let post = moved.with_pool(asset, deposited_stats(stats, amount as int, shares)).with_position(
            lender,
            asset,
            rec.position,
        );
        assert(post.positions == pre.positions.push(rec));
        assert(post.loans == pre.loans);
    }
}

/// A withdrawal keeps the ledger consistent: it never pays out more than the
/// deposits, and it empties the pool exactly when every share is burnt.
pub proof fn lemma_withdraw_keeps_ledger(pre: ContractView, lender: Address, asset: Asset, share_amount: i128)
    requires
        pre.ledger_consistent(),
        withdraw_fits(pre, lender, asset, share_amount),
    ensures
        spec_withdraw(pre, lender, asset, share_amount).1.ledger_consistent(),
{
    if spec_withdraw(pre, lender, asset, share_amount).0 is Ok {
        let stats = pre.pool(asset);
        let pos = pre.position(lender, asset);
        let amount = spec_withdraw_amount(stats, share_amount as int);
        lemma_shares_total_bounds(pre.positions, asset, lender);
        assert(pos.shares == current_shares(pre.positions, lender, asset));
        assert(stats.total_shares > 0 && stats.total_deposits > 0);
        lemma_share_payout(share_amount as int, stats.total_deposits as int, stats.total_shares as int);
        assert(share_amount * stats.total_deposits >= 0) by (nonlinear_arith)
            requires
                share_amount > 0,
                stats.total_deposits > 0,
        ;
        let rec = PositionRecord {
            lender,
            asset,
            position: PoolPosition { deposit_amount: pos.deposit_amount, shares: (pos.shares - share_amount) as i128 },
        };
        lemma_shares_total_push(pre.positions, rec, Asset::XLM);
        lemma_shares_total_push(pre.positions, rec, Asset::USDC);
        lemma_shares_nonneg_push(pre.positions, rec, Asset::XLM);
        lemma_shares_nonneg_push(pre.positions, rec, Asset::USDC);
        let updated = pre.with_pool(asset, withdrawn_stats(stats, amount, share_amount as int)).with_position(
            lender,
            asset,
            rec.position,
        );
        assert(updated.positions == pre.positions.push(rec));
        assert(updated.ledger_consistent());
    }
}

/// A loan request keeps the ledger consistent: the amount lent never exceeds
/// the available liquidity, and the new loan holds a positive bond.
pub proof fn lemma_request_loan_keeps_ledger(pre: ContractView, borrower: Address, asset: Asset, proof_bytes: Seq<u8>)
    requires
        pre.ledger_consistent(),
        request_loan_fits(pre, asset, proof_bytes),
    ensures
        spec_request_loan(pre, borrower, asset, proof_bytes).1.ledger_consistent(),
{
    if spec_request_loan(pre, borrower, asset, proof_bytes).0 is Ok {
        let pi = spec_verify(pre.verifier, proof_bytes)->Ok_0;
        let post = spec_request_loan(pre, borrower, asset, proof_bytes).1;
        let id = (pre.loan_counter + 1) as u64;
        let loan = crate::loan::spec_new_loan(borrower, asset, pi, spec_bond(pi.loan_amount as int), pre.timestamp);
        assert(post.positions == pre.positions);
        assert(post.loans == pre.loans.push(LoanRecord { id, loan }));
        assert forall|i: int| 0 <= i < post.loans.len() implies (#[trigger] post.loans[i]).loan.skin_in_game >= 0 by {
            if i < pre.loans.len() {
                assert(post.loans[i] == pre.loans[i]);
            }
        }
    }
}

/// A repayment keeps the ledger consistent: it only adds to available
/// liquidity and keeps the loan's bond.
pub proof fn lemma_repay_keeps_ledger(pre: ContractView, borrower: Address, loan_id: u64, amount: i128)
    requires
        pre.ledger_consistent(),
        repay_loan_fits(pre, borrower, loan_id, amount),
    ensures
        spec_repay_loan(pre, borrower, loan_id, amount).1.ledger_consistent(),
{
    if spec_repay_loan(pre, borrower, loan_id, amount).0 is Ok {
        let l = pre.loan(loan_id)->Some_0;
        lemma_stored_bond_nonneg(pre.loans, loan_id);
        let post = spec_repay_loan(pre, borrower, loan_id, amount).1;
        assert(post.positions == pre.positions);
        assert(post.loans.drop_last() == pre.loans);
        assert(post.loans.last().loan.skin_in_game == l.skin_in_game);
        assert forall|i: int| 0 <= i < post.loans.len() implies (#[trigger] post.loans[i]).loan.skin_in_game >= 0 by {
            if i < pre.loans.len() {
                assert(post.loans[i] == post.loans.drop_last()[i]);
            }
        }
    }
}

/// A liquidation keeps the ledger consistent: the slashed bond it returns to
/// the pool is never negative.
pub proof fn lemma_liquidate_keeps_ledger(pre: ContractView, loan_id: u64)
    requires
        pre.ledger_consistent(),
        liquidate_loan_fits(pre, loan_id),
    ensures
        spec_liquidate_loan(pre, loan_id).1.ledger_consistent(),
{
    if spec_liquidate_loan(pre, loan_id).0 is Ok {
        let l = pre.loan(loan_id)->Some_0;
        lemma_stored_bond_nonneg(pre.loans, loan_id);
        let post = spec_liquidate_loan(pre, loan_id).1;
        assert(post.loans == pre.loans.push(LoanRecord { id: loan_id, loan: LoanData { status: LoanStatus::Defaulted, ..l } }));
        assert forall|i: int| 0 <= i < post.loans.len() implies (#[trigger] post.loans[i]).loan.skin_in_game >= 0 by {
            if i < pre.loans.len() {
                assert(post.loans[i] == pre.loans[i]);
            }
        }
    }
}

/// In a consistent ledger, the statistics of each pool agree with the
/// positions as [`ContractView::pool_consistent`] says.
pub proof fn lemma_pool_stats_consistent(v: ContractView, asset: Asset)
    requires
        v.ledger_consistent(),
    ensures
        v.pool(asset).available_liquidity == v.pool(asset).total_deposits - v.pool(asset).total_lent,
        v.pool(asset).available_liquidity >= 0,
        v.pool(asset).total_shares == shares_total(v.positions, asset),
        (v.pool(asset).total_shares == 0) <==> (v.pool(asset).total_deposits == 0),
        forall|lender: Address| #[trigger] v.position(lender, asset).shares >= 0,
{
    assert forall|lender: Address| #[trigger] v.position(lender, asset).shares >= 0 by {
        lemma_shares_total_bounds(v.positions, asset, lender);
    }
}


/// Once initialized, the lending contract stays initialized: no entry point
/// resets it, whether it succeeds or fails.
pub proof fn lemma_initialization_persists(
    pre: ContractView,
    who: Address,
    other: Address,
    asset: Asset,
    amount: i128,
    loan_id: u64,
    proof_bytes: Seq<u8>,
)
    requires
        pre.initialized,
    ensures
        spec_init(pre, who, other) == (Err::<(), Error>(Error::AlreadyInitialized), pre),
        spec_deposit(pre, who, asset, amount).1.initialized,
        spec_withdraw(pre, who, asset, amount).1.initialized,
        spec_request_loan(pre, who, asset, proof_bytes).1.initialized,
        spec_repay_loan(pre, who, loan_id, amount).1.initialized,
        spec_liquidate_loan(pre, loan_id).1.initialized,
{
}

} // verus!


