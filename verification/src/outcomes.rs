//! When each operation succeeds, and what a success moves, stated over the
//! arguments and the state before the call.
use vstd::prelude::*;

use crate::address::Address;
use crate::loan::{
    liquidate_loan_fits, repay_loan_fits, request_loan_fits, spec_liquidate_loan, spec_locked_interest,
    spec_repay_loan, spec_request_loan,
};
use crate::math::trunc_div;
use crate::pool::{deposit_fits, spec_deposit, spec_withdraw, withdraw_fits};
use crate::state::ContractView;
use crate::types::{Asset, Error, LoanData, LoanStatus, Transfer};
use crate::zk::inputs::{public_inputs_len, spec_public_inputs, spec_validate_public_inputs};
use crate::zk::types::{Error as VerifierError, PublicInputs, VerifierView};
use crate::zk::honk::spec_verify_and_check_nullifier;
use crate::zk::{proof_public_part, spec_verify};

verus! {

/// Public inputs are valid exactly when the loan amount is positive and the
/// LTV and the interest rate are each between 1 and 10000 basis points.
pub proof fn lemma_public_inputs_validity(inputs: PublicInputs)
    ensures
        spec_validate_public_inputs(inputs) == (if inputs.loan_amount > 0 && 1 <= inputs.ltv_bps <= 10000 && 1
            <= inputs.interest_bps <= 10000 {
            Ok::<(), VerifierError>(())
        } else {
            Err(VerifierError::PublicInputMismatch)
        }),
{
}

/// A combined proof is accepted by the lending contract's verifier exactly
/// when it carries 256 bytes of public inputs that are valid and whose
/// nullifier is not registered yet; it then yields those public inputs.
pub proof fn lemma_combined_proof_acceptance(env: VerifierView, proof_bytes: Seq<u8>)
    ensures
        spec_verify(env, proof_bytes) is Ok <==> {
            let pi = spec_public_inputs(proof_public_part(proof_bytes));
            &&& proof_bytes.len() >= 256
            &&& pi.loan_amount > 0
            &&& 1 <= pi.ltv_bps <= 10000
            &&& 1 <= pi.interest_bps <= 10000
            &&& !env.verified_nullifiers.contains(pi.nullifier)
        },
        spec_verify(env, proof_bytes) is Ok ==> spec_verify(env, proof_bytes) == Ok::<PublicInputs, VerifierError>(
            spec_public_inputs(proof_public_part(proof_bytes)),
        ),
{
    if proof_bytes.len() >= 256 {
        assert(proof_public_part(proof_bytes).len() == public_inputs_len());
    }
}

/// A loan request succeeds exactly when the proof is accepted, its loan
/// amount and 10% bond are positive, its nullifier is unused, the pool holds
/// at least the loan amount (the bond is not counted against it), and for
/// USDC the token address is set. It then returns the next loan ID; for USDC
/// it requests two transfers, the bond from the borrower to the contract and
/// then the amount from the contract to the borrower, and for XLM none.
pub proof fn lemma_request_loan_outcome(pre: ContractView, borrower: Address, asset: Asset, proof_bytes: Seq<u8>)
    requires
        request_loan_fits(pre, asset, proof_bytes),
    ensures
        ({
            let (r, post) = spec_request_loan(pre, borrower, asset, proof_bytes);
            let pi = spec_verify(pre.verifier, proof_bytes)->Ok_0;
            let bond = pi.loan_amount * 1000 / 10000;
            &&& r is Ok <==> {
                &&& spec_verify(pre.verifier, proof_bytes) is Ok
                &&& pi.loan_amount > 0
                &&& bond > 0
                &&& !pre.used_nullifiers.contains(pi.nullifier)
                &&& pre.pool(asset).available_liquidity >= pi.loan_amount
                &&& (asset == Asset::XLM || pre.usdc_address is Some)
            }
            &&& r is Ok ==> {
                &&& r == Ok::<u64, Error>((pre.loan_counter + 1) as u64)
                &&& post.pool(asset).available_liquidity == pre.pool(asset).available_liquidity - pi.loan_amount
                &&& asset == Asset::XLM ==> post.transfers == pre.transfers
                &&& asset == Asset::USDC ==> post.transfers == pre.transfers.push(
                    Transfer {
                        token: pre.usdc_address->Some_0,
                        from: borrower,
                        to: pre.current_contract,
                        amount: bond as i128,
                    },
                ).push(
                    Transfer {
                        token: pre.usdc_address->Some_0,
                        from: pre.current_contract,
                        to: borrower,
                        amount: pi.loan_amount,
                    },
                )
            }
        }),
{
}

/// A repayment succeeds exactly when the loan exists, the caller is its
/// borrower, it is active, the amount is positive and at most the principal
/// plus the locked interest still owed, and for USDC the token address is
/// set: any such amount is accepted, however small. For USDC the first
/// transfer requested collects the amount from the borrower.
pub proof fn lemma_repay_outcome(pre: ContractView, borrower: Address, loan_id: u64, amount: i128)
    requires
        repay_loan_fits(pre, borrower, loan_id, amount),
    ensures
        ({
            let (r, post) = spec_repay_loan(pre, borrower, loan_id, amount);
            let l = pre.loan(loan_id)->Some_0;
            &&& r is Ok <==> {
                &&& pre.loan(loan_id) is Some
                &&& l.borrower == borrower
                &&& l.status == LoanStatus::Active
                &&& 0 < amount <= (l.loan_amount - l.amount_repaid) + (spec_locked_interest(l, pre.timestamp)
                    - l.interest_repaid)
                &&& (l.asset == Asset::XLM || pre.usdc_address is Some)
            }
            &&& r is Ok ==> {
                &&& post.pool(l.asset).available_liquidity == pre.pool(l.asset).available_liquidity + amount
                &&& l.asset == Asset::USDC ==> post.transfers.len() >= pre.transfers.len() + 1
                    && post.transfers[pre.transfers.len() as int] == Transfer {
                    token: pre.usdc_address->Some_0,
                    from: borrower,
                    to: pre.current_contract,
                    amount,
                }
                &&& post.transfers.subrange(0, pre.transfers.len() as int) == pre.transfers
            }
        }),
{
    let (r, post) = spec_repay_loan(pre, borrower, loan_id, amount);
    if r is Ok {
        let l = pre.loan(loan_id)->Some_0;
        if l.asset == Asset::USDC {
            assert(post.transfers[pre.transfers.len() as int] == Transfer {
                token: pre.usdc_address->Some_0,
                from: borrower,
                to: pre.current_contract,
                amount,
            });
        }
        assert(post.transfers.subrange(0, pre.transfers.len() as int) =~= pre.transfers);
    }
}

/// A liquidation succeeds exactly when the loan exists, is active and is
/// due, whatever has been repaid on it; the loan is then stored as
/// Defaulted with everything else unchanged, and no transfer is requested.
pub proof fn lemma_liquidate_outcome(pre: ContractView, loan_id: u64)
    requires
        liquidate_loan_fits(pre, loan_id),
    ensures
        ({
            let (r, post) = spec_liquidate_loan(pre, loan_id);
            let l = pre.loan(loan_id)->Some_0;
            &&& r is Ok <==> (pre.loan(loan_id) is Some && l.status == LoanStatus::Active && pre.timestamp
                >= l.due_date)
            &&& r is Ok ==> {
                &&& post.loan(loan_id) == Some(LoanData { status: LoanStatus::Defaulted, ..l })
                &&& post.pool(l.asset).available_liquidity == pre.pool(l.asset).available_liquidity
                    + l.skin_in_game
                &&& post.transfers == pre.transfers
            }
        }),
{
    let (r, post) = spec_liquidate_loan(pre, loan_id);
    if r is Ok {
        let l = pre.loan(loan_id)->Some_0;
        crate::laws::lemma_loan_after_write(
            pre.with_pool(l.asset, crate::pool::returned_stats(pre.pool(l.asset), l.skin_in_game as int)),
            loan_id,
            LoanData { status: LoanStatus::Defaulted, ..l },
            loan_id,
        );
    }
}

/// A deposit succeeds exactly when the amount is positive and, for USDC, the
/// token address is set. It then mints `amount` shares into an empty pool,
/// else `amount * total_shares / total_deposits` rounded toward zero, adds the amount to the pool's deposits and
/// available liquidity and the minted shares to the lender's, and for USDC
/// requests one transfer of the amount from the lender to the contract.
pub proof fn lemma_deposit_outcome(pre: ContractView, lender: Address, asset: Asset, amount: i128)
    requires
        deposit_fits(pre, lender, asset, amount),
    ensures
        ({
            let (r, post) = spec_deposit(pre, lender, asset, amount);
            let stats = pre.pool(asset);
            &&& r is Ok <==> (amount > 0 && (asset == Asset::XLM || pre.usdc_address is Some))
            &&& r is Ok ==> r == Ok::<i128, Error>(
                (if stats.total_deposits == 0 {
                    amount as int
                } else {
                    trunc_div(amount * stats.total_shares, stats.total_deposits as int)
                }) as i128,
            )
            &&& r matches Ok(shares) ==> {
                &&& post.pool(asset).total_deposits == pre.pool(asset).total_deposits + amount
                &&& post.pool(asset).available_liquidity == pre.pool(asset).available_liquidity + amount
                &&& post.pool(asset).total_shares == pre.pool(asset).total_shares + shares
                &&& post.position(lender, asset).shares == pre.position(lender, asset).shares + shares
                &&& asset == Asset::XLM ==> post.transfers == pre.transfers
                &&& asset == Asset::USDC ==> post.transfers == pre.transfers.push(
                    Transfer { token: pre.usdc_address->Some_0, from: lender, to: pre.current_contract, amount },
                )
            }
        }),
{
    let (r, post) = spec_deposit(pre, lender, asset, amount);
    if r is Ok {
        let moved = crate::state::spec_transfer_asset(pre, lender, pre.current_contract, asset, amount)->Ok_0;
        let stats = pre.pool(asset);
        let shares = crate::pool::spec_deposit_shares(stats, amount as int);
        let pos = pre.position(lender, asset);
        if stats.total_deposits != 0 {
            let x = amount * stats.total_shares;
            let y = stats.total_deposits as int;
            assert(x >= 0 && y > 0 ==> 0 <= x / y <= x) by (nonlinear_arith);
            assert(x >= 0 && y < 0 ==> 0 <= x / (-y) <= x) by (nonlinear_arith);
            assert(x < 0 && y > 0 ==> 0 <= (-x) / y <= -x) by (nonlinear_arith);
            assert(x < 0 && y <= -2 ==> 0 <= (-x) / (-y) <= (-x) / 2) by (nonlinear_arith);
            assert(x < 0 && y == -1 ==> (-x) / (-y) == -x) by (nonlinear_arith);
            assert(crate::math::fits_i128(shares));
        }
        crate::laws::lemma_position_after_write(
            moved.with_pool(asset, crate::pool::deposited_stats(stats, amount as int, shares)),
            lender,
            asset,
            crate::types::PoolPosition {
                deposit_amount: (pos.deposit_amount + amount) as i128,
                shares: (pos.shares + shares) as i128,
            },
            lender,
            asset,
        );
    }
}

/// A withdrawal succeeds exactly when the share amount is positive and held
/// by the lender, the payout `share_amount * total_deposits / total_shares`
/// (0 with no shares) is at most the available liquidity, and for USDC the
/// token address is set. It then returns that payout, takes it out of the
/// pool, burns the shares, and for USDC requests one transfer of the payout
/// from the contract to the lender.
pub proof fn lemma_withdraw_outcome(pre: ContractView, lender: Address, asset: Asset, share_amount: i128)
    requires
        withdraw_fits(pre, lender, asset, share_amount),
    ensures
        ({
            let (r, post) = spec_withdraw(pre, lender, asset, share_amount);
            let stats = pre.pool(asset);
            let payout = if stats.total_shares == 0 {
                0
            } else {
                trunc_div(share_amount * stats.total_deposits, stats.total_shares as int)
            };
            &&& r is Ok <==> {
                &&& share_amount > 0
                &&& pre.position(lender, asset).shares >= share_amount
                &&& payout <= stats.available_liquidity
                &&& (asset == Asset::XLM || pre.usdc_address is Some)
            }
            &&& r is Ok ==> {
                &&& r == Ok::<i128, Error>(payout as i128)
                &&& post.pool(asset).total_deposits == stats.total_deposits - payout
                &&& post.pool(asset).available_liquidity == stats.available_liquidity - payout
                &&& post.pool(asset).total_shares == stats.total_shares - share_amount
                &&& post.position(lender, asset).shares == pre.position(lender, asset).shares - share_amount
                &&& asset == Asset::XLM ==> post.transfers == pre.transfers
                &&& asset == Asset::USDC ==> post.transfers == pre.transfers.push(
                    Transfer {
                        token: pre.usdc_address->Some_0,
                        from: pre.current_contract,
                        to: lender,
                        amount: payout as i128,
                    },
                )
            }
        }),
{
    let (r, post) = spec_withdraw(pre, lender, asset, share_amount);
    if r is Ok {
        let stats = pre.pool(asset);
        let pos = pre.position(lender, asset);
        let amount = crate::pool::spec_withdraw_amount(stats, share_amount as int);
        crate::laws::lemma_position_after_write(
            pre.with_pool(asset, crate::pool::withdrawn_stats(stats, amount, share_amount as int)),
            lender,
            asset,
            crate::types::PoolPosition { deposit_amount: pos.deposit_amount, shares: (pos.shares - share_amount) as i128 },
            lender,
            asset,
        );
    }
}

/// The verifier contract accepts a proof exactly when its Verification Key
/// is stored with the hash that `vk_bytes` starts with, the public inputs are
/// 256 bytes and valid, and their nullifier is not registered yet; it then
/// yields those public inputs.
pub proof fn lemma_verifier_acceptance(env: VerifierView, public_inputs_bytes: Seq<u8>, vk_bytes: Seq<u8>)
    ensures
        spec_verify_and_check_nullifier(env, public_inputs_bytes, vk_bytes) is Ok <==> {
            let pi = spec_public_inputs(public_inputs_bytes);
            &&& env.vk matches Some(vk) && vk.vk_hash@ == crate::address::prefix32(vk_bytes)
            &&& public_inputs_bytes.len() == 256
            &&& pi.loan_amount > 0
            &&& 1 <= pi.ltv_bps <= 10000
            &&& 1 <= pi.interest_bps <= 10000
            &&& !env.verified_nullifiers.contains(pi.nullifier)
        },
        spec_verify_and_check_nullifier(env, public_inputs_bytes, vk_bytes) is Ok ==> spec_verify_and_check_nullifier(
            env,
            public_inputs_bytes,
            vk_bytes,
        ) == Ok::<PublicInputs, VerifierError>(spec_public_inputs(public_inputs_bytes)),
{
}

/// Initializing an uninitialized contract succeeds and stores the admin and
/// the USDC token address; an initialized contract refuses it.
pub proof fn lemma_init_outcome(pre: ContractView, admin: Address, usdc_address: Address)
    ensures
        !pre.initialized ==> {
            let (r, post) = crate::contract::spec_init(pre, admin, usdc_address);
            &&& r == Ok::<(), Error>(())
            &&& post.initialized
            &&& post.admin == Some(admin)
            &&& post.usdc_address == Some(usdc_address)
            &&& post.pool(Asset::XLM) == pre.pool(Asset::XLM)
            &&& post.pool(Asset::USDC) == pre.pool(Asset::USDC)
            &&& post.transfers == pre.transfers
        },
        pre.initialized ==> crate::contract::spec_init(pre, admin, usdc_address) == (Err::<(), Error>(
            Error::AlreadyInitialized,
        ), pre),
{
}

/// Simple interest: on a positive principal over a positive time, the
/// interest is `principal * rate_bps * elapsed / (31_557_600 * 10000)`
/// rounded down; otherwise none.
pub proof fn lemma_interest_formula(principal: int, rate_bps: int, start_time: int, end_time: int)
    ensures
        (end_time <= start_time || principal <= 0) ==> crate::loan::spec_interest(
            principal,
            rate_bps,
            start_time,
            end_time,
        ) == 0,
        (end_time > start_time && principal > 0) ==> {
            let i = crate::loan::spec_interest(principal, rate_bps, start_time, end_time);
            &&& i * 315_576_000_000 <= principal * rate_bps * (end_time - start_time)
            &&& principal * rate_bps * (end_time - start_time) < (i + 1) * 315_576_000_000
        },
{
    if end_time > start_time && principal > 0 {
        let x = principal * rate_bps * (end_time - start_time);
        assert((x / 315_576_000_000) * 315_576_000_000 <= x < (x / 315_576_000_000 + 1) * 315_576_000_000)
            by (nonlinear_arith);
    }
}

} // verus!
