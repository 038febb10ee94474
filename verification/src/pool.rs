use vstd::prelude::*;

use crate::address::Address;
use crate::loan::transfer_asset;
use crate::math::{div_defined, div_i128, fits_i128, trunc_div};
use crate::state::{spec_transfer_asset, ContractState, ContractView};
use crate::types::{Asset, Error, PoolPosition, PoolStats};

verus! {

/// Shares minted for depositing `amount`: `amount` itself into an empty pool,
/// else `amount * total_shares / total_deposits`, rounded toward zero.
pub open spec fn spec_deposit_shares(stats: PoolStats, amount: int) -> int {
    if stats.total_deposits == 0 {
        amount
    } else {
        trunc_div(amount * stats.total_shares, stats.total_deposits as int)
    }
}

/// Pool stats after a deposit of `amount` that minted `shares`.
pub open spec fn deposited_stats(stats: PoolStats, amount: int, shares: int) -> PoolStats {
    PoolStats {
        total_deposits: (stats.total_deposits + amount) as i128,
        total_shares: (stats.total_shares + shares) as i128,
        available_liquidity: (stats.available_liquidity + amount) as i128,
        ..stats
    }
}

/// Underlying amount paid out for burning `share_amount` shares:
/// `share_amount * total_deposits / total_shares` rounded toward zero, or 0
/// when no shares exist.
pub open spec fn spec_withdraw_amount(stats: PoolStats, share_amount: int) -> int {
    if stats.total_shares == 0 {
        0
    } else {
        trunc_div(share_amount * stats.total_deposits, stats.total_shares as int)
    }
}

/// Pool stats after burning `share_amount` shares for `amount`.
pub open spec fn withdrawn_stats(stats: PoolStats, amount: int, share_amount: int) -> PoolStats {
    PoolStats {
        total_deposits: (stats.total_deposits - amount) as i128,
        total_shares: (stats.total_shares - share_amount) as i128,
        available_liquidity: (stats.available_liquidity - amount) as i128,
        ..stats
    }
}

/// Pool stats after lending out `amount`.
pub open spec fn deducted_stats(stats: PoolStats, amount: int) -> PoolStats {
    PoolStats {
        available_liquidity: (stats.available_liquidity - amount) as i128,
        total_lent: (stats.total_lent + amount) as i128,
        ..stats
    }
}

/// Pool stats after `amount` comes back from loans.
pub open spec fn returned_stats(stats: PoolStats, amount: int) -> PoolStats {
    PoolStats {
        available_liquidity: (stats.available_liquidity + amount) as i128,
        total_lent: (stats.total_lent - amount) as i128,
        ..stats
    }
}

/// What [`deposit`] returns and leaves in storage.
pub open spec fn spec_deposit(pre: ContractView, lender: Address, asset: Asset, amount: i128) -> (Result<i128, Error>, ContractView) {
    if amount <= 0 {
        (Err(Error::InvalidAmount), pre)
    } else {
        match spec_transfer_asset(pre, lender, pre.current_contract, asset, amount) {
            Err(e) => (Err(e), pre),
            Ok(moved) => {
                let stats = pre.pool(asset);
                let shares = spec_deposit_shares(stats, amount as int);
                let pos = pre.position(lender, asset);
                (
                    Ok(shares as i128),
                    moved.with_pool(asset, deposited_stats(stats, amount as int, shares)).with_position(
                        lender,
                        asset,
                        PoolPosition {
                            deposit_amount: (pos.deposit_amount + amount) as i128,
                            shares: (pos.shares + shares) as i128,
                        },
                    ),
                )
            },
        }
    }
}

/// A [`deposit`] that computes without overflow (the contract panics otherwise).
pub open spec fn deposit_fits(pre: ContractView, lender: Address, asset: Asset, amount: i128) -> bool {
    let stats = pre.pool(asset);
    let pos = pre.position(lender, asset);
    let shares = spec_deposit_shares(stats, amount as int);
    (amount > 0 && spec_transfer_asset(pre, lender, pre.current_contract, asset, amount) is Ok) ==> {
        &&& stats.total_deposits != 0 ==> fits_i128(amount * stats.total_shares)
            && div_defined(amount * stats.total_shares, stats.total_deposits as int)
        &&& fits_i128(stats.total_deposits + amount)
        &&& fits_i128(stats.total_shares + shares)
        &&& fits_i128(stats.available_liquidity + amount)
        &&& fits_i128(pos.deposit_amount + amount)
        &&& fits_i128(pos.shares + shares)
    }
}

/// What [`withdraw`] returns and leaves in storage.
pub open spec fn spec_withdraw(pre: ContractView, lender: Address, asset: Asset, share_amount: i128) -> (Result<i128, Error>, ContractView) {
    let stats = pre.pool(asset);
    let pos = pre.position(lender, asset);
    let amount = spec_withdraw_amount(stats, share_amount as int);
    if share_amount <= 0 {
        (Err(Error::InvalidAmount), pre)
    } else if pos.shares < share_amount {
        (Err(Error::InsufficientBalance), pre)
    } else if amount > stats.available_liquidity {
        (Err(Error::InsufficientPoolLiquidity), pre)
    } else {
        let updated = pre.with_pool(asset, withdrawn_stats(stats, amount, share_amount as int)).with_position(
            lender,
            asset,
            PoolPosition { deposit_amount: pos.deposit_amount, shares: (pos.shares - share_amount) as i128 },
        );
        match spec_transfer_asset(updated, pre.current_contract, lender, asset, amount as i128) {
            Err(e) => (Err(e), pre),
            Ok(post) => (Ok(amount as i128), post),
        }
    }
}

/// A [`withdraw`] that computes without overflow (the contract panics otherwise).
pub open spec fn withdraw_fits(pre: ContractView, lender: Address, asset: Asset, share_amount: i128) -> bool {
    let stats = pre.pool(asset);
    let pos = pre.position(lender, asset);
    let amount = spec_withdraw_amount(stats, share_amount as int);
    (share_amount > 0 && pos.shares >= share_amount) ==> {
        &&& stats.total_shares != 0 ==> fits_i128(share_amount * stats.total_deposits)
            && div_defined(share_amount * stats.total_deposits, stats.total_shares as int)
        &&& amount <= stats.available_liquidity ==> {
            &&& fits_i128(stats.total_deposits - amount)
            &&& fits_i128(stats.total_shares - share_amount)
            &&& fits_i128(stats.available_liquidity - amount)
            &&& fits_i128(pos.shares - share_amount)
        }
    }
}

/// Deposits an asset into the liquidity pool and mints pool shares.
///
/// The contract pulls `amount` from the lender (a USDC transfer is requested;
/// XLM is tracked internally), so shares are only minted when value is
/// received. Shares minted are `amount` into an empty pool, else
/// `amount * total_shares / total_deposits`. The lender's position records the
/// amount deposited and the shares.
///
/// Returns the number of shares minted.
pub fn deposit(env: &mut ContractState, lender: &Address, asset: Asset, amount: i128) -> (r: Result<i128, Error>)
    requires
        deposit_fits(old(env)@, *lender, asset, amount),
    ensures
        r == spec_deposit(old(env)@, *lender, asset, amount).0,
        final(env)@ == spec_deposit(old(env)@, *lender, asset, amount).1,
        old(env)@.pools_balanced() ==> final(env)@.pools_balanced(),
{
    if amount <= 0 {
        return Err(Error::InvalidAmount);
    }

    let mut pool_stats = get_pool_stats(env, asset);

    // Pull the asset from the lender before minting shares
    let contract = env.current_contract;
    transfer_asset(env, lender, &contract, &asset, amount)?;

    // Calculate shares to mint
    let shares = if pool_stats.total_deposits == 0 {
        amount
    } else {
        div_i128(amount * pool_stats.total_shares, pool_stats.total_deposits)
    };

    // Update pool stats
    pool_stats.total_deposits = pool_stats.total_deposits + amount;
    pool_stats.total_shares = pool_stats.total_shares + shares;
    pool_stats.available_liquidity = pool_stats.available_liquidity + amount;
    set_pool_stats(env, asset, &pool_stats);

    // Update lender position; deposit_amount tracks the sum deposited
    let mut position = env.position(lender, asset);
    position.deposit_amount = position.deposit_amount + amount;
    position.shares = position.shares + shares;
    env.set_position(lender, asset, position);

    Ok(shares)
}

/// Withdraws an asset from the liquidity pool by burning pool shares.
///
/// The amount paid out is `share_amount * total_deposits / total_shares`
/// (0 when no shares exist); it must not exceed available liquidity. Only the
/// lender's shares decrease: the recorded deposit amount never does.
///
/// Returns the amount of the underlying asset withdrawn.
pub fn withdraw(env: &mut ContractState, lender: &Address, asset: Asset, share_amount: i128) -> (r: Result<i128, Error>)
    requires
        withdraw_fits(old(env)@, *lender, asset, share_amount),
    ensures
        r == spec_withdraw(old(env)@, *lender, asset, share_amount).0,
        final(env)@ == spec_withdraw(old(env)@, *lender, asset, share_amount).1,
        old(env)@.pools_balanced() ==> final(env)@.pools_balanced(),
        final(env)@.position(*lender, asset).deposit_amount == old(env)@.position(*lender, asset).deposit_amount,
{
    if share_amount <= 0 {
        return Err(Error::InvalidAmount);
    }

    let pool_stats = get_pool_stats(env, asset);
    let mut position = env.position(lender, asset);

    if position.shares < share_amount {
        return Err(Error::InsufficientBalance);
    }

    // Calculate underlying amount to withdraw
    let amount = if pool_stats.total_shares == 0 {
        0
    } else {
        div_i128(share_amount * pool_stats.total_deposits, pool_stats.total_shares)
    };

    if amount > pool_stats.available_liquidity {
        return Err(Error::InsufficientPoolLiquidity);
    }

    let updated_stats = PoolStats {
        total_deposits: pool_stats.total_deposits - amount,
        total_shares: pool_stats.total_shares - share_amount,
        available_liquidity: pool_stats.available_liquidity - amount,
        ..pool_stats
    };
    // A USDC payout needs the token address: fail before writing anything
    if asset == Asset::USDC && env.usdc_address.is_none() {
        return Err(Error::NotInitialized);
    }
    set_pool_stats(env, asset, &updated_stats);

    // Only decrement shares; deposit_amount is immutable
    position.shares = position.shares - share_amount;
    env.set_position(lender, asset, position);

    // Transfer asset to lender
    let contract = env.current_contract;
    transfer_asset(env, &contract, lender, &asset, amount)?;

    Ok(amount)
}

/// Whether [`deposit`] computes without overflow for these arguments.
pub fn deposit_in_range(env: &ContractState, lender: &Address, asset: Asset, amount: i128) -> (r: bool)
    ensures
        r == deposit_fits(env@, *lender, asset, amount),
{
    if amount <= 0 {
        return true;
    }
    if asset == Asset::USDC && env.usdc_address.is_none() {
        return true;
    }
    let stats = env.pool(asset);
    let pos = env.position(lender, asset);
    let shares = if stats.total_deposits == 0 {
        amount
    } else {
        match amount.checked_mul(stats.total_shares) {
            None => return false,
            Some(p) => {
                if p == i128::MIN && stats.total_deposits == -1 {
                    return false;
                }
                div_i128(p, stats.total_deposits)
            },
        }
    };
    stats.total_deposits.checked_add(amount).is_some() && stats.total_shares.checked_add(shares).is_some()
        && stats.available_liquidity.checked_add(amount).is_some()
        && pos.deposit_amount.checked_add(amount).is_some() && pos.shares.checked_add(shares).is_some()
}

/// Whether [`withdraw`] computes without overflow for these arguments.
pub fn withdraw_in_range(env: &ContractState, lender: &Address, asset: Asset, share_amount: i128) -> (r: bool)
    ensures
        r == withdraw_fits(env@, *lender, asset, share_amount),
{
    if share_amount <= 0 {
        return true;
    }
    let pos = env.position(lender, asset);
    if pos.shares < share_amount {
        return true;
    }
    let stats = env.pool(asset);
    let amount = if stats.total_shares == 0 {
        0
    } else {
        match share_amount.checked_mul(stats.total_deposits) {
            None => return false,
            Some(p) => {
                if p == i128::MIN && stats.total_shares == -1 {
                    return false;
                }
                div_i128(p, stats.total_shares)
            },
        }
    };
    if amount > stats.available_liquidity {
        return true;
    }
    stats.total_deposits.checked_sub(amount).is_some() && stats.total_shares.checked_sub(share_amount).is_some()
        && stats.available_liquidity.checked_sub(amount).is_some()
        && pos.shares.checked_sub(share_amount).is_some()
}

/// Deducts an amount from the pool's available liquidity (used when a loan is issued).
pub fn deduct_from_pool(env: &mut ContractState, asset: Asset, amount: i128) -> (r: Result<(), Error>)
    requires
        old(env)@.pool(asset).available_liquidity >= amount ==> fits_i128(
            old(env)@.pool(asset).total_lent + amount,
        ) && fits_i128(old(env)@.pool(asset).available_liquidity - amount),
    ensures
        old(env)@.pool(asset).available_liquidity < amount ==> r == Err::<(), Error>(
            Error::InsufficientPoolLiquidity,
        ) && final(env)@ == old(env)@,
        old(env)@.pool(asset).available_liquidity >= amount ==> r == Ok::<(), Error>(()) && final(env)@
            == old(env)@.with_pool(asset, deducted_stats(old(env)@.pool(asset), amount as int)),
{
    let mut pool_stats = get_pool_stats(env, asset);

    if pool_stats.available_liquidity < amount {
        return Err(Error::InsufficientPoolLiquidity);
    }

    pool_stats.available_liquidity = pool_stats.available_liquidity - amount;
    pool_stats.total_lent = pool_stats.total_lent + amount;
    set_pool_stats(env, asset, &pool_stats);

    Ok(())
}

/// Adds an amount back to the pool's available liquidity (loan repaid or liquidated).
pub fn return_to_pool(env: &mut ContractState, asset: Asset, amount: i128) -> (r: Result<(), Error>)
    requires
        fits_i128(old(env)@.pool(asset).available_liquidity + amount),
        fits_i128(old(env)@.pool(asset).total_lent - amount),
    ensures
        r == Ok::<(), Error>(()),
        final(env)@ == old(env)@.with_pool(asset, returned_stats(old(env)@.pool(asset), amount as int)),
{
    let mut pool_stats = get_pool_stats(env, asset);

    pool_stats.available_liquidity = pool_stats.available_liquidity + amount;
    pool_stats.total_lent = pool_stats.total_lent - amount;
    set_pool_stats(env, asset, &pool_stats);

    Ok(())
}

/// Returns the pool stats for a given asset (zero when nothing was deposited).
pub fn get_pool_stats(env: &ContractState, asset: Asset) -> (r: PoolStats)
    ensures
        r == env@.pool(asset),
{
    env.pool(asset)
}

/// Stores the pool stats for a given asset.
pub fn set_pool_stats(env: &mut ContractState, asset: Asset, stats: &PoolStats)
    ensures
        final(env)@ == old(env)@.with_pool(asset, *stats),
{
    env.set_pool(asset, *stats);
}

/// Retrieves the stored USDC token contract address; `NotInitialized` when there is none.
pub fn get_usdc_address(env: &ContractState) -> (r: Result<Address, Error>)
    ensures
        r == (match env@.usdc_address {
            Some(a) => Ok::<Address, Error>(a),
            None => Err(Error::NotInitialized),
        }),
{
    match env.usdc_address {
        Some(a) => Ok(a),
        None => Err(Error::NotInitialized),
    }
}

/// Stores the USDC token contract address (called during initialization).
pub fn set_usdc_address(env: &mut ContractState, address: &Address)
    ensures
        final(env)@ == (ContractView { usdc_address: Some(*address), ..old(env)@ }),
{
    env.usdc_address = Some(*address);
}

} // verus!
