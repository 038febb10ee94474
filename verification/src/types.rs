use vstd::prelude::*;

use crate::address::{Address, STRKEY_LEN};
use vstd::string::*;

verus! {

// --- Asset Types ---

/// Identifies which asset is being used for a deposit, loan, or bond.
#[derive(Clone, Copy, Debug, PartialEq, Eq, Structural)]
pub enum Asset {
    /// Native XLM (Stellar lumens)
    XLM,
    /// USDC via Stellar Asset Contract (SAC)
    USDC,
}

// --- Loan Status ---

/// Tracks the lifecycle state of a loan.
#[derive(Clone, Copy, Debug, PartialEq, Eq, Structural)]
pub enum LoanStatus {
    /// Loan is active and accruing interest
    Active,
    /// Borrower has fully repaid principal + interest
    Repaid,
    /// Loan has been liquidated due to default
    Defaulted,
}

// --- Core Data Structures ---

/// Represents a single loan on the protocol.
#[derive(Clone, Copy, Debug, PartialEq, Eq)]
pub struct LoanData {
    /// Borrower address
    pub borrower: Address,
    /// Invoice commitment hash from the ZK circuit
    pub invoice_hash: [u8; 32],
    /// Principal amount requested (in stroops or USDC cents)
    pub loan_amount: i128,
    /// Asset used for this loan
    pub asset: Asset,
    /// 10% performance bond posted by borrower
    pub skin_in_game: i128,
    /// Loan-to-value ratio in basis points
    pub ltv_bps: u32,
    /// Interest rate in basis points per annum
    pub interest_bps: u32,
    /// Current loan status
    pub status: LoanStatus,
    /// Timestamp when the loan was created
    pub created_at: u64,
    /// Timestamp when the loan matures
    pub due_date: u64,
    /// Total principal repaid so far
    pub amount_repaid: i128,
    /// Total interest locked at first repayment (prevents recalculation drift)
    pub accrued_interest: i128,
    /// Total interest repaid so far
    pub interest_repaid: i128,
}

/// Tracks a lender's position in the liquidity pool for one asset.
#[derive(Clone, Copy, Debug, PartialEq, Eq, Structural)]
pub struct PoolPosition {
    /// Total amount deposited (never decreased on withdrawal)
    pub deposit_amount: i128,
    /// Pool shares held (proportional to deposit)
    pub shares: i128,
}

/// Pool statistics for one asset type.
#[derive(Clone, Copy, Debug, PartialEq, Eq, Structural)]
pub struct PoolStats {
    /// Total underlying asset in the pool
    pub total_deposits: i128,
    /// Total shares issued
    pub total_shares: i128,
    /// Total amount currently lent out
    pub total_lent: i128,
    /// Available liquidity (deposits - lent)
    pub available_liquidity: i128,
}

impl PoolPosition {
    /// The position of a lender that never deposited.
    pub open spec fn spec_empty() -> PoolPosition {
        PoolPosition { deposit_amount: 0, shares: 0 }
    }

    /// The position of a lender that never deposited.
    pub fn empty() -> (r: PoolPosition)
        ensures
            r == PoolPosition::spec_empty(),
    {
        PoolPosition { deposit_amount: 0, shares: 0 }
    }
}

impl PoolStats {
    /// The statistics of a pool nobody deposited into.
    pub open spec fn spec_empty() -> PoolStats {
        PoolStats { total_deposits: 0, total_shares: 0, total_lent: 0, available_liquidity: 0 }
    }

    /// The statistics of a pool nobody deposited into.
    pub fn empty() -> (r: PoolStats)
        ensures
            r == PoolStats::spec_empty(),
    {
        PoolStats { total_deposits: 0, total_shares: 0, total_lent: 0, available_liquidity: 0 }
    }

    /// Available liquidity equals deposits minus what is lent out.
    pub open spec fn balanced(self) -> bool {
        self.total_deposits == self.available_liquidity + self.total_lent
    }
}

// --- Contract Errors ---

/// Errors returned by the lending contract.
#[derive(Clone, Copy, Debug, PartialEq, Eq, Structural)]
pub enum Error {
    AlreadyInitialized,
    NotInitialized,
    Unauthorized,
    InvalidAmount,
    InsufficientBalance,
    InsufficientPoolLiquidity,
    LoanNotFound,
    LoanNotActive,
    LoanExpired,
    InvalidAsset,
    InvalidSkinInGame,
    ProofVerificationFailed,
    RepaymentTooSmall,
    AlreadyRepaid,
    NotBorrower,
    TransferFailed,
    Overflow,
    LoanNotDue,
    NullifierAlreadyUsed,
}

/// A token transfer that the contract asks its token contract to perform.
#[derive(Clone, Copy, Debug, PartialEq, Eq)]
pub struct Transfer {
    /// The token contract that moves the funds
    pub token: Address,
    /// Who pays
    pub from: Address,
    /// Who receives
    pub to: Address,
    /// How much
    pub amount: i128,
}

// --- Protocol Constants ---

/// Required skin-in-the-game: 10% of loan amount (1000 basis points).
pub const SKIN_IN_GAME_BPS: i128 = 1000;
/// One XLM in stroops.
pub const ONE_XLM: i128 = 10_000_000;
/// Length of a loan: 90 days, in seconds.
pub const LOAN_TERM_SECS: u64 = 7_776_000;
/// Well-known native XLM Stellar Asset Contract address.
pub const NATIVE_XLM_ADDRESS: &'static str = "CAS3J7GYLGXMF6TDJBBYYSE3HQ6BBSMLNUF34TQ6NPVHSZ2IXIZQNQAL";

/// Returns the native XLM Stellar Asset Contract address.
pub fn get_native_xlm_address() -> (r: Address)
    ensures
        r.strkey@ == NATIVE_XLM_ADDRESS.spec_bytes(),
{
    let bytes = NATIVE_XLM_ADDRESS.as_bytes();
    proof {
        reveal_strlit("CAS3J7GYLGXMF6TDJBBYYSE3HQ6BBSMLNUF34TQ6NPVHSZ2IXIZQNQAL");
        assert(is_ascii(NATIVE_XLM_ADDRESS));
        is_ascii_spec_bytes(NATIVE_XLM_ADDRESS);
    }
    assert(bytes@.len() == STRKEY_LEN);
    Address::from_strkey(bytes)
}

} // verus!
