use vstd::prelude::*;

use crate::address::{bytes32_eq, Address};
use crate::types::{Asset, Error, LoanData, PoolPosition, PoolStats, Transfer};
use crate::zk::types::{VerifierState, VerifierView};

verus! {

/// A write of a lender's pool position to storage.
#[derive(Clone, Copy, Debug, PartialEq, Eq)]
pub struct PositionRecord {
    pub lender: Address,
    pub asset: Asset,
    pub position: PoolPosition,
}

/// A write of a loan to storage.
#[derive(Clone, Copy, Debug, PartialEq, Eq)]
pub struct LoanRecord {
    pub id: u64,
    pub loan: LoanData,
}

/// The storage, ledger clock and pending token transfers of the lending
/// contract.
///
/// Keyed storage (positions, loans) is a list of writes: a read returns the
/// latest write to its key, and a key never written reads as absent.
#[derive(Debug)]
pub struct ContractState {
    /// The address of the contract itself
    pub current_contract: Address,
    /// The ledger timestamp of the current call
    pub timestamp: u64,
    /// Whether the contract has been initialized
    pub initialized: bool,
    /// Protocol administrator
    pub admin: Option<Address>,
    /// USDC token contract address
    pub usdc_address: Option<Address>,
    /// Loan counter (last loan ID issued)
    pub loan_counter: u64,
    /// Pool stats for XLM
    pub xlm_pool: PoolStats,
    /// Pool stats for USDC
    pub usdc_pool: PoolStats,
    /// Writes of lenders' pool positions
    pub positions: Vec<PositionRecord>,
    /// Writes of loans
    pub loans: Vec<LoanRecord>,
    /// Nullifier registry for double-spend prevention
    pub used_nullifiers: Vec<[u8; 32]>,
    /// The proof verifier's storage
    pub verifier: VerifierState,
    /// Token transfers requested so far, in order
    pub transfers: Vec<Transfer>,
}

/// The contents of [`ContractState`] as mathematical values.
#[verifier::ext_equal]
pub struct ContractView {
    pub current_contract: Address,
    pub timestamp: u64,
    pub initialized: bool,
    pub admin: Option<Address>,
    pub usdc_address: Option<Address>,
    pub loan_counter: u64,
    pub xlm_pool: PoolStats,
    pub usdc_pool: PoolStats,
    pub positions: Seq<PositionRecord>,
    pub loans: Seq<LoanRecord>,
    pub used_nullifiers: Seq<[u8; 32]>,
    pub verifier: VerifierView,
    pub transfers: Seq<Transfer>,
}

impl View for ContractState {
    type V = ContractView;

    open spec fn view(&self) -> ContractView {
        ContractView {
            current_contract: self.current_contract,
            timestamp: self.timestamp,
            initialized: self.initialized,
            admin: self.admin,
            usdc_address: self.usdc_address,
            loan_counter: self.loan_counter,
            xlm_pool: self.xlm_pool,
            usdc_pool: self.usdc_pool,
            positions: self.positions@,
            loans: self.loans@,
            used_nullifiers: self.used_nullifiers@,
            verifier: self.verifier@,
            transfers: self.transfers@,
        }
    }
}

/// The latest position written for `(lender, asset)`.
pub open spec fn latest_position(s: Seq<PositionRecord>, lender: Address, asset: Asset) -> Option<PoolPosition>
    decreases s.len(),
{
    if s.len() == 0 {
        None
    } else if s.last().lender == lender && s.last().asset == asset {
        Some(s.last().position)
    } else {
        latest_position(s.drop_last(), lender, asset)
    }
}

/// The latest loan written under `id`.
pub open spec fn latest_loan(s: Seq<LoanRecord>, id: u64) -> Option<LoanData>
    decreases s.len(),
{
    if s.len() == 0 {
        None
    } else if s.last().id == id {
        Some(s.last().loan)
    } else {
        latest_loan(s.drop_last(), id)
    }
}

/// The shares of `lender` in `asset` after the writes `s` (0 when never written).
pub open spec fn current_shares(s: Seq<PositionRecord>, lender: Address, asset: Asset) -> int {
    match latest_position(s, lender, asset) {
        Some(p) => p.shares as int,
        None => 0,
    }
}

/// The sum, over every lender, of its current shares in `asset`: of the
/// writes `s`, each one that no later write to the same lender and asset
/// replaces is counted once.
pub open spec fn shares_total(s: Seq<PositionRecord>, asset: Asset) -> int
    decreases s.len(),
{
    if s.len() == 0 {
        0
    } else {
        let first = s[0];
        let rest = s.drop_first();
        (if first.asset == asset && latest_position(rest, first.lender, asset) is None {
            first.position.shares as int
        } else {
            0
        }) + shares_total(rest, asset)
    }
}

/// Every position written for `asset` holds no negative shares.
pub open spec fn shares_nonneg(s: Seq<PositionRecord>, asset: Asset) -> bool {
    forall|i: int| 0 <= i < s.len() && (#[trigger] s[i]).asset == asset ==> s[i].position.shares >= 0
}

/// The latest write of a position, seen from the first write: a later write
/// wins, else the first write when it is to `lender` and `asset`.
pub proof fn lemma_latest_position_front(s: Seq<PositionRecord>, lender: Address, asset: Asset)
    requires
        s.len() > 0,
    ensures
        latest_position(s, lender, asset) == match latest_position(s.drop_first(), lender, asset) {
            Some(p) => Some(p),
            None => if s[0].lender == lender && s[0].asset == asset {
                Some(s[0].position)
            } else {
                None
            },
        },
    decreases s.len(),
{
    if s.len() == 1 {
        assert(s.drop_first().len() == 0);
        assert(s.drop_last().len() == 0);
    } else {
        assert(s.drop_first().last() == s.last());
        assert(s.drop_last().drop_first() =~= s.drop_first().drop_last());
        lemma_latest_position_front(s.drop_last(), lender, asset);
    }
}

/// Writing a position replaces, in the total, the lender's previous shares
/// by the new ones.
pub proof fn lemma_shares_total_push(s: Seq<PositionRecord>, rec: PositionRecord, asset: Asset)
    ensures
        shares_total(s.push(rec), asset) == shares_total(s, asset) + (if rec.asset == asset {
            rec.position.shares - current_shares(s, rec.lender, asset)
        } else {
            0
        }),
    decreases s.len(),
{
    let t = s.push(rec);
    if s.len() == 0 {
        assert(t.drop_first() =~= Seq::<PositionRecord>::empty());
        assert(t[0] == rec);
        assert(shares_total(Seq::<PositionRecord>::empty(), asset) == 0);
        assert(latest_position(Seq::<PositionRecord>::empty(), rec.lender, asset) is None);
        assert(current_shares(s, rec.lender, asset) == 0);
    } else {
        let rest = s.drop_first();
        let first = s[0];
        assert(t.drop_first() =~= rest.push(rec));
        assert(t[0] == first);
        assert(rest.push(rec).drop_last() =~= rest);
        lemma_shares_total_push(rest, rec, asset);
        lemma_latest_position_front(s, rec.lender, asset);
        assert(latest_position(rest.push(rec), first.lender, asset) == if rec.lender == first.lender
            && rec.asset == asset {
            Some(rec.position)
        } else {
            latest_position(rest, first.lender, asset)
        });
        assert(shares_total(t, asset) == (if first.asset == asset && latest_position(
            rest.push(rec),
            first.lender,
            asset,
        ) is None {
            first.position.shares as int
        } else {
            0
        }) + shares_total(rest.push(rec), asset));
        assert(shares_total(s, asset) == (if first.asset == asset && latest_position(rest, first.lender, asset) is None {
            first.position.shares as int
        } else {
            0
        }) + shares_total(rest, asset));
    }
}

/// With no negative shares written, each lender's current shares lie between
/// zero and the total.
pub proof fn lemma_shares_total_bounds(s: Seq<PositionRecord>, asset: Asset, lender: Address)
    requires
        shares_nonneg(s, asset),
    ensures
        0 <= current_shares(s, lender, asset) <= shares_total(s, asset),
    decreases s.len(),
{
    if s.len() > 0 {
        let rest = s.drop_first();
        assert forall|i: int| 0 <= i < rest.len() && (#[trigger] rest[i]).asset == asset implies rest[i].position.shares
            >= 0 by {
            assert(rest[i] == s[i + 1]);
        }
        lemma_shares_total_bounds(rest, asset, lender);
        lemma_latest_position_front(s, lender, asset);
        if s[0].asset == asset {
            assert(s[0].position.shares >= 0);
        }
    }
}

impl ContractView {
    /// Pool stats of `asset`.
    pub open spec fn pool(self, asset: Asset) -> PoolStats {
        match asset {
            Asset::XLM => self.xlm_pool,
            Asset::USDC => self.usdc_pool,
        }
    }

    /// This state with the pool stats of `asset` replaced.
    pub open spec fn with_pool(self, asset: Asset, stats: PoolStats) -> ContractView {
        match asset {
            Asset::XLM => ContractView { xlm_pool: stats, ..self },
            Asset::USDC => ContractView { usdc_pool: stats, ..self },
        }
    }

    /// The pool position of `lender` for `asset` (zero when never written).
    pub open spec fn position(self, lender: Address, asset: Asset) -> PoolPosition {
        match latest_position(self.positions, lender, asset) {
            Some(p) => p,
            None => PoolPosition::spec_empty(),
        }
    }

    /// This state with the position of `lender` for `asset` written.
    pub open spec fn with_position(self, lender: Address, asset: Asset, position: PoolPosition) -> ContractView {
        ContractView {
            positions: self.positions.push(PositionRecord { lender, asset, position }),
            ..self
        }
    }

    /// The loan stored under `id`.
    pub open spec fn loan(self, id: u64) -> Option<LoanData> {
        latest_loan(self.loans, id)
    }

    /// This state with `loan` written under `id`.
    pub open spec fn with_loan(self, id: u64, loan: LoanData) -> ContractView {
        ContractView { loans: self.loans.push(LoanRecord { id, loan }), ..self }
    }

    /// Whether `nullifier` has been used for a loan.
    pub open spec fn nullifier_used(self, nullifier: [u8; 32]) -> bool {
        self.used_nullifiers.contains(nullifier)
    }

    /// This state with `nullifier` marked as used.
    pub open spec fn with_used_nullifier(self, nullifier: [u8; 32]) -> ContractView {
        ContractView { used_nullifiers: self.used_nullifiers.push(nullifier), ..self }
    }

    /// This state with `transfer` requested.
    pub open spec fn with_transfer(self, transfer: Transfer) -> ContractView {
        ContractView { transfers: self.transfers.push(transfer), ..self }
    }

    /// Both pools have available liquidity equal to deposits minus lent.
    pub open spec fn pools_balanced(self) -> bool {
        self.xlm_pool.balanced() && self.usdc_pool.balanced()
    }

    /// The pool of `asset` agrees with the positions: available liquidity
    /// is deposits minus what is lent and never negative, total shares is
    /// the sum of the lenders' shares, none of which is negative, and there
    /// are shares exactly when there are deposits.
    pub open spec fn pool_consistent(self, asset: Asset) -> bool {
        let stats = self.pool(asset);
        &&& stats.balanced()
        &&& stats.available_liquidity >= 0
        &&& stats.total_deposits >= 0
        &&& stats.total_shares >= 0
        &&& stats.total_shares == shares_total(self.positions, asset)
        &&& (stats.total_shares == 0 <==> stats.total_deposits == 0)
        &&& shares_nonneg(self.positions, asset)
    }

    /// Both pools are consistent, and no loan holds a negative bond.
    pub open spec fn ledger_consistent(self) -> bool {
        &&& self.pool_consistent(Asset::XLM)
        &&& self.pool_consistent(Asset::USDC)
        &&& forall|i: int| 0 <= i < self.loans.len() ==> (#[trigger] self.loans[i]).loan.skin_in_game >= 0
    }

    /// Every nullifier registered in `self` is registered in `later`.
    pub open spec fn nullifiers_kept_in(self, later: ContractView) -> bool {
        &&& forall|n: [u8; 32]| self.nullifier_used(n) ==> later.nullifier_used(n)
        &&& forall|n: [u8; 32]| self.verifier.is_verified(n) ==> later.verifier.is_verified(n)
    }
}

/// The state after moving `amount` of `asset` from `from` to `to`: a USDC
/// transfer is requested from the USDC token contract (`NotInitialized` when
/// its address is not stored); XLM moves are tracked by the pool alone.
pub open spec fn spec_transfer_asset(pre: ContractView, from: Address, to: Address, asset: Asset, amount: i128) -> Result<ContractView, Error> {
    match asset {
        Asset::USDC => match pre.usdc_address {
            Some(token) => Ok(pre.with_transfer(Transfer { token, from, to, amount })),
            None => Err(Error::NotInitialized),
        },
        Asset::XLM => Ok(pre),
    }
}

impl ContractState {
    /// Storage of a freshly deployed contract at `current_contract`, at ledger time `timestamp`.
    pub fn new(current_contract: Address, timestamp: u64) -> (r: ContractState)
        ensures
            r@ == (ContractView {
                current_contract,
                timestamp,
                initialized: false,
                admin: None,
                usdc_address: None,
                loan_counter: 0,
                xlm_pool: PoolStats::spec_empty(),
                usdc_pool: PoolStats::spec_empty(),
                positions: Seq::empty(),
                loans: Seq::empty(),
                used_nullifiers: Seq::empty(),
                verifier: VerifierView {
                    admin: None,
                    initialized: false,
                    vk: None,
                    verified_nullifiers: Seq::empty(),
                },
                transfers: Seq::empty(),
            }),
            r@.ledger_consistent(),
    {
        ContractState {
            current_contract,
            timestamp,
            initialized: false,
            admin: None,
            usdc_address: None,
            loan_counter: 0,
            xlm_pool: PoolStats::empty(),
            usdc_pool: PoolStats::empty(),
            positions: Vec::new(),
            loans: Vec::new(),
            used_nullifiers: Vec::new(),
            verifier: VerifierState::new(),
            transfers: Vec::new(),
        }
    }

    /// Sets the ledger timestamp seen by later calls.
    pub fn set_timestamp(&mut self, timestamp: u64)
        ensures
            final(self)@ == (ContractView { timestamp, ..old(self)@ }),
    {
        self.timestamp = timestamp;
    }

    /// Takes the token transfers requested so far, leaving none pending.
    pub fn take_transfers(&mut self) -> (r: Vec<Transfer>)
        ensures
            r@ == old(self)@.transfers,
            final(self)@ == (ContractView { transfers: Seq::empty(), ..old(self)@ }),
    {
        let mut out = Vec::new();
        std::mem::swap(&mut out, &mut self.transfers);
        out
    }

    /// Pool stats of `asset`.
    pub fn pool(&self, asset: Asset) -> (r: PoolStats)
        ensures
            r == self@.pool(asset),
    {
        match asset {
            Asset::XLM => self.xlm_pool,
            Asset::USDC => self.usdc_pool,
        }
    }

    /// Replaces the pool stats of `asset`.
    pub fn set_pool(&mut self, asset: Asset, stats: PoolStats)
        ensures
            final(self)@ == old(self)@.with_pool(asset, stats),
    {
        match asset {
            Asset::XLM => self.xlm_pool = stats,
            Asset::USDC => self.usdc_pool = stats,
        }
    }

    /// The stored position of `lender` for `asset`, if any.
    pub fn find_position(&self, lender: &Address, asset: Asset) -> (r: Option<PoolPosition>)
        ensures
            r == latest_position(self@.positions, *lender, asset),
    {
        let ghost s = self.positions@;
        let mut i = self.positions.len();
        assert(s.subrange(0, i as int) =~= s);
        while i > 0
            invariant
                i <= s.len(),
                s == self.positions@,
                latest_position(s, *lender, asset) == latest_position(s.subrange(0, i as int), *lender, asset),
            decreases i,
        {
            let rec = self.positions[i - 1];
            assert(s.subrange(0, i as int).drop_last() =~= s.subrange(0, i - 1));
            if rec.lender.same(lender) && rec.asset == asset {
                return Some(rec.position);
            }
            i = i - 1;
        }
        None
    }

    /// The position of `lender` for `asset` (zero when never written).
    pub fn position(&self, lender: &Address, asset: Asset) -> (r: PoolPosition)
        ensures
            r == self@.position(*lender, asset),
    {
        match self.find_position(lender, asset) {
            Some(p) => p,
            None => PoolPosition::empty(),
        }
    }

    /// Writes the position of `lender` for `asset`.
    pub fn set_position(&mut self, lender: &Address, asset: Asset, position: PoolPosition)
        ensures
            final(self)@ == old(self)@.with_position(*lender, asset, position),
    {
        self.positions.push(PositionRecord { lender: *lender, asset, position });
    }

    /// The loan stored under `id`, if any.
    pub fn find_loan(&self, id: u64) -> (r: Option<LoanData>)
        ensures
            r == self@.loan(id),
    {
        let ghost s = self.loans@;
        let mut i = self.loans.len();
        assert(s.subrange(0, i as int) =~= s);
        while i > 0
            invariant
                i <= s.len(),
                s == self.loans@,
                latest_loan(s, id) == latest_loan(s.subrange(0, i as int), id),
            decreases i,
        {
            let rec = self.loans[i - 1];
            assert(s.subrange(0, i as int).drop_last() =~= s.subrange(0, i - 1));
            if rec.id == id {
                return Some(rec.loan);
            }
            i = i - 1;
        }
        None
    }

    /// Writes `loan` under `id`.
    pub fn set_loan(&mut self, id: u64, loan: LoanData)
        ensures
            final(self)@ == old(self)@.with_loan(id, loan),
    {
        self.loans.push(LoanRecord { id, loan });
    }

    /// Whether `nullifier` has been used for a loan.
    pub fn is_nullifier_used(&self, nullifier: &[u8; 32]) -> (r: bool)
        ensures
            r == self@.nullifier_used(*nullifier),
    {
        let n = self.used_nullifiers.len();
        let mut i: usize = 0;
        while i < n
            invariant
                i <= n,
                n == self.used_nullifiers@.len(),
                forall|j: int| 0 <= j < i ==> self.used_nullifiers@[j] != *nullifier,
            decreases n - i,
        {
            if bytes32_eq(&self.used_nullifiers[i], nullifier) {
                assert(self.used_nullifiers@[i as int] == *nullifier);
                return true;
            }
            i = i + 1;
        }
        false
    }

    /// Marks `nullifier` as used.
    pub fn mark_nullifier_used(&mut self, nullifier: [u8; 32])
        ensures
            final(self)@ == old(self)@.with_used_nullifier(nullifier),
    {
        self.used_nullifiers.push(nullifier);
    }

    /// Requests a token transfer.
    pub fn push_transfer(&mut self, transfer: Transfer)
        ensures
            final(self)@ == old(self)@.with_transfer(transfer),
    {
        self.transfers.push(transfer);
    }
}

} // verus!
