use vstd::prelude::*;

use crate::address::Address;
use crate::math::fits_i128;

verus! {

/// A write of an account's balance to storage.
#[derive(Clone, Copy, Debug, PartialEq, Eq)]
pub struct BalanceRecord {
    pub id: Address,
    pub balance: i128,
}

/// The storage of the mock token: admin, total supply, and balance writes
/// (a read returns the latest write for the account; never written reads 0).
#[derive(Debug)]
pub struct TokenState {
    pub admin: Option<Address>,
    pub total_supply: Option<i128>,
    pub balances: Vec<BalanceRecord>,
}

/// The contents of [`TokenState`] as mathematical values.
#[verifier::ext_equal]
pub struct TokenView {
    pub admin: Option<Address>,
    pub total_supply: Option<i128>,
    pub balances: Seq<BalanceRecord>,
}

impl View for TokenState {
    type V = TokenView;

    open spec fn view(&self) -> TokenView {
        TokenView { admin: self.admin, total_supply: self.total_supply, balances: self.balances@ }
    }
}

/// The latest balance written for `id`.
pub open spec fn latest_balance(s: Seq<BalanceRecord>, id: Address) -> Option<i128>
    decreases s.len(),
{
    if s.len() == 0 {
        None
    } else if s.last().id == id {
        Some(s.last().balance)
    } else {
        latest_balance(s.drop_last(), id)
    }
}

/// The balance of `id` after the writes `s` (0 when never written).
pub open spec fn current_balance(s: Seq<BalanceRecord>, id: Address) -> int {
    match latest_balance(s, id) {
        Some(b) => b as int,
        None => 0,
    }
}

/// The sum, over every account, of its current balance: of the writes `s`,
/// each one that no later write to the same account replaces is counted once.
pub open spec fn balance_total(s: Seq<BalanceRecord>) -> int
    decreases s.len(),
{
    if s.len() == 0 {
        0
    } else {
        let first = s[0];
        let rest = s.drop_first();
        (if latest_balance(rest, first.id) is None {
            first.balance as int
        } else {
            0
        }) + balance_total(rest)
    }
}

/// The latest write of a balance, seen from the first write: a later write
/// wins, else the first write when it is to `id`.
pub proof fn lemma_latest_balance_front(s: Seq<BalanceRecord>, id: Address)
    requires
        s.len() > 0,
    ensures
        latest_balance(s, id) == match latest_balance(s.drop_first(), id) {
            Some(b) => Some(b),
            None => if s[0].id == id {
                Some(s[0].balance)
            } else {
                None
            },
        },
    decreases s.len(),
{
    if s.len() == 1 {
        assert(s.drop_first().len() == 0);
        assert(s.drop_last().len() == 0);
    } else {
        assert(s.drop_first().last() == s.last());
        assert(s.drop_last().drop_first() =~= s.drop_first().drop_last());
        lemma_latest_balance_front(s.drop_last(), id);
    }
}

/// Writing a balance replaces, in the sum, the account's previous balance by
/// the new one.
pub proof fn lemma_balance_total_push(s: Seq<BalanceRecord>, rec: BalanceRecord)
    ensures
        balance_total(s.push(rec)) == balance_total(s) - current_balance(s, rec.id) + rec.balance,
    decreases s.len(),
{
    let t = s.push(rec);
    if s.len() == 0 {
        assert(t.drop_first() =~= Seq::<BalanceRecord>::empty());
        assert(t[0] == rec);
        assert(balance_total(Seq::<BalanceRecord>::empty()) == 0);
        assert(latest_balance(Seq::<BalanceRecord>::empty(), rec.id) is None);
        assert(current_balance(s, rec.id) == 0);
    } else {
        let rest = s.drop_first();
        let first = s[0];
        assert(t.drop_first() =~= rest.push(rec));
        assert(t[0] == first);
        assert(rest.push(rec).drop_last() =~= rest);
        lemma_balance_total_push(rest, rec);
        lemma_latest_balance_front(s, rec.id);
        assert(latest_balance(rest.push(rec), first.id) == if rec.id == first.id {
            Some(rec.balance)
        } else {
            latest_balance(rest, first.id)
        });
        assert(balance_total(t) == (if latest_balance(rest.push(rec), first.id) is None {
            first.balance as int
        } else {
            0
        }) + balance_total(rest.push(rec)));
        assert(balance_total(s) == (if latest_balance(rest, first.id) is None {
            first.balance as int
        } else {
            0
        }) + balance_total(rest));
    }
}

/// Reading a balance right after writing it gives what was written; other
/// balances read as before.
pub proof fn lemma_balance_after_write(v: TokenView, id: Address, balance: i128, other: Address)
    ensures
        v.with_balance(id, balance).balance_of(other) == (if other == id {
            balance
        } else {
            v.balance_of(other)
        }),
{
    let s = v.balances.push(BalanceRecord { id, balance });
    assert(s.drop_last() =~= v.balances);
}

impl TokenView {
    /// The balance of `id` (0 when never written).
    pub open spec fn balance_of(self, id: Address) -> i128 {
        match latest_balance(self.balances, id) {
            Some(b) => b,
            None => 0,
        }
    }

    /// This storage with the balance of `id` written.
    pub open spec fn with_balance(self, id: Address, balance: i128) -> TokenView {
        TokenView { balances: self.balances.push(BalanceRecord { id, balance }), ..self }
    }

    /// The total supply (0 when never written).
    pub open spec fn supply(self) -> i128 {
        match self.total_supply {
            Some(s) => s,
            None => 0,
        }
    }

    /// The total supply equals the sum of all balances.
    pub open spec fn supply_matches(self) -> bool {
        self.supply() == balance_total(self.balances)
    }
}

impl TokenState {
    /// Storage of a freshly deployed token.
    pub fn new() -> (r: TokenState)
        ensures
            r@ == (TokenView { admin: None, total_supply: None, balances: Seq::empty() }),
            r@.supply_matches(),
    {
        TokenState { admin: None, total_supply: None, balances: Vec::new() }
    }

    /// The balance of `id` (0 when never written).
    pub fn balance_of(&self, id: &Address) -> (r: i128)
        ensures
            r == self@.balance_of(*id),
    {
        let ghost s = self.balances@;
        let mut i = self.balances.len();
        assert(s.subrange(0, i as int) =~= s);
        while i > 0
            invariant
                i <= s.len(),
                s == self.balances@,
                latest_balance(s, *id) == latest_balance(s.subrange(0, i as int), *id),
            decreases i,
        {
            let rec = self.balances[i - 1];
            assert(s.subrange(0, i as int).drop_last() =~= s.subrange(0, i - 1));
            if rec.id.same(id) {
                return rec.balance;
            }
            i = i - 1;
        }
        0
    }

    /// Writes the balance of `id`.
    pub fn set_balance(&mut self, id: &Address, balance: i128)
        ensures
            final(self)@ == old(self)@.with_balance(*id, balance),
    {
        self.balances.push(BalanceRecord { id: *id, balance });
    }
}

/// Mock USDC token for testing the lending contract.
///
/// A minimal token that supports:
/// - mint: Create new tokens (admin only)
/// - transfer: Move tokens between addresses
/// - balance: Query token balance
pub struct MockUsdc;

impl MockUsdc {
    /// Initializes the mock token with an admin and a zero total supply.
    /// On storage that holds no balance yet, the supply then matches the
    /// balances.
    pub fn init(env: &mut TokenState, admin: &Address)
        ensures
            final(env)@ == (TokenView { admin: Some(*admin), total_supply: Some(0), ..old(env)@ }),
            balance_total(old(env)@.balances) == 0 ==> final(env)@.supply_matches(),
    {
        env.admin = Some(*admin);
        env.total_supply = Some(0);
    }

    /// Mints new tokens to the specified address. Admin only: the token
    /// panics unless `admin` is the stored admin and `amount` is positive.
    pub fn mint(env: &mut TokenState, admin: &Address, to: &Address, amount: i128)
        requires
            old(env)@.admin == Some(*admin),
            old(env)@.total_supply is Some,
            amount > 0,
            fits_i128(old(env)@.balance_of(*to) + amount),
            fits_i128(old(env)@.supply() + amount),
        ensures
            final(env)@ == (TokenView {
                total_supply: Some((old(env)@.supply() + amount) as i128),
                ..old(env)@.with_balance(*to, (old(env)@.balance_of(*to) + amount) as i128)
            }),
            final(env)@.balance_of(*to) == old(env)@.balance_of(*to) + amount,
            old(env)@.supply_matches() ==> final(env)@.supply_matches(),
    {
        proof {
            lemma_balance_total_push(env@.balances, BalanceRecord { id: *to, balance: (env@.balance_of(*to) + amount) as i128 });
            lemma_balance_after_write(env@, *to, (env@.balance_of(*to) + amount) as i128, *to);
        }
        let current = env.balance_of(to);
        env.set_balance(to, current + amount);

        let supply = match env.total_supply {
            Some(s) => s,
            None => 0,
        };
        env.total_supply = Some(supply + amount);
    }

    /// Transfers tokens from `from` to `to`; the token panics unless `amount`
    /// is positive and `from` holds at least `amount`.
    ///
    /// The receiver's balance is read after the sender's is debited, so a
    /// transfer to oneself leaves the balance as it was. A transfer never
    /// changes the total supply, and keeps it equal to the sum of balances.
    pub fn transfer(env: &mut TokenState, from: &Address, to: &Address, amount: i128)
        requires
            amount > 0,
            old(env)@.balance_of(*from) >= amount,
            *from == *to || fits_i128(old(env)@.balance_of(*to) + amount),
        ensures
            ({
                let debited = old(env)@.with_balance(*from, (old(env)@.balance_of(*from) - amount) as i128);
                final(env)@ == debited.with_balance(*to, (debited.balance_of(*to) + amount) as i128)
            }),
            *from == *to ==> final(env)@.balance_of(*from) == old(env)@.balance_of(*from),
            *from != *to ==> final(env)@.balance_of(*from) == old(env)@.balance_of(*from) - amount
                && final(env)@.balance_of(*to) == old(env)@.balance_of(*to) + amount,
            forall|other: Address|
                other != *from && other != *to ==> #[trigger] final(env)@.balance_of(other) == old(env)@.balance_of(
                    other,
                ),
            final(env)@.supply() == old(env)@.supply(),
            old(env)@.supply_matches() ==> final(env)@.supply_matches(),
    {
        let ghost pre = env@;
        let from_balance = env.balance_of(from);
        env.set_balance(from, from_balance - amount);

        let ghost debited = env@;
        proof {
            lemma_balance_after_write(pre, *from, (from_balance - amount) as i128, *to);
        }
        let to_balance = env.balance_of(to);
        env.set_balance(to, to_balance + amount);

        proof {
            lemma_balance_after_write(debited, *to, (to_balance + amount) as i128, *from);
            lemma_balance_after_write(pre, *from, (from_balance - amount) as i128, *from);
            lemma_balance_total_push(pre.balances, BalanceRecord { id: *from, balance: (from_balance - amount) as i128 });
            lemma_balance_total_push(debited.balances, BalanceRecord { id: *to, balance: (to_balance + amount) as i128 });
            assert forall|other: Address| other != *from && other != *to implies #[trigger] env@.balance_of(other)
                == pre.balance_of(other) by {
                lemma_balance_after_write(pre, *from, (from_balance - amount) as i128, other);
                lemma_balance_after_write(debited, *to, (to_balance + amount) as i128, other);
            }
        }
    }

    /// Returns the token balance of the given address.
    pub fn balance(env: &TokenState, id: &Address) -> (r: i128)
        ensures
            r == env@.balance_of(*id),
    {
        env.balance_of(id)
    }

    /// Returns the token name.
    pub fn name() -> (r: String)
        ensures
            r@ == "USDC"@,
    {
        "USDC".to_owned()
    }

    /// Returns the token symbol.
    pub fn symbol() -> (r: String)
        ensures
            r@ == "USDC"@,
    {
        "USDC".to_owned()
    }

    /// Returns the token decimals.
    pub fn decimals() -> (r: u32)
        ensures
            r == 7,
    {
        7
    }

    /// Returns the total supply.
    pub fn total_supply(env: &TokenState) -> (r: i128)
        ensures
            r == env@.supply(),
    {
        match env.total_supply {
            Some(s) => s,
            None => 0,
        }
    }
}

} // verus!
