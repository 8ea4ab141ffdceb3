//! Payments accounts: the system's own accounts and pools of free accounts.

use vstd::prelude::*;
use crate::ids::AccountId;
use crate::money::TureCurrency;
use crate::service_error::{Error as ServiceError, is_internal_error};
use crate::wallet::{WalletAddress, hyphenated_uuid, is_v4_uuid, random_uuid_bits, uuid_hyphenated_text};

verus! {

/// An account with the payments service.
#[derive(Clone, Debug)]
pub struct Account {
    pub id: AccountId,
    pub currency: TureCurrency,
    pub is_pooled: bool,
    pub wallet_address: Option<WalletAddress>,
}

} // verus!

verus! {

/// What a system account is for.
#[derive(Clone, Copy, Debug, PartialEq, Eq, Structural)]
pub enum SystemAccountType {
    Main,
    Cashback,
}

/// One of the billing's own accounts.
#[derive(Clone, Copy, Debug, PartialEq, Eq, Structural)]
pub struct SystemAccount {
    pub id: AccountId,
    pub currency: TureCurrency,
    pub account_type: SystemAccountType,
}

/// The billing's own accounts.
#[derive(Clone, Debug)]
pub struct SystemAccounts(pub Vec<SystemAccount>);

/// A request to the payments service to open an account.
#[derive(Clone, Debug)]
pub struct CreateAccount {
    pub id: AccountId,
    pub currency: TureCurrency,
    pub name: String,
    pub callback_url: String,
}

/// An account to be stored.
#[derive(Clone, Debug)]
pub struct NewAccount {
    pub id: AccountId,
    pub currency: TureCurrency,
    pub is_pooled: bool,
    pub wallet_address: Option<WalletAddress>,
}

/// Where a free pooled account comes from.
#[derive(Clone, Debug)]
pub enum PooledAccountStep {
    /// The pool's free account.
    Use(Account),
    /// None is free: open a new pooled account.
    Create(CreateAccount),
}

/// Decides where a free pooled account in `currency` comes from: the free
/// account of the pool (`free`), else a new one with a fresh random
/// identifier, named by that identifier's hyphenated text, whose events go
/// to `callback_url`.
pub fn pooled_account_step(free: Option<Account>, currency: TureCurrency, callback_url: String) -> (s: PooledAccountStep)
    ensures
        match free {
            Some(a) => s == PooledAccountStep::Use(a),
            None => (s matches PooledAccountStep::Create(r) && r.currency == currency && is_v4_uuid(r.id.0)
                && r.name@ == hyphenated_uuid(r.id.0) && r.callback_url@ == callback_url@),
        },
{
    match free {
        Some(a) => PooledAccountStep::Use(a),
        None => {
            let id = random_uuid_bits();
            PooledAccountStep::Create(
                CreateAccount { id: AccountId(id), currency, name: uuid_hyphenated_text(id), callback_url },
            )
        },
    }
}

/// The record of the account that the payments service opened for
/// `request`, with the wallet address it reported.
pub fn opened_account(request: &CreateAccount, is_pooled: bool, account_address: String) -> (a: NewAccount)
    ensures
        a.id == request.id,
        a.currency == request.currency,
        a.is_pooled == is_pooled,
        a.wallet_address matches Some(w) && w.0@ == account_address@,
{
    NewAccount {
        id: request.id,
        currency: request.currency,
        is_pooled,
        wallet_address: Some(WalletAddress(account_address)),
    }
}

/// The first of `s` for `currency` and `account_type`.
pub open spec fn system_account_of(
    s: Seq<SystemAccount>,
    currency: TureCurrency,
    account_type: SystemAccountType,
) -> Option<AccountId>
    decreases s.len(),
{
    if s.len() == 0 {
        None
    } else if s[0].currency == currency && s[0].account_type == account_type {
        Some(s[0].id)
    } else {
        system_account_of(s.drop_first(), currency, account_type)
    }
}

impl SystemAccounts {
    /// The system account for `currency` and `account_type`, the first one
    /// listed where there are several.
    pub fn get(&self, currency: TureCurrency, account_type: SystemAccountType) -> (r: Option<AccountId>)
        ensures
            r == system_account_of(self.0@, currency, account_type),
    {
        let mut i: usize = 0;
        assert(self.0@.skip(0) =~= self.0@);
        while i < self.0.len()
            invariant
                i <= self.0@.len(),
                system_account_of(self.0@, currency, account_type) == system_account_of(
                    self.0@.skip(i as int),
                    currency,
                    account_type,
                ),
            decreases self.0@.len() - i,
        {
            assert(self.0@.skip(i as int).drop_first() =~= self.0@.skip(i + 1));
            let a = self.0[i];
            if a.currency == currency && a.account_type == account_type {
                return Some(a.id);
            }
            i = i + 1;
        }
        None
    }
}

/// The system account for `currency` and `account_type`; a missing one is
/// an internal error.
pub fn system_account_id(system: &SystemAccounts, currency: TureCurrency, account_type: SystemAccountType) -> (r: Result<
    AccountId,
    ServiceError,
>)
    ensures
        match system_account_of(system.0@, currency, account_type) {
            Some(id) => r == Ok::<AccountId, ServiceError>(id),
            None => (r matches Err(e) && is_internal_error(e, None)),
        },
{
    match system.get(currency, account_type) {
        Some(id) => Ok(id),
        None => Err(ServiceError::internal()),
    }
}

/// The main system account of `currency`; a missing one is an internal error.
pub fn main_account_id(system: &SystemAccounts, currency: TureCurrency) -> (r: Result<AccountId, ServiceError>)
    ensures
        match system_account_of(system.0@, currency, SystemAccountType::Main) {
            Some(id) => r == Ok::<AccountId, ServiceError>(id),
            None => (r matches Err(e) && is_internal_error(e, None)),
        },
{
    system_account_id(system, currency, SystemAccountType::Main)
}

/// The STQ cashback system account; a missing one is an internal error.
pub fn stq_cashback_account_id(system: &SystemAccounts) -> (r: Result<AccountId, ServiceError>)
    ensures
        match system_account_of(system.0@, TureCurrency::Stq, SystemAccountType::Cashback) {
            Some(id) => r == Ok::<AccountId, ServiceError>(id),
            None => (r matches Err(e) && is_internal_error(e, None)),
        },
{
    system_account_id(system, TureCurrency::Stq, SystemAccountType::Cashback)
}

/// Whether an account with identifier `id` is among `accounts`.
pub open spec fn has_account(accounts: Seq<Account>, id: AccountId) -> bool {
    exists|i: int| 0 <= i < accounts.len() && (#[trigger] accounts[i]).id == id
}

/// The system accounts of `system` that are not among `existing`, in their order.
pub open spec fn missing_accounts(system: Seq<SystemAccount>, existing: Seq<Account>) -> Seq<SystemAccount>
    decreases system.len(),
{
    if system.len() == 0 {
        seq![]
    } else {
        let rest = missing_accounts(system.drop_last(), existing);
        if has_account(existing, system.last().id) {
            rest
        } else {
            rest.push(system.last())
        }
    }
}

fn account_exists(accounts: &[Account], id: AccountId) -> (r: bool)
    ensures
        r == has_account(accounts@, id),
{
    let mut i: usize = 0;
    while i < accounts.len()
        invariant
            i <= accounts@.len(),
            forall|j: int| 0 <= j < i ==> (#[trigger] accounts@[j]).id != id,
        decreases accounts@.len() - i,
    {
        if accounts[i].id == id {
            return true;
        }
        i = i + 1;
    }
    false
}

/// The system accounts that still have to be created: those of `system`
/// that are not among the `existing` accounts.
pub fn missing_system_accounts(system: &[SystemAccount], existing: &[Account]) -> (r: Vec<SystemAccount>)
    ensures
        r@ == missing_accounts(system@, existing@),
{
    let mut r: Vec<SystemAccount> = Vec::new();
    let mut i: usize = 0;
    while i < system.len()
        invariant
            i <= system@.len(),
            r@ == missing_accounts(system@.take(i as int), existing@),
        decreases system@.len() - i,
    {
        assert(system@.take(i + 1).drop_last() =~= system@.take(i as int));
        if !account_exists(existing, system[i].id) {
            r.push(system[i]);
        }
        i = i + 1;
    }
    assert(system@.take(system@.len() as int) =~= system@);
    r
}

/// Every system account either exists already or is among those to create.
pub proof fn system_accounts_covered(system: Seq<SystemAccount>, existing: Seq<Account>, a: SystemAccount)
    requires
        system.contains(a),
    ensures
        has_account(existing, a.id) || missing_accounts(system, existing).contains(a),
    decreases system.len(),
{
    if system.last() == a {
        if !has_account(existing, a.id) {
            let m = missing_accounts(system, existing);
            assert(m[m.len() - 1] == a);
        }
    } else {
        let i = choose|i: int| 0 <= i < system.len() && system[i] == a;
        assert(system.drop_last()[i] == a);
        system_accounts_covered(system.drop_last(), existing, a);
        if !has_account(existing, a.id) {
            let rest = missing_accounts(system.drop_last(), existing);
            let j = choose|j: int| 0 <= j < rest.len() && rest[j] == a;
            if has_account(existing, system.last().id) {
            } else {
                assert(rest.push(system.last())[j] == a);
            }
        }
    }
}

/// How many accounts a pool lacks: `min` less the `existing` ones, or none.
pub open spec fn pool_shortfall(existing: u64, min: u32) -> nat {
    if (min as int) > (existing as int) {
        (min - existing) as nat
    } else {
        0
    }
}

/// The currencies of the pooled accounts to create, one entry per account:
/// for each pool, as many as it lacks, in the order of `pooled`.
pub open spec fn pool_top_up(pooled: Seq<(TureCurrency, u64)>, min: u32) -> Seq<TureCurrency>
    decreases pooled.len(),
{
    if pooled.len() == 0 {
        seq![]
    } else {
        pool_top_up(pooled.drop_last(), min) + Seq::new(
            pool_shortfall(pooled.last().1, min),
            |_i: int| pooled.last().0,
        )
    }
}

/// The pooled accounts to create so that each pool of `pooled` (currency
/// and number of accounts) holds at least `min_accounts_in_pool`.
pub fn accounts_to_create(pooled: &[(TureCurrency, u64)], min_accounts_in_pool: u32) -> (r: Vec<TureCurrency>)
    ensures
        r@ == pool_top_up(pooled@, min_accounts_in_pool),
{
    let mut r: Vec<TureCurrency> = Vec::new();
    let mut i: usize = 0;
    while i < pooled.len()
        invariant
            i <= pooled@.len(),
            r@ == pool_top_up(pooled@.take(i as int), min_accounts_in_pool),
        decreases pooled@.len() - i,
    {
        assert(pooled@.take(i + 1).drop_last() =~= pooled@.take(i as int));
        let (currency, num_existing) = pooled[i];
        let ghost before = r@;
        match (min_accounts_in_pool as u64).checked_sub(num_existing) {
            Some(k) => {
                let mut n: u64 = 0;
                while n < k
                    invariant
                        n <= k,
                        r@ == before + Seq::new(n as nat, |_i: int| currency),
                    decreases k - n,
                {
                    r.push(currency);
                    n = n + 1;
                    assert(r@ =~= before + Seq::new(n as nat, |_i: int| currency));
                }
                assert(r@ =~= pool_top_up(pooled@.take(i + 1), min_accounts_in_pool));
            },
            None => {
                assert(r@ =~= pool_top_up(pooled@.take(i + 1), min_accounts_in_pool));
            },
        }
        i = i + 1;
    }
    assert(pooled@.take(pooled@.len() as int) =~= pooled@);
    r
}

/// How many times `c` occurs in `s`.
pub open spec fn occurrences(s: Seq<TureCurrency>, c: TureCurrency) -> nat
    decreases s.len(),
{
    if s.len() == 0 {
        0
    } else {
        occurrences(s.drop_last(), c) + if s.last() == c {
            1nat
        } else {
            0nat
        }
    }
}

proof fn lemma_occurrences_concat(a: Seq<TureCurrency>, b: Seq<TureCurrency>, c: TureCurrency)
    ensures
        occurrences(a + b, c) == occurrences(a, c) + occurrences(b, c),
    decreases b.len(),
{
    if b.len() > 0 {
        assert((a + b).drop_last() =~= a + b.drop_last());
        lemma_occurrences_concat(a, b.drop_last(), c);
    } else {
        assert(a + b =~= a);
    }
}

proof fn lemma_occurrences_repeat(n: nat, x: TureCurrency, c: TureCurrency)
    ensures
        occurrences(Seq::new(n, |_i: int| x), c) == if x == c {
            n
        } else {
            0nat
        },
    decreases n,
{
    if n > 0 {
        assert(Seq::new(n, |_i: int| x).drop_last() =~= Seq::new((n - 1) as nat, |_i: int| x));
        lemma_occurrences_repeat((n - 1) as nat, x, c);
    }
}

/// Where each currency has one pool in `pooled`, creating the accounts of
/// `pool_top_up` fills every pool to at least `min` accounts: the pool of
/// `pooled[k]` gets exactly the accounts it lacks.
pub proof fn pool_top_up_fills_pools(pooled: Seq<(TureCurrency, u64)>, min: u32, k: int)
    requires
        0 <= k < pooled.len(),
        forall|i: int, j: int| 0 <= i < j < pooled.len() ==> pooled[i].0 != pooled[j].0,
    ensures
        occurrences(pool_top_up(pooled, min), pooled[k].0) == pool_shortfall(pooled[k].1, min),
        pooled[k].1 + occurrences(pool_top_up(pooled, min), pooled[k].0) >= min,
    decreases pooled.len(),
{
    let c = pooled[k].0;
    let last = pooled.last();
    let rest = pooled.drop_last();
    lemma_occurrences_concat(pool_top_up(rest, min), Seq::new(pool_shortfall(last.1, min), |_i: int| last.0), c);
    lemma_occurrences_repeat(pool_shortfall(last.1, min), last.0, c);
    if k == pooled.len() - 1 {
        lemma_no_occurrence(rest, min, c);
    } else {
        assert(rest[k] == pooled[k]);
        pool_top_up_fills_pools(rest, min, k);
        assert(last.0 != c);
    }
}

proof fn lemma_no_occurrence(pooled: Seq<(TureCurrency, u64)>, min: u32, c: TureCurrency)
    requires
        forall|i: int| 0 <= i < pooled.len() ==> (#[trigger] pooled[i]).0 != c,
    ensures
        occurrences(pool_top_up(pooled, min), c) == 0,
    decreases pooled.len(),
{
    if pooled.len() > 0 {
        let last = pooled.last();
        assert(pooled[pooled.len() - 1].0 != c);
        assert forall|i: int| 0 <= i < pooled.drop_last().len() implies (#[trigger] pooled.drop_last()[i]).0 != c by {
            assert(pooled.drop_last()[i] == pooled[i]);
        }
        lemma_no_occurrence(pooled.drop_last(), min, c);
        lemma_occurrences_concat(
            pool_top_up(pooled.drop_last(), min),
            Seq::new(pool_shortfall(last.1, min), |_i: int| last.0),
            c,
        );
        lemma_occurrences_repeat(pool_shortfall(last.1, min), last.0, c);
    }
}

/// The number of accounts in each currency, pooled and not pooled.
#[derive(Clone, Debug)]
pub struct AccountCount {
    pub pooled: Vec<(TureCurrency, u64)>,
    pub unpooled: Vec<(TureCurrency, u64)>,
}

/// How many accounts of `accounts` (currency and whether pooled) are in
/// `currency` and pooled as `pooled`.
pub open spec fn count_of(accounts: Seq<(TureCurrency, bool)>, currency: TureCurrency, pooled: bool) -> nat
    decreases accounts.len(),
{
    if accounts.len() == 0 {
        0
    } else {
        count_of(accounts.drop_last(), currency, pooled) + if accounts.last().0 == currency
            && accounts.last().1 == pooled {
            1nat
        } else {
            0nat
        }
    }
}

proof fn lemma_count_bound(accounts: Seq<(TureCurrency, bool)>, currency: TureCurrency, pooled: bool)
    ensures
        count_of(accounts, currency, pooled) <= accounts.len(),
    decreases accounts.len(),
{
    if accounts.len() > 0 {
        lemma_count_bound(accounts.drop_last(), currency, pooled);
    }
}

/// The counts per currency, every currency listed (with zero where it has
/// no account), in the order STQ, ETH, BTC.
pub open spec fn counts_in(accounts: Seq<(TureCurrency, bool)>, pooled: bool) -> Seq<(TureCurrency, u64)> {
    seq![
        (TureCurrency::Stq, count_of(accounts, TureCurrency::Stq, pooled) as u64),
        (TureCurrency::Eth, count_of(accounts, TureCurrency::Eth, pooled) as u64),
        (TureCurrency::Btc, count_of(accounts, TureCurrency::Btc, pooled) as u64),
    ]
}

/// The counts list every currency once, in the order STQ, ETH, BTC; with
/// no accounts every count is zero; and counting one more account raises
/// the count of its currency and kind (pooled or not) by one and leaves
/// every other count as it was, so an account that is not pooled never
/// raises a pooled count, nor a pooled one an unpooled count.
pub proof fn account_counts_step(
    accounts: Seq<(TureCurrency, bool)>,
    currency: TureCurrency,
    is_pooled: bool,
    pooled: bool,
    k: int,
)
    requires
        accounts.len() + 1 <= u64::MAX,
        0 <= k < 3,
    ensures
        counts_in(accounts, pooled).len() == 3,
        counts_in(accounts, pooled)[0].0 == TureCurrency::Stq,
        counts_in(accounts, pooled)[1].0 == TureCurrency::Eth,
        counts_in(accounts, pooled)[2].0 == TureCurrency::Btc,
        counts_in(Seq::<(TureCurrency, bool)>::empty(), pooled)[k].1 == 0,
        counts_in(accounts.push((currency, is_pooled)), pooled)[k].0 == counts_in(accounts, pooled)[k].0,
        counts_in(accounts.push((currency, is_pooled)), pooled)[k].1 == counts_in(accounts, pooled)[k].1 + if is_pooled
            == pooled && counts_in(accounts, pooled)[k].0 == currency {
            1int
        } else {
            0int
        },
{
    let longer = accounts.push((currency, is_pooled));
    assert(longer.drop_last() =~= accounts);
    let c = counts_in(accounts, pooled)[k].0;
    lemma_count_bound(accounts, c, pooled);
    lemma_count_bound(longer, c, pooled);
    assert(count_of(longer, c, pooled) == count_of(accounts, c, pooled) + if longer.last().0 == c && longer.last().1
        == pooled {
        1nat
    } else {
        0nat
    });
}

/// Counts accounts by currency, pooled and not pooled apart.
pub fn count_accounts(accounts: &[(TureCurrency, bool)]) -> (c: AccountCount)
    ensures
        c.pooled@ == counts_in(accounts@, true),
        c.unpooled@ == counts_in(accounts@, false),
{
    let mut counts: [u64; 6] = [0, 0, 0, 0, 0, 0];
    let mut i: usize = 0;
    while i < accounts.len()
        invariant
            i <= accounts@.len(),
            counts@[0] == count_of(accounts@.take(i as int), TureCurrency::Stq, true),
            counts@[1] == count_of(accounts@.take(i as int), TureCurrency::Eth, true),
            counts@[2] == count_of(accounts@.take(i as int), TureCurrency::Btc, true),
            counts@[3] == count_of(accounts@.take(i as int), TureCurrency::Stq, false),
            counts@[4] == count_of(accounts@.take(i as int), TureCurrency::Eth, false),
            counts@[5] == count_of(accounts@.take(i as int), TureCurrency::Btc, false),
        decreases accounts@.len() - i,
    {
        assert(accounts@.take(i + 1).drop_last() =~= accounts@.take(i as int));
        let (currency, is_pooled) = accounts[i];
        let slot: usize = match currency {
            TureCurrency::Stq => 0,
            TureCurrency::Eth => 1,
            TureCurrency::Btc => 2,
        };
        let slot: usize = if is_pooled {
            slot
        } else {
            slot + 3
        };
        proof {
            lemma_count_bound(accounts@.take(i as int), currency, is_pooled);
        }
        let v = counts[slot];
        counts[slot] = v + 1;
        i = i + 1;
    }
    assert(accounts@.take(accounts@.len() as int) =~= accounts@);
    let mut pooled: Vec<(TureCurrency, u64)> = Vec::new();
    pooled.push((TureCurrency::Stq, counts[0]));
    pooled.push((TureCurrency::Eth, counts[1]));
    pooled.push((TureCurrency::Btc, counts[2]));
    let mut unpooled: Vec<(TureCurrency, u64)> = Vec::new();
    unpooled.push((TureCurrency::Stq, counts[3]));
    unpooled.push((TureCurrency::Eth, counts[4]));
    unpooled.push((TureCurrency::Btc, counts[5]));
    assert(pooled@ =~= counts_in(accounts@, true));
    assert(unpooled@ =~= counts_in(accounts@, false));
    AccountCount { pooled, unpooled }
}

} // verus!
