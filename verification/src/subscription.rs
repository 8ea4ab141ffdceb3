//! Store subscriptions: what stores pay for their published products, when
//! they pay, and how the payments are recorded.

use vstd::prelude::*;
use std::collections::HashMap;
use crate::accounts::Account;
use crate::customer::{CustomerId, DbCustomer};
use crate::fee::NewCharge;
use crate::ids::{AccountId, Quantity, StoreId, SubscriptionId, SubscriptionPaymentId, TransactionId};
use crate::money::{Amount, Currency, CurrencyChoice, FiatCurrency, TureCurrency};
use crate::service_error::{Error as ServiceError, is_internal_error, is_validation_error};
use crate::text::{int_text, push_int_text};
use crate::validation::ValidationIssue;
use crate::status::{StoreSubscriptionStatus, SubscriptionPaymentStatus};
use crate::time::{TimeSpan, Timestamp};
use crate::wallet::WalletAddress;

verus! {

/// The monthly price of one published product in EUR cents.
pub const DEFAULT_EUR_CENTS_AMOUNT: u128 = 3;

/// The monthly price of one published product in STQ wei.
pub const DEFAULT_STQ_WEI_AMOUNT: u128 = 1_000_000_000_000_000_000;

/// The identifier of a card charge with the card payment provider.
#[derive(Clone, Debug)]
pub struct ChargeId(pub String);

/// A record of how many products a store had published on a day.
#[derive(Clone, Copy, Debug, PartialEq, Eq, Structural)]
pub struct Subscription {
    pub id: SubscriptionId,
    pub store_id: StoreId,
    pub published_base_products_quantity: Quantity,
    pub subscription_payment_id: Option<SubscriptionPaymentId>,
    pub created_at: Timestamp,
}

/// How and how much a store pays for its subscriptions.
#[derive(Clone, Debug)]
pub struct StoreSubscription {
    pub store_id: StoreId,
    pub currency: Currency,
    pub value: Amount,
    pub wallet_address: Option<WalletAddress>,
    pub trial_start_date: Option<Timestamp>,
    pub created_at: Timestamp,
    pub updated_at: Timestamp,
    pub status: StoreSubscriptionStatus,
}

/// A record of a payment for subscriptions.
#[derive(Clone, Debug)]
pub struct SubscriptionPayment {
    pub id: SubscriptionPaymentId,
    pub store_id: StoreId,
    pub amount: Amount,
    pub currency: Currency,
    pub charge_id: Option<ChargeId>,
    pub transaction_id: Option<TransactionId>,
    pub status: SubscriptionPaymentStatus,
    pub created_at: Timestamp,
}

/// A subscription record to be stored.
#[derive(Clone, Copy, Debug, PartialEq, Eq, Structural)]
pub struct NewSubscription {
    pub store_id: StoreId,
    pub published_base_products_quantity: Quantity,
}

/// The payment that settles a subscription.
#[derive(Clone, Copy, Debug, PartialEq, Eq, Structural)]
pub struct UpdateSubscription {
    pub subscription_payment_id: SubscriptionPaymentId,
}

/// A store subscription to be stored.
#[derive(Clone, Debug)]
pub struct NewStoreSubscription {
    pub store_id: StoreId,
    pub currency: Currency,
    pub value: Amount,
    pub wallet_address: Option<WalletAddress>,
    pub trial_start_date: Option<Timestamp>,
}

/// The currency a store asks to pay its subscription in.
#[derive(Clone, Copy, Debug, PartialEq, Eq, Structural)]
pub struct CreateStoreSubscription {
    pub currency: Currency,
}

/// The changes to a store subscription; `None` leaves a field as it is.
#[derive(Clone, Debug)]
pub struct UpdateStoreSubscription {
    pub currency: Option<Currency>,
    pub value: Option<Amount>,
    pub wallet_address: Option<WalletAddress>,
    pub trial_start_date: Option<Timestamp>,
    pub status: Option<StoreSubscriptionStatus>,
}

impl UpdateStoreSubscription {
    /// No change at all.
    pub fn empty() -> (u: UpdateStoreSubscription)
        ensures
            u.currency is None,
            u.value is None,
            u.wallet_address is None,
            u.trial_start_date is None,
            u.status is None,
    {
        UpdateStoreSubscription {
            currency: None,
            value: None,
            wallet_address: None,
            trial_start_date: None,
            status: None,
        }
    }
}

/// A subscription payment record to be stored.
#[derive(Clone, Debug)]
pub struct NewSubscriptionPayment {
    pub store_id: StoreId,
    pub amount: Amount,
    pub currency: Currency,
    pub charge_id: Option<ChargeId>,
    pub transaction_id: Option<TransactionId>,
    pub status: SubscriptionPaymentStatus,
}

/// Which subscriptions to look for; `None` matches every value.
#[derive(Clone, Copy, Debug, PartialEq, Eq, Structural)]
pub struct SubscriptionSearch {
    pub id: Option<SubscriptionId>,
    pub store_id: Option<StoreId>,
    pub paid: Option<bool>,
    pub subscription_payment_id: Option<SubscriptionPaymentId>,
}

impl SubscriptionSearch {
    pub fn by_id(id: SubscriptionId) -> (s: SubscriptionSearch)
        ensures
            s == (SubscriptionSearch { id: Some(id), store_id: None, paid: None, subscription_payment_id: None }),
    {
        SubscriptionSearch { id: Some(id), store_id: None, paid: None, subscription_payment_id: None }
    }

    pub fn by_subscription_payment_id(id: SubscriptionPaymentId) -> (s: SubscriptionSearch)
        ensures
            s == (SubscriptionSearch { id: None, store_id: None, paid: None, subscription_payment_id: Some(id) }),
    {
        SubscriptionSearch { id: None, store_id: None, paid: None, subscription_payment_id: Some(id) }
    }
}

/// Which store subscriptions to look for.
#[derive(Clone, Copy, Debug, PartialEq, Eq, Structural)]
pub struct StoreSubscriptionSearch {
    pub store_id: Option<StoreId>,
}

impl StoreSubscriptionSearch {
    pub fn by_store_id(store_id: StoreId) -> (s: StoreSubscriptionSearch)
        ensures
            s.store_id == Some(store_id),
    {
        StoreSubscriptionSearch { store_id: Some(store_id) }
    }
}

/// Which subscription payments to look for.
#[derive(Clone, Copy, Debug, PartialEq, Eq, Structural)]
pub struct SubscriptionPaymentSearch {
    pub id: Option<SubscriptionPaymentId>,
    pub store_id: Option<StoreId>,
    pub status: Option<SubscriptionPaymentStatus>,
}

/// Whether the payment `p` is among those `search` looks for: every filter
/// that is set must hold.
pub open spec fn payment_search_selects(search: SubscriptionPaymentSearch, p: SubscriptionPayment) -> bool {
    &&& search.id matches Some(id) ==> p.id == id
    &&& search.store_id matches Some(s) ==> p.store_id == s
    &&& search.status matches Some(st) ==> p.status == st
}

impl SubscriptionPaymentSearch {
    /// Whether `p` is among the payments this search looks for.
    pub fn selects(&self, p: &SubscriptionPayment) -> (r: bool)
        ensures
            r == payment_search_selects(*self, *p),
    {
        let id_ok = match self.id {
            Some(id) => p.id == id,
            None => true,
        };
        let store_ok = match self.store_id {
            Some(s) => p.store_id == s,
            None => true,
        };
        let status_ok = match self.status {
            Some(st) => p.status == st,
            None => true,
        };
        id_ok && store_ok && status_ok
    }
}

/// A page of subscription payments and how many there are in all.
#[derive(Clone, Debug)]
pub struct SubscriptionPaymentSearchResults {
    pub total_count: i64,
    pub subscription_payments: Vec<SubscriptionPayment>,
}

/// The unpaid subscriptions of one store.
#[derive(Clone, Debug)]
pub struct StoreSubscriptions {
    pub store_id: StoreId,
    pub subscriptions: Vec<Subscription>,
}

/// The stores of some subscriptions, each once, in the order of their
/// first subscription.
pub open spec fn stores_in_order(s: Seq<Subscription>) -> Seq<StoreId>
    decreases s.len(),
{
    if s.len() == 0 {
        seq![]
    } else {
        let rest = stores_in_order(s.drop_last());
        if rest.contains(s.last().store_id) {
            rest
        } else {
            rest.push(s.last().store_id)
        }
    }
}

/// The subscriptions of one store, in their order.
pub open spec fn of_store(s: Seq<Subscription>, store_id: StoreId) -> Seq<Subscription>
    decreases s.len(),
{
    if s.len() == 0 {
        seq![]
    } else {
        let rest = of_store(s.drop_last(), store_id);
        if s.last().store_id == store_id {
            rest.push(s.last())
        } else {
            rest
        }
    }
}

/// The creation time of the oldest of some subscriptions, or `now` for none.
pub open spec fn oldest_or(s: Seq<Subscription>, now: Timestamp) -> int
    decreases s.len(),
{
    if s.len() == 0 {
        now.nanos as int
    } else if s.len() == 1 {
        s[0].created_at.nanos as int
    } else {
        let rest = oldest_or(s.drop_last(), now);
        if s.last().created_at.nanos < rest {
            s.last().created_at.nanos as int
        } else {
            rest
        }
    }
}

/// Whether the oldest of some unpaid subscriptions is older than one
/// payment period.
pub open spec fn payment_due(group: Seq<Subscription>, now: Timestamp, period: TimeSpan) -> bool {
    now.nanos - oldest_or(group, now) > period.nanos
}

/// The oldest of some subscriptions is the earliest creation time among
/// them, whatever order they come in: no member is older, and one member
/// has that time.
proof fn lemma_oldest_is_earliest(group: Seq<Subscription>, now: Timestamp)
    requires
        group.len() > 0,
    ensures
        forall|j: int| 0 <= j < group.len() ==> oldest_or(group, now) <= (#[trigger] group[j]).created_at.nanos,
        exists|j: int| 0 <= j < group.len() && oldest_or(group, now) == (#[trigger] group[j]).created_at.nanos,
    decreases group.len(),
{
    if group.len() == 1 {
        assert(oldest_or(group, now) == group[0].created_at.nanos);
    } else {
        let rest = group.drop_last();
        lemma_oldest_is_earliest(rest, now);
        let k = choose|k: int| 0 <= k < rest.len() && oldest_or(rest, now) == (#[trigger] rest[k]).created_at.nanos;
        assert(group[k] == rest[k]);
        assert forall|j: int| 0 <= j < group.len() implies oldest_or(group, now) <= (#[trigger] group[j]).created_at.nanos by {
            if j < rest.len() {
                assert(group[j] == rest[j]);
            }
        }
        if group.last().created_at.nanos < oldest_or(rest, now) {
            assert(oldest_or(group, now) == group[group.len() - 1].created_at.nanos);
        } else {
            assert(oldest_or(group, now) == group[k].created_at.nanos);
        }
    }
}

/// A store's unpaid subscriptions are due exactly when one of them is
/// older than the payment period, whatever order they come in; a store
/// without unpaid subscriptions is not due (for a period of at least
/// nothing).
pub proof fn payment_due_when_one_is_older_than_period(group: Seq<Subscription>, now: Timestamp, period: TimeSpan)
    ensures
        group.len() > 0 ==> (payment_due(group, now, period) <==> exists|j: int|
            0 <= j < group.len() && now.nanos - (#[trigger] group[j]).created_at.nanos > period.nanos),
        group.len() > 0 ==> forall|j: int|
            0 <= j < group.len() ==> oldest_or(group, now) <= (#[trigger] group[j]).created_at.nanos,
        group.len() > 0 ==> exists|j: int|
            0 <= j < group.len() && oldest_or(group, now) == (#[trigger] group[j]).created_at.nanos,
        group.len() == 0 && period.nanos >= 0 ==> !payment_due(group, now, period),
{
    if group.len() > 0 {
        lemma_oldest_is_earliest(group, now);
        if payment_due(group, now, period) {
            let k = choose|k: int| 0 <= k < group.len() && oldest_or(group, now) == (#[trigger] group[k]).created_at.nanos;
            assert(now.nanos - group[k].created_at.nanos > period.nanos);
        }
        if exists|j: int| 0 <= j < group.len() && now.nanos - (#[trigger] group[j]).created_at.nanos > period.nanos {
            let j = choose|j: int| 0 <= j < group.len() && now.nanos - (#[trigger] group[j]).created_at.nanos > period.nanos;
            assert(oldest_or(group, now) <= group[j].created_at.nanos);
        }
    }
}

/// The stores of `stores` whose unpaid subscriptions in `s` are due.
pub open spec fn due_stores(stores: Seq<StoreId>, s: Seq<Subscription>, now: Timestamp, period: TimeSpan) -> Seq<
    StoreId,
>
    decreases stores.len(),
{
    if stores.len() == 0 {
        seq![]
    } else {
        let rest = due_stores(stores.drop_last(), s, now, period);
        if payment_due(of_store(s, stores.last()), now, period) {
            rest.push(stores.last())
        } else {
            rest
        }
    }
}

/// The subscriptions of `s` that belong to the store `store_id`, in their order.
pub fn subscriptions_of_store(s: &[Subscription], store_id: StoreId) -> (r: Vec<Subscription>)
    ensures
        r@ == of_store(s@, store_id),
{
    let mut r: Vec<Subscription> = Vec::new();
    let mut i: usize = 0;
    while i < s.len()
        invariant
            i <= s@.len(),
            r@ == of_store(s@.take(i as int), store_id),
        decreases s@.len() - i,
    {
        assert(s@.take(i + 1).drop_last() =~= s@.take(i as int));
        if s[i].store_id == store_id {
            r.push(s[i]);
        }
        i = i + 1;
    }
    assert(s@.take(s@.len() as int) =~= s@);
    r
}

fn oldest_created(group: &Vec<Subscription>, now: Timestamp) -> (t: i64)
    ensures
        t == oldest_or(group@, now),
{
    if group.len() == 0 {
        return now.nanos;
    }
    let mut t: i64 = group[0].created_at.nanos;
    let mut i: usize = 1;
    assert(group@.take(1) =~= seq![group@[0]]);
    while i < group.len()
        invariant
            1 <= i <= group@.len(),
            t == oldest_or(group@.take(i as int), now),
        decreases group@.len() - i,
    {
        assert(group@.take(i + 1).drop_last() =~= group@.take(i as int));
        if group[i].created_at.nanos < t {
            t = group[i].created_at.nanos;
        }
        i = i + 1;
    }
    assert(group@.take(group@.len() as int) =~= group@);
    t
}

/// A store that none of `s` belongs to has no subscriptions among them.
proof fn lemma_no_subscriptions_of_unlisted_store(s: Seq<Subscription>, store_id: StoreId)
    requires
        !stores_in_order(s).contains(store_id),
    ensures
        of_store(s, store_id).len() == 0,
    decreases s.len(),
{
    if s.len() > 0 {
        let rest = stores_in_order(s.drop_last());
        if rest.contains(store_id) {
            let k = choose|k: int| 0 <= k < rest.len() && rest[k] == store_id;
            assert(stores_in_order(s)[k] == store_id);
        }
        if s.last().store_id == store_id {
            if rest.contains(store_id) {
            } else {
                assert(stores_in_order(s)[rest.len() as int] == store_id);
            }
        }
        lemma_no_subscriptions_of_unlisted_store(s.drop_last(), store_id);
    }
}

/// Groups unpaid subscriptions by store, keeping the stores whose oldest
/// unpaid subscription is older than `period` at `now`; the stores come in
/// the order of their first subscription, and each group holds all the
/// store's unpaid subscriptions in their order.
pub fn subscriptions_to_pay(unpaid: &[Subscription], now: Timestamp, period: TimeSpan) -> (r: Vec<
    StoreSubscriptions,
>)
    ensures
        r@.len() == due_stores(stores_in_order(unpaid@), unpaid@, now, period).len(),
        forall|i: int|
            0 <= i < r@.len() ==> {
                &&& (#[trigger] r@[i]).store_id == due_stores(
                    stores_in_order(unpaid@),
                    unpaid@,
                    now,
                    period,
                )[i]
                &&& r@[i].subscriptions@ == of_store(unpaid@, r@[i].store_id)
            },
        pays_due_stores(r@, unpaid@, now, period),
{
    broadcast use vstd::std_specs::hash::group_hash_axioms;
    let mut by_stores: HashMap<i32, Vec<Subscription>> = HashMap::new();
    let mut stores: Vec<StoreId> = Vec::new();
    let mut i: usize = 0;
    while i < unpaid.len()
        invariant
            i <= unpaid@.len(),
            stores@ == stores_in_order(unpaid@.take(i as int)),
            forall|x: i32|
                #[trigger] by_stores@.contains_key(x) <==> stores_in_order(unpaid@.take(i as int)).contains(
                    StoreId(x),
                ),
            forall|x: i32|
                #[trigger] by_stores@.contains_key(x) ==> by_stores@[x]@ == of_store(
                    unpaid@.take(i as int),
                    StoreId(x),
                ),
        decreases unpaid@.len() - i,
    {
        let ghost before = unpaid@.take(i as int);
        let ghost after = unpaid@.take(i + 1);
        assert(after.drop_last() =~= before);
        let subscription = unpaid[i];
        let store_id = subscription.store_id;
        let ghost old_map = by_stores@;
        match by_stores.remove(&store_id.0) {
            Some(group) => {
                let mut group = group;
                group.push(subscription);
                by_stores.insert(store_id.0, group);
                proof {
                    assert(stores_in_order(after) == stores_in_order(before));
                    assert(by_stores@[store_id.0]@ == of_store(after, store_id));
                }
            },
            None => {
                let mut group: Vec<Subscription> = Vec::new();
                group.push(subscription);
                by_stores.insert(store_id.0, group);
                stores.push(store_id);
                proof {
                    lemma_no_subscriptions_of_unlisted_store(before, store_id);
                    assert(of_store(after, store_id) =~= seq![subscription]);
                    assert(by_stores@[store_id.0]@ == of_store(after, store_id));
                }
            },
        }
        proof {
            assert(after.last() == subscription);
            assert forall|x: i32| #[trigger] by_stores@.contains_key(x) <==> stores_in_order(after).contains(StoreId(x)) by {
                if x != store_id.0 {
                    assert(StoreId(x) != store_id);
                    assert(by_stores@.contains_key(x) == old_map.contains_key(x));
                    if stores_in_order(after).contains(StoreId(x)) && !stores_in_order(before).contains(StoreId(x)) {
                        let k = choose|k: int|
                            0 <= k < stores_in_order(after).len() && stores_in_order(after)[k] == StoreId(x);
                        assert(stores_in_order(before)[k] == StoreId(x));
                    }
                    if stores_in_order(before).contains(StoreId(x)) {
                        let k = choose|k: int|
                            0 <= k < stores_in_order(before).len() && stores_in_order(before)[k] == StoreId(x);
                        assert(stores_in_order(after)[k] == StoreId(x));
                    }
                } else {
                    assert(StoreId(x) == store_id);
                    if !stores_in_order(before).contains(store_id) {
                        assert(stores_in_order(after)[stores_in_order(before).len() as int] == store_id);
                    }
                }
            }
            assert forall|x: i32| #[trigger] by_stores@.contains_key(x) implies by_stores@[x]@ == of_store(
                after,
                StoreId(x),
            ) by {
                if x != store_id.0 {
                    assert(StoreId(x) != store_id);
                    assert(by_stores@[x] == old_map[x]);
                } else {
                    assert(StoreId(x) == store_id);
                }
            }
        }
        i = i + 1;
    }
    assert(unpaid@.take(unpaid@.len() as int) =~= unpaid@);
    let ghost all_stores = stores@;
    proof {
        lemma_stores_in_order_once(unpaid@);
    }
    let mut r: Vec<StoreSubscriptions> = Vec::new();
    let mut k: usize = 0;
    while k < stores.len()
        invariant
            k <= all_stores.len(),
            all_stores == stores@,
            all_stores == stores_in_order(unpaid@),
            listed_once(all_stores),
            forall|j: int|
                k <= j < all_stores.len() ==> by_stores@.contains_key(#[trigger] all_stores[j].0)
                    && by_stores@[all_stores[j].0]@ == of_store(unpaid@, all_stores[j]),
            r@.len() == due_stores(all_stores.take(k as int), unpaid@, now, period).len(),
            forall|i: int|
                0 <= i < r@.len() ==> {
                    &&& (#[trigger] r@[i]).store_id == due_stores(
                        all_stores.take(k as int),
                        unpaid@,
                        now,
                        period,
                    )[i]
                    &&& r@[i].subscriptions@ == of_store(unpaid@, r@[i].store_id)
                },
        decreases all_stores.len() - k,
    {
        assert(all_stores.take(k + 1).drop_last() =~= all_stores.take(k as int));
        let store_id = stores[k];
        let ghost old_map = by_stores@;
        let group = match by_stores.remove(&store_id.0) {
            Some(g) => g,
            None => Vec::new(),
        };
        proof {
            assert(all_stores[k as int] == store_id);
            assert forall|j: int| k + 1 <= j < all_stores.len() implies by_stores@.contains_key(
                #[trigger] all_stores[j].0,
            ) && by_stores@[all_stores[j].0]@ == of_store(unpaid@, all_stores[j]) by {
                assert(all_stores[j] != all_stores[k as int]);
                assert(all_stores[j].0 != store_id.0);
                assert(old_map.contains_key(all_stores[j].0));
            }
        }
        let oldest = oldest_created(&group, now);
        if (now.nanos as i128) - (oldest as i128) > period.nanos {
            r.push(StoreSubscriptions { store_id, subscriptions: group });
        }
        k = k + 1;
    }
    assert(all_stores.take(all_stores.len() as int) =~= all_stores);
    r
}

/// A store is among the due stores of `stores` exactly when it is listed
/// and its subscriptions are due.
proof fn lemma_due_stores_contains(stores: Seq<StoreId>, s: Seq<Subscription>, now: Timestamp, period: TimeSpan, x: StoreId)
    ensures
        due_stores(stores, s, now, period).contains(x) <==> stores.contains(x) && payment_due(of_store(s, x), now, period),
    decreases stores.len(),
{
    if stores.len() > 0 {
        let front = stores.drop_last();
        lemma_due_stores_contains(front, s, now, period, x);
        let rest = due_stores(front, s, now, period);
        let due = due_stores(stores, s, now, period);
        if due.contains(x) {
            let k = choose|k: int| 0 <= k < due.len() && due[k] == x;
            if k < rest.len() {
                assert(rest[k] == x);
                let j = choose|j: int| 0 <= j < front.len() && front[j] == x;
                assert(stores[j] == x);
            } else {
                assert(stores[stores.len() - 1] == x);
            }
        }
        if stores.contains(x) && payment_due(of_store(s, x), now, period) {
            let j = choose|j: int| 0 <= j < stores.len() && stores[j] == x;
            if j < front.len() {
                assert(front[j] == x);
                let k = choose|k: int| 0 <= k < rest.len() && rest[k] == x;
                assert(due[k] == x);
            } else {
                assert(due[due.len() - 1] == x);
            }
        }
    }
}

/// One of a store's subscriptions is older than the period exactly when
/// one of all the subscriptions belongs to the store and is older.
proof fn lemma_old_member_of_store(s: Seq<Subscription>, x: StoreId, now: Timestamp, period: TimeSpan)
    ensures
        (exists|j: int| 0 <= j < of_store(s, x).len() && now.nanos - (#[trigger] of_store(s, x)[j]).created_at.nanos
            > period.nanos) <==> (exists|i: int| 0 <= i < s.len() && (#[trigger] s[i]).store_id == x && now.nanos
            - s[i].created_at.nanos > period.nanos),
        (exists|i: int| 0 <= i < s.len() && (#[trigger] s[i]).store_id == x) ==> stores_in_order(s).contains(x)
            && of_store(s, x).len() > 0,
    decreases s.len(),
{
    if s.len() > 0 {
        let p = s.drop_last();
        lemma_old_member_of_store(p, x, now, period);
        let g = of_store(s, x);
        let gp = of_store(p, x);
        if exists|j: int| 0 <= j < g.len() && now.nanos - (#[trigger] g[j]).created_at.nanos > period.nanos {
            let j = choose|j: int| 0 <= j < g.len() && now.nanos - (#[trigger] g[j]).created_at.nanos > period.nanos;
            if j < gp.len() {
                assert(g[j] == gp[j]);
                let i = choose|i: int| 0 <= i < p.len() && (#[trigger] p[i]).store_id == x && now.nanos
                    - p[i].created_at.nanos > period.nanos;
                assert(s[i] == p[i]);
            } else {
                assert(s[s.len() - 1].store_id == x);
            }
        }
        if exists|i: int| 0 <= i < s.len() && (#[trigger] s[i]).store_id == x && now.nanos - s[i].created_at.nanos
            > period.nanos {
            let i = choose|i: int| 0 <= i < s.len() && (#[trigger] s[i]).store_id == x && now.nanos
                - s[i].created_at.nanos > period.nanos;
            if i < p.len() {
                assert(p[i] == s[i]);
                let j = choose|j: int| 0 <= j < gp.len() && now.nanos - (#[trigger] gp[j]).created_at.nanos
                    > period.nanos;
                assert(g[j] == gp[j]);
            } else {
                assert(g[g.len() - 1] == s.last());
            }
        }
        if exists|i: int| 0 <= i < s.len() && (#[trigger] s[i]).store_id == x {
            let i = choose|i: int| 0 <= i < s.len() && (#[trigger] s[i]).store_id == x;
            let rest = stores_in_order(p);
            if i < p.len() {
                assert(p[i] == s[i]);
                let k = choose|k: int| 0 <= k < rest.len() && rest[k] == x;
                assert(stores_in_order(s)[k] == x);
            } else {
                if !rest.contains(x) {
                    assert(stores_in_order(s)[rest.len() as int] == x);
                }
            }
        }
    }
}

/// A store is paid exactly when one of its unpaid subscriptions is older
/// than the payment period, whatever order the subscriptions come in.
pub proof fn store_due_when_a_subscription_is_old(
    unpaid: Seq<Subscription>,
    now: Timestamp,
    period: TimeSpan,
    store_id: StoreId,
)
    ensures
        due_stores(stores_in_order(unpaid), unpaid, now, period).contains(store_id) <==> exists|i: int|
            0 <= i < unpaid.len() && (#[trigger] unpaid[i]).store_id == store_id && now.nanos
                - unpaid[i].created_at.nanos > period.nanos,
{
    lemma_due_stores_contains(stores_in_order(unpaid), unpaid, now, period, store_id);
    lemma_old_member_of_store(unpaid, store_id, now, period);
    let g = of_store(unpaid, store_id);
    if g.len() > 0 {
        payment_due_when_one_is_older_than_period(g, now, period);
    }
    if stores_in_order(unpaid).contains(store_id) && g.len() == 0 {
        lemma_store_listed_has_subscription(unpaid, store_id);
    }
}

/// A listed store has a subscription of its own.
proof fn lemma_store_listed_has_subscription(s: Seq<Subscription>, x: StoreId)
    requires
        stores_in_order(s).contains(x),
    ensures
        of_store(s, x).len() > 0,
    decreases s.len(),
{
    if s.len() > 0 {
        let p = s.drop_last();
        if s.last().store_id != x {
            let rest = stores_in_order(p);
            let k = choose|k: int| 0 <= k < stores_in_order(s).len() && stores_in_order(s)[k] == x;
            if !rest.contains(s.last().store_id) && k == rest.len() {
                assert(false);
            }
            assert(rest[k] == x);
            lemma_store_listed_has_subscription(p, x);
        }
    }
}

/// `groups` pays the stores of `unpaid` that are due at `now`: one group per
/// due store, in the order of the stores' first subscriptions, each with
/// all of its store's unpaid subscriptions.
pub open spec fn pays_due_stores(
    groups: Seq<StoreSubscriptions>,
    unpaid: Seq<Subscription>,
    now: Timestamp,
    period: TimeSpan,
) -> bool {
    let due = due_stores(stores_in_order(unpaid), unpaid, now, period);
    &&& groups.len() == due.len()
    &&& forall|i: int|
        0 <= i < groups.len() ==> {
            &&& (#[trigger] groups[i]).store_id == due[i]
            &&& groups[i].subscriptions@ == of_store(unpaid, due[i])
        }
}

/// How many subscriptions the groups hold together.
pub open spec fn grouped_count(groups: Seq<StoreSubscriptions>) -> int
    decreases groups.len(),
{
    if groups.len() == 0 {
        0
    } else {
        grouped_count(groups.drop_last()) + groups.last().subscriptions@.len()
    }
}

/// How many of `unpaid` belong to one of `stores`.
pub open spec fn subscriptions_of_stores(unpaid: Seq<Subscription>, stores: Seq<StoreId>) -> int
    decreases unpaid.len(),
{
    if unpaid.len() == 0 {
        0
    } else {
        subscriptions_of_stores(unpaid.drop_last(), stores) + if stores.contains(unpaid.last().store_id) {
            1int
        } else {
            0int
        }
    }
}

/// The subscriptions of `unpaid` of the stores `stores`, store by store,
/// counted together.
pub open spec fn store_group_sizes(stores: Seq<StoreId>, unpaid: Seq<Subscription>) -> int
    decreases stores.len(),
{
    if stores.len() == 0 {
        0
    } else {
        store_group_sizes(stores.drop_last(), unpaid) + of_store(unpaid, stores.last()).len()
    }
}

/// How many times `x` is listed in `t`.
pub open spec fn times_listed(t: Seq<StoreId>, x: StoreId) -> int
    decreases t.len(),
{
    if t.len() == 0 {
        0
    } else {
        times_listed(t.drop_last(), x) + if t.last() == x {
            1int
        } else {
            0int
        }
    }
}

/// No store is listed twice in `t`.
pub open spec fn listed_once(t: Seq<StoreId>) -> bool {
    forall|a: int, b: int| 0 <= a < b < t.len() ==> t[a] != t[b]
}

/// The stores of some subscriptions are listed once each.
proof fn lemma_stores_in_order_once(s: Seq<Subscription>)
    ensures
        listed_once(stores_in_order(s)),
    decreases s.len(),
{
    if s.len() > 0 {
        lemma_stores_in_order_once(s.drop_last());
        let rest = stores_in_order(s.drop_last());
        let x = s.last().store_id;
        if !rest.contains(x) {
            assert forall|a: int, b: int|
                0 <= a < b < stores_in_order(s).len() implies stores_in_order(s)[a] != stores_in_order(s)[b] by {
                if b == rest.len() && rest[a] == x {
                    assert(rest.contains(x));
                }
            }
        }
    }
}

/// The due stores are among `stores`, and listed once where `stores` are.
proof fn lemma_due_stores_once(stores: Seq<StoreId>, s: Seq<Subscription>, now: Timestamp, period: TimeSpan)
    ensures
        forall|k: int| 0 <= k < due_stores(stores, s, now, period).len() ==> stores.contains(
            #[trigger] due_stores(stores, s, now, period)[k],
        ),
        listed_once(stores) ==> listed_once(due_stores(stores, s, now, period)),
    decreases stores.len(),
{
    if stores.len() > 0 {
        let front = stores.drop_last();
        lemma_due_stores_once(front, s, now, period);
        let rest = due_stores(front, s, now, period);
        let due = due_stores(stores, s, now, period);
        assert forall|k: int| 0 <= k < due.len() implies stores.contains(#[trigger] due[k]) by {
            if k < rest.len() {
                assert(front.contains(rest[k]));
                let j = choose|j: int| 0 <= j < front.len() && front[j] == rest[k];
                assert(stores[j] == rest[k]);
            } else {
                assert(stores[stores.len() - 1] == due[k]);
            }
        }
        if listed_once(stores) && due.len() > rest.len() {
            assert forall|a: int, b: int| 0 <= a < b < due.len() implies due[a] != due[b] by {
                if b == rest.len() {
                    assert(front.contains(rest[a]));
                    let j = choose|j: int| 0 <= j < front.len() && front[j] == rest[a];
                    assert(stores[j] != stores[stores.len() - 1]);
                }
            }
        }
    }
}

/// A store listed once is counted once.
proof fn lemma_times_listed_once(t: Seq<StoreId>, x: StoreId)
    requires
        listed_once(t),
    ensures
        times_listed(t, x) == if t.contains(x) {
            1int
        } else {
            0int
        },
    decreases t.len(),
{
    if t.len() > 0 {
        let u = t.drop_last();
        lemma_times_listed_once(u, x);
        if u.contains(x) {
            let k = choose|k: int| 0 <= k < u.len() && u[k] == x;
            assert(t[k] == x);
            assert(t.contains(x));
            assert(t[k] != t[t.len() - 1]);
        } else if t.last() == x {
            assert(t[t.len() - 1] == x);
        } else if t.contains(x) {
            let k = choose|k: int| 0 <= k < t.len() && t[k] == x;
            assert(u[k] == x);
        }
    }
}

/// One more subscription adds one to the group of its store, once for each
/// time the store is listed.
proof fn lemma_group_sizes_step(stores: Seq<StoreId>, unpaid: Seq<Subscription>)
    requires
        unpaid.len() > 0,
    ensures
        store_group_sizes(stores, unpaid) == store_group_sizes(stores, unpaid.drop_last()) + times_listed(
            stores,
            unpaid.last().store_id,
        ),
    decreases stores.len(),
{
    if stores.len() > 0 {
        lemma_group_sizes_step(stores.drop_last(), unpaid);
    }
}

/// Stores listed once hold, group by group, exactly their subscriptions.
proof fn lemma_group_sizes(stores: Seq<StoreId>, unpaid: Seq<Subscription>)
    requires
        listed_once(stores),
    ensures
        store_group_sizes(stores, unpaid) == subscriptions_of_stores(unpaid, stores),
    decreases unpaid.len(),
{
    if unpaid.len() == 0 {
        lemma_no_groups(stores, unpaid);
    } else {
        lemma_group_sizes(stores, unpaid.drop_last());
        lemma_group_sizes_step(stores, unpaid);
        lemma_times_listed_once(stores, unpaid.last().store_id);
    }
}

/// Without subscriptions every group is empty.
proof fn lemma_no_groups(stores: Seq<StoreId>, unpaid: Seq<Subscription>)
    requires
        unpaid.len() == 0,
    ensures
        store_group_sizes(stores, unpaid) == 0,
    decreases stores.len(),
{
    if stores.len() > 0 {
        lemma_no_groups(stores.drop_last(), unpaid);
    }
}

/// The first `n` groups hold the subscriptions of the first `n` due stores.
proof fn lemma_grouped_prefix(groups: Seq<StoreSubscriptions>, unpaid: Seq<Subscription>, now: Timestamp, period: TimeSpan, n: int)
    requires
        pays_due_stores(groups, unpaid, now, period),
        0 <= n <= groups.len(),
    ensures
        grouped_count(groups.take(n)) == store_group_sizes(
            due_stores(stores_in_order(unpaid), unpaid, now, period).take(n),
            unpaid,
        ),
    decreases n,
{
    if n > 0 {
        let due = due_stores(stores_in_order(unpaid), unpaid, now, period);
        lemma_grouped_prefix(groups, unpaid, now, period, n - 1);
        assert(groups.take(n).drop_last() =~= groups.take(n - 1));
        assert(due.take(n).drop_last() =~= due.take(n - 1));
        assert(groups[n - 1].store_id == due[n - 1]);
    }
}

/// Each unpaid subscription of a due store is paid exactly once, and no
/// other is: the groups that `subscriptions_to_pay` makes hold, together,
/// as many subscriptions as there are unpaid subscriptions of due stores.
pub proof fn due_subscriptions_paid_once(
    groups: Seq<StoreSubscriptions>,
    unpaid: Seq<Subscription>,
    now: Timestamp,
    period: TimeSpan,
)
    requires
        pays_due_stores(groups, unpaid, now, period),
    ensures
        grouped_count(groups) == subscriptions_of_stores(
            unpaid,
            due_stores(stores_in_order(unpaid), unpaid, now, period),
        ),
{
    let due = due_stores(stores_in_order(unpaid), unpaid, now, period);
    lemma_grouped_prefix(groups, unpaid, now, period, groups.len() as int);
    assert(groups.take(groups.len() as int) =~= groups);
    assert(due.take(groups.len() as int) =~= due);
    lemma_stores_in_order_once(unpaid);
    lemma_due_stores_once(stores_in_order(unpaid), unpaid, now, period);
    lemma_group_sizes(due, unpaid);
}

/// The amount that a number of published products is counted as.
pub open spec fn quantity_amount(q: Quantity) -> int {
    (q.0 as u128) as int
}

/// What some subscriptions cost at `value` per published product.
pub open spec fn subscriptions_cost(s: Seq<Subscription>, value: Amount) -> int
    decreases s.len(),
{
    if s.len() == 0 {
        0
    } else {
        subscriptions_cost(s.drop_last(), value) + quantity_amount(
            s.last().published_base_products_quantity,
        ) * value.0
    }
}

proof fn lemma_cost_prefix(s: Seq<Subscription>, value: Amount, n: int)
    requires
        0 <= n <= s.len(),
    ensures
        subscriptions_cost(s.take(n), value) <= subscriptions_cost(s, value),
        n < s.len() ==> subscriptions_cost(s.take(n), value) + quantity_amount(
            s[n].published_base_products_quantity,
        ) * value.0 <= subscriptions_cost(s, value),
    decreases s.len() - n,
{
    if n < s.len() {
        lemma_cost_prefix(s, value, n + 1);
        assert(s.take(n + 1).drop_last() =~= s.take(n));
        assert(quantity_amount(s[n].published_base_products_quantity) * value.0 >= 0) by (nonlinear_arith)
            requires
                quantity_amount(s[n].published_base_products_quantity) >= 0,
                value.0 >= 0,
        ;
    } else {
        assert(s.take(n) =~= s);
    }
}

/// What a store owes for `subscriptions` at the store's price per
/// published product: the exact total, or an internal error where it does
/// not fit an amount.
pub fn calculate_total_amount(store_subscription: &StoreSubscription, subscriptions: &[Subscription]) -> (r:
    Result<Amount, ServiceError>)
    ensures
        subscriptions_cost(subscriptions@, store_subscription.value) <= u128::MAX ==> (r matches Ok(a)
            && a.0 == subscriptions_cost(subscriptions@, store_subscription.value)),
        subscriptions_cost(subscriptions@, store_subscription.value) > u128::MAX ==> (r matches Err(e)
            && is_internal_error(e, None)),
{
    let value = store_subscription.value;
    let mut total = Amount::zero();
    let mut i: usize = 0;
    while i < subscriptions.len()
        invariant
            i <= subscriptions@.len(),
            value == store_subscription.value,
            total.0 == subscriptions_cost(subscriptions@.take(i as int), value),
        decreases subscriptions@.len() - i,
    {
        assert(subscriptions@.take(i + 1).drop_last() =~= subscriptions@.take(i as int));
        proof {
            lemma_cost_prefix(subscriptions@, value, i as int);
        }
        let quantity = Amount::new(subscriptions[i].published_base_products_quantity.0 as u128);
        let line = match quantity.checked_mul(value) {
            Some(a) => a,
            None => {
                return Err(ServiceError::internal());
            },
        };
        total = match total.checked_add(line) {
            Some(a) => a,
            None => {
                return Err(ServiceError::internal());
            },
        };
        i = i + 1;
    }
    assert(subscriptions@.take(subscriptions@.len() as int) =~= subscriptions@);
    Ok(total)
}

/// A store's subscriptions to be paid by card.
#[derive(Clone, Debug)]
pub struct FiatPaymentPreparation {
    pub fiat_currency: FiatCurrency,
    pub customer: DbCustomer,
    pub store_subscription: StoreSubscription,
    pub subscriptions: Vec<Subscription>,
    pub total_amount: Amount,
}

/// A store's subscriptions to be paid from the store owner's account.
#[derive(Clone, Debug)]
pub struct CryptoPaymentPreparation {
    pub store_owner_account: Account,
    pub ture_currency: TureCurrency,
    pub store_subscription: StoreSubscription,
    pub subscriptions: Vec<Subscription>,
    pub total_amount: Amount,
}

/// A store's subscriptions that cannot be paid.
#[derive(Clone, Debug)]
pub struct FailedPaymentPreparation {
    pub store_subscription: StoreSubscription,
    pub subscriptions: Vec<Subscription>,
    pub total_amount: Amount,
}

/// How a store's subscriptions are to be paid.
#[derive(Clone, Debug)]
pub enum PaymentPreparation {
    Fiat(FiatPaymentPreparation),
    Crypto(CryptoPaymentPreparation),
    Failed(FailedPaymentPreparation),
}

/// The outcome of paying a store's subscriptions: the payment record and
/// the subscriptions it settles.
#[derive(Clone, Debug)]
pub struct FinishedPayment {
    pub subscriptions: Vec<Subscription>,
    pub subscription_payment: NewSubscriptionPayment,
}

/// Which record the payment of a store subscription needs looked up.
#[derive(Clone, Debug)]
pub enum PaymentLookup {
    /// The store owner's account with this wallet address.
    AccountByWallet(WalletAddress),
    /// The store owner's card payment customer.
    CustomerOfOwner,
    /// Nothing: the subscription is in a crypto currency and has no wallet.
    Nothing,
}

/// Which record paying `store_subscription` needs looked up.
pub fn payment_lookup(store_subscription: &StoreSubscription) -> (l: PaymentLookup)
    ensures
        store_subscription.currency.kind() is Crypto ==> match store_subscription.wallet_address {
            Some(w) => l matches PaymentLookup::AccountByWallet(a) && a.0@ == w.0@,
            None => l is Nothing,
        },
        store_subscription.currency.kind() is Fiat ==> l is CustomerOfOwner,
{
    match store_subscription.currency.classify() {
        CurrencyChoice::Crypto(_) => match &store_subscription.wallet_address {
            Some(w) => PaymentLookup::AccountByWallet(WalletAddress(w.0.clone())),
            None => PaymentLookup::Nothing,
        },
        CurrencyChoice::Fiat(_) => PaymentLookup::CustomerOfOwner,
    }
}

/// The preparation of a payment that cannot be made.
pub fn failed_payment_preparation(
    store_subscription: StoreSubscription,
    subscriptions: Vec<Subscription>,
    total_amount: Amount,
) -> (p: PaymentPreparation)
    ensures
        p matches PaymentPreparation::Failed(f) && f.store_subscription == store_subscription
            && f.subscriptions@ == subscriptions@ && f.total_amount == total_amount,
{
    PaymentPreparation::Failed(FailedPaymentPreparation { store_subscription, subscriptions, total_amount })
}

/// Decides how to pay a store's subscriptions, given what `payment_lookup`
/// asked for: the store owner's account found by wallet address (for a
/// crypto currency) or their card payment customer (for a fiat currency).
/// Without the record, the payment fails.
pub fn payment_preparation(
    store_subscription: StoreSubscription,
    subscriptions: Vec<Subscription>,
    total_amount: Amount,
    account: Option<Account>,
    customer: Option<DbCustomer>,
) -> (p: PaymentPreparation)
    ensures
        match store_subscription.currency.kind() {
            CurrencyChoice::Crypto(t) => match (store_subscription.wallet_address, account) {
                (Some(_), Some(a)) => p matches PaymentPreparation::Crypto(c) && c.store_owner_account
                    == a && c.ture_currency == t && c.store_subscription == store_subscription
                    && c.subscriptions@ == subscriptions@ && c.total_amount == total_amount,
                _ => p matches PaymentPreparation::Failed(f) && f.store_subscription
                    == store_subscription && f.subscriptions@ == subscriptions@ && f.total_amount
                    == total_amount,
            },
            CurrencyChoice::Fiat(f) => match customer {
                Some(c) => p matches PaymentPreparation::Fiat(x) && x.customer == c && x.fiat_currency
                    == f && x.store_subscription == store_subscription && x.subscriptions@
                    == subscriptions@ && x.total_amount == total_amount,
                None => p matches PaymentPreparation::Failed(x) && x.store_subscription
                    == store_subscription && x.subscriptions@ == subscriptions@ && x.total_amount
                    == total_amount,
            },
        },
{
    match store_subscription.currency.classify() {
        CurrencyChoice::Crypto(ture_currency) => {
            if store_subscription.wallet_address.is_none() {
                return failed_payment_preparation(store_subscription, subscriptions, total_amount);
            }
            match account {
                Some(store_owner_account) => PaymentPreparation::Crypto(
                    CryptoPaymentPreparation {
                        store_owner_account,
                        ture_currency,
                        store_subscription,
                        subscriptions,
                        total_amount,
                    },
                ),
                None => failed_payment_preparation(store_subscription, subscriptions, total_amount),
            }
        },
        CurrencyChoice::Fiat(fiat_currency) => match customer {
            Some(customer) => PaymentPreparation::Fiat(
                FiatPaymentPreparation {
                    fiat_currency,
                    customer,
                    store_subscription,
                    subscriptions,
                    total_amount,
                },
            ),
            None => failed_payment_preparation(store_subscription, subscriptions, total_amount),
        },
    }
}

/// The record of a payment that could not be made.
pub fn into_finished_payment(failed: FailedPaymentPreparation) -> (f: FinishedPayment)
    ensures
        f.subscriptions@ == failed.subscriptions@,
        f.subscription_payment.store_id == failed.store_subscription.store_id,
        f.subscription_payment.amount == failed.total_amount,
        f.subscription_payment.currency == failed.store_subscription.currency,
        f.subscription_payment.charge_id is None,
        f.subscription_payment.transaction_id is None,
        f.subscription_payment.status == SubscriptionPaymentStatus::Failed,
{
    FinishedPayment {
        subscriptions: failed.subscriptions,
        subscription_payment: NewSubscriptionPayment {
            store_id: failed.store_subscription.store_id,
            amount: failed.total_amount,
            currency: failed.store_subscription.currency,
            charge_id: None,
            transaction_id: None,
            status: SubscriptionPaymentStatus::Failed,
        },
    }
}

/// The card charge that pays a store's subscriptions: their total, in the
/// subscription's currency, from the store owner's customer, captured at
/// once.
pub fn subscription_charge(prep: &FiatPaymentPreparation) -> (c: NewCharge)
    ensures
        c.customer_id.0@ == prep.customer.id.0@,
        c.amount == prep.total_amount,
        c.currency == prep.store_subscription.currency,
        c.capture,
{
    NewCharge {
        customer_id: CustomerId(prep.customer.id.0.clone()),
        amount: prep.total_amount,
        currency: prep.store_subscription.currency,
        capture: true,
    }
}

/// The record of a card payment, given the charge that was made, if the
/// charge succeeded.
pub fn finish_fiat_payment(prep: FiatPaymentPreparation, charge: Option<ChargeId>) -> (f: FinishedPayment)
    ensures
        f.subscriptions@ == prep.subscriptions@,
        f.subscription_payment.store_id == prep.store_subscription.store_id,
        f.subscription_payment.amount == prep.total_amount,
        f.subscription_payment.currency == prep.store_subscription.currency,
        f.subscription_payment.transaction_id is None,
        f.subscription_payment.charge_id == charge,
        f.subscription_payment.status == (if charge is Some {
            SubscriptionPaymentStatus::Paid
        } else {
            SubscriptionPaymentStatus::Failed
        }),
{
    let status = if charge.is_some() {
        SubscriptionPaymentStatus::Paid
    } else {
        SubscriptionPaymentStatus::Failed
    };
    FinishedPayment {
        subscriptions: prep.subscriptions,
        subscription_payment: NewSubscriptionPayment {
            store_id: prep.store_subscription.store_id,
            amount: prep.total_amount,
            currency: prep.store_subscription.currency,
            charge_id: charge,
            transaction_id: None,
            status,
        },
    }
}

/// A transfer between two accounts of the payments service.
#[derive(Clone, Copy, Debug, PartialEq, Eq, Structural)]
pub struct CreateInternalTransaction {
    pub id: TransactionId,
    pub from: AccountId,
    pub to: AccountId,
    pub amount: Amount,
}

/// The transfer that pays a store's subscriptions from the store owner's
/// account into the main account of its currency.
pub fn subscription_transfer(
    prep: &CryptoPaymentPreparation,
    transaction_id: TransactionId,
    main_account: AccountId,
) -> (t: CreateInternalTransaction)
    ensures
        t == (CreateInternalTransaction {
            id: transaction_id,
            from: prep.store_owner_account.id,
            to: main_account,
            amount: prep.total_amount,
        }),
{
    CreateInternalTransaction {
        id: transaction_id,
        from: prep.store_owner_account.id,
        to: main_account,
        amount: prep.total_amount,
    }
}

/// The record of a payment from the store owner's account, given whether
/// the transfer `transaction_id` succeeded.
pub fn finish_crypto_payment(prep: CryptoPaymentPreparation, transaction_id: TransactionId, succeeded: bool) -> (f:
    FinishedPayment)
    ensures
        f.subscriptions@ == prep.subscriptions@,
        f.subscription_payment.store_id == prep.store_subscription.store_id,
        f.subscription_payment.amount == prep.total_amount,
        f.subscription_payment.currency == prep.store_subscription.currency,
        f.subscription_payment.charge_id is None,
        f.subscription_payment.transaction_id == Some(transaction_id),
        f.subscription_payment.status == (if succeeded {
            SubscriptionPaymentStatus::Paid
        } else {
            SubscriptionPaymentStatus::Failed
        }),
{
    FinishedPayment {
        subscriptions: prep.subscriptions,
        subscription_payment: NewSubscriptionPayment {
            store_id: prep.store_subscription.store_id,
            amount: prep.total_amount,
            currency: prep.store_subscription.currency,
            charge_id: None,
            transaction_id: Some(transaction_id),
            status: if succeeded {
                SubscriptionPaymentStatus::Paid
            } else {
                SubscriptionPaymentStatus::Failed
            },
        },
    }
}

impl TransactionId {
    /// A fresh random transaction identifier.
    pub fn generate() -> (id: TransactionId)
        ensures
            crate::wallet::is_v4_uuid(id.0),
    {
        TransactionId(crate::wallet::random_uuid_bits())
    }
}

/// What to do with a store's subscription record when the store's
/// published products are counted.
#[derive(Clone, Debug)]
pub enum StoreSubscriptionStep {
    /// Use the record as it is.
    UseExisting,
    /// Start the store's trial now.
    StartTrial(UpdateStoreSubscription),
    /// Create a record for the store.
    Create(NewStoreSubscription),
}

/// Decides what to do with the store subscription of `store_id` (`existing`,
/// if there is one) at `now`: an existing record with a trial start is used
/// as it is, one without gets its trial started now, and a store without a
/// record gets one in EUR at the default price.
pub fn store_subscription_step(existing: Option<&StoreSubscription>, store_id: StoreId, now: Timestamp) -> (r:
    StoreSubscriptionStep)
    ensures
        existing matches Some(e) && e.trial_start_date is Some ==> r is UseExisting,
        existing matches Some(e) && e.trial_start_date is None ==> (r matches StoreSubscriptionStep::StartTrial(
            u,
        ) && u.trial_start_date == Some(now) && u.currency is None && u.value is None
            && u.wallet_address is None && u.status is None),
        existing is None ==> (r matches StoreSubscriptionStep::Create(n) && n.store_id == store_id
            && n.currency == Currency::Eur && n.value.0 == DEFAULT_EUR_CENTS_AMOUNT
            && n.wallet_address is None && n.trial_start_date is None),
{
    match existing {
        Some(e) => {
            if e.trial_start_date.is_some() {
                StoreSubscriptionStep::UseExisting
            } else {
                let mut update = UpdateStoreSubscription::empty();
                update.trial_start_date = Some(now);
                StoreSubscriptionStep::StartTrial(update)
            }
        },
        None => StoreSubscriptionStep::Create(
            NewStoreSubscription {
                store_id,
                currency: Currency::Eur,
                value: Amount::new(DEFAULT_EUR_CENTS_AMOUNT),
                wallet_address: None,
                trial_start_date: None,
            },
        ),
    }
}

/// Whether a store's new subscription is to be billed: a store on trial
/// is billed once `trial_start_date - now` is no longer below
/// `max_trial_duration`, a paying store always, and a free store never. A
/// trial without a start date is an internal error.
pub fn subscription_billable(store_subscription: &StoreSubscription, now: Timestamp, max_trial_duration: TimeSpan) -> (r:
    Result<bool, ServiceError>)
    ensures
        store_subscription.status == StoreSubscriptionStatus::Trial ==> match store_subscription.trial_start_date {
            None => r matches Err(e) && is_internal_error(e, None),
            Some(start) => r == Ok::<bool, ServiceError>(
                !(start.since_spec(now) < max_trial_duration.nanos),
            ),
        },
        store_subscription.status == StoreSubscriptionStatus::Paid ==> r == Ok::<bool, ServiceError>(true),
        store_subscription.status == StoreSubscriptionStatus::Free ==> r == Ok::<bool, ServiceError>(false),
{
    match store_subscription.status {
        StoreSubscriptionStatus::Trial => match store_subscription.trial_start_date {
            None => Err(ServiceError::internal()),
            Some(start) => {
                let trial_duration = start.since(now);
                Ok(!(trial_duration.nanos < max_trial_duration.nanos))
            },
        },
        StoreSubscriptionStatus::Paid => Ok(true),
        StoreSubscriptionStatus::Free => Ok(false),
    }
}

/// Whether one of a store's unpaid subscriptions was created on the
/// calendar day of `now`, so that no second one is created that day.
pub fn created_on_day_of(unpaid: &[Subscription], now: Timestamp) -> (r: bool)
    ensures
        r == exists|i: int| 0 <= i < unpaid@.len() && crate::time::day_index(
            (#[trigger] unpaid@[i]).created_at.nanos as int,
        ) == crate::time::day_index(now.nanos as int),
{
    let mut i: usize = 0;
    while i < unpaid.len()
        invariant
            i <= unpaid@.len(),
            forall|j: int|
                0 <= j < i ==> crate::time::day_index((#[trigger] unpaid@[j]).created_at.nanos as int)
                    != crate::time::day_index(now.nanos as int),
        decreases unpaid@.len() - i,
    {
        if unpaid[i].created_at.same_day(now) {
            return true;
        }
        i = i + 1;
    }
    false
}

/// The name of the account that receives a store's STQ subscription
/// payments: `store_subscription_` and the store's identifier.
pub open spec fn account_name_text(store_id: StoreId) -> Seq<char> {
    seq!['s', 't', 'o', 'r', 'e', '_', 's', 'u', 'b', 's', 'c', 'r', 'i', 'p', 't', 'i', 'o', 'n', '_']
        + int_text(store_id.0 as int)
}

/// The name of the account that receives a store's STQ subscription payments.
pub fn store_subscription_account_name(store_id: StoreId) -> (s: String)
    ensures
        s@ == account_name_text(store_id),
{
    proof {
        reveal_strlit("store_subscription_");
    }
    let mut s = String::from_str("store_subscription_");
    push_int_text(&mut s, store_id.0 as i64);
    s
}

/// What setting up a store subscription needs first.
#[derive(Clone, Debug)]
pub enum StoreSubscriptionSetup<T> {
    /// Nothing: store this.
    Ready(T),
    /// An account to open as requested, whose wallet then pays the
    /// subscription.
    CreateAccount(StoreAccountRequest),
}

/// The account a store's STQ subscription is paid into: a fresh random
/// identifier, its name, its currency and whether it is pooled.
#[derive(Clone, Debug)]
pub struct StoreAccountRequest {
    pub id: AccountId,
    pub name: String,
    pub currency: TureCurrency,
    pub is_pooled: bool,
}

/// `a` asks for the account of the STQ subscription of `store_id`: a
/// non-pooled STQ account with a fresh version-4 identifier, named
/// `store_subscription_` and the store's identifier.
pub open spec fn is_store_account_request(a: StoreAccountRequest, store_id: StoreId) -> bool {
    &&& a.name@ == account_name_text(store_id)
    &&& a.currency == TureCurrency::Stq
    &&& !a.is_pooled
    &&& crate::wallet::is_v4_uuid(a.id.0)
}

/// The account to open for the STQ subscription of `store_id`.
pub fn store_subscription_account_request(store_id: StoreId) -> (a: StoreAccountRequest)
    ensures
        is_store_account_request(a, store_id),
{
    StoreAccountRequest {
        id: AccountId(crate::wallet::random_uuid_bits()),
        name: store_subscription_account_name(store_id),
        currency: TureCurrency::Stq,
        is_pooled: false,
    }
}

/// `r` refuses a subscription in `currency`, which is neither STQ nor EUR.
pub open spec fn refused_currency<T>(r: Result<T, ServiceError>, currency: Currency) -> bool {
    r matches Err(e) && is_validation_error(e, seq![ValidationIssue::SubscriptionCurrency { currency }], None)
}

/// Decides how to set up the subscription of `store_id` in `currency`:
/// EUR at the default price right away, STQ after creating the account that
/// receives it, and no other currency.
pub fn create_store_subscription_plan(store_id: StoreId, currency: Currency) -> (r: Result<
    StoreSubscriptionSetup<NewStoreSubscription>,
    ServiceError,
>)
    ensures
        currency == Currency::Eur ==> (r matches Ok(StoreSubscriptionSetup::Ready(n)) && n.store_id == store_id
            && n.currency == Currency::Eur && n.value.0 == DEFAULT_EUR_CENTS_AMOUNT
            && n.wallet_address is None && n.trial_start_date is None),
        currency == Currency::Stq ==> (r matches Ok(StoreSubscriptionSetup::CreateAccount(a))
            && is_store_account_request(a, store_id)),
        currency != Currency::Eur && currency != Currency::Stq ==> refused_currency(r, currency),
{
    match currency {
        Currency::Eur => Ok(
            StoreSubscriptionSetup::Ready(
                NewStoreSubscription {
                    store_id,
                    currency: Currency::Eur,
                    value: Amount::new(DEFAULT_EUR_CENTS_AMOUNT),
                    wallet_address: None,
                    trial_start_date: None,
                },
            ),
        ),
        Currency::Stq => Ok(StoreSubscriptionSetup::CreateAccount(store_subscription_account_request(store_id))),
        _ => Err(ServiceError::validation(ValidationIssue::SubscriptionCurrency { currency }, None)),
    }
}

/// The STQ subscription of `store_id`, paid from the wallet `wallet_address`
/// of the account that was created for it.
pub fn stq_store_subscription(store_id: StoreId, wallet_address: WalletAddress) -> (n: NewStoreSubscription)
    ensures
        n.store_id == store_id,
        n.currency == Currency::Stq,
        n.value.0 == DEFAULT_STQ_WEI_AMOUNT,
        n.wallet_address matches Some(w) && w.0@ == wallet_address.0@,
        n.trial_start_date is None,
{
    NewStoreSubscription {
        store_id,
        currency: Currency::Stq,
        value: Amount::new(DEFAULT_STQ_WEI_AMOUNT),
        wallet_address: Some(wallet_address),
        trial_start_date: None,
    }
}

/// Decides how to change the currency of `old` to `currency`: the same
/// currency changes nothing else; EUR sets the default EUR price; STQ sets
/// the default STQ price, after creating the receiving account where the
/// subscription has no wallet yet; no other currency is allowed.
pub fn update_store_subscription_plan(old: &StoreSubscription, currency: Currency) -> (r: Result<
    StoreSubscriptionSetup<UpdateStoreSubscription>,
    ServiceError,
>)
    ensures
        currency == old.currency ==> (r matches Ok(StoreSubscriptionSetup::Ready(u)) && u.currency == Some(
            currency,
        ) && u.value is None && u.wallet_address is None && u.trial_start_date is None && u.status is None),
        currency != old.currency && currency == Currency::Eur ==> (r matches Ok(
            StoreSubscriptionSetup::Ready(u),
        ) && u.currency == Some(Currency::Eur) && u.value == Some(Amount(DEFAULT_EUR_CENTS_AMOUNT))
            && u.wallet_address is None && u.trial_start_date is None && u.status is None),
        currency != old.currency && currency == Currency::Stq && old.wallet_address is None ==> (r matches Ok(
            StoreSubscriptionSetup::CreateAccount(a),
        ) && is_store_account_request(a, old.store_id)),
        currency != old.currency && currency == Currency::Stq && old.wallet_address is Some ==> (r matches Ok(
            StoreSubscriptionSetup::Ready(u),
        ) && u.currency == Some(Currency::Stq) && u.value == Some(Amount(DEFAULT_STQ_WEI_AMOUNT))
            && u.wallet_address is None && u.trial_start_date is None && u.status is None),
        currency != old.currency && currency != Currency::Eur && currency != Currency::Stq
            ==> refused_currency(r, currency),
{
    if currency == old.currency {
        let mut u = UpdateStoreSubscription::empty();
        u.currency = Some(currency);
        return Ok(StoreSubscriptionSetup::Ready(u));
    }
    match currency {
        Currency::Eur => {
            let mut u = UpdateStoreSubscription::empty();
            u.currency = Some(Currency::Eur);
            u.value = Some(Amount::new(DEFAULT_EUR_CENTS_AMOUNT));
            Ok(StoreSubscriptionSetup::Ready(u))
        },
        Currency::Stq => {
            if old.wallet_address.is_none() {
                Ok(StoreSubscriptionSetup::CreateAccount(store_subscription_account_request(old.store_id)))
            } else {
                let mut u = UpdateStoreSubscription::empty();
                u.currency = Some(Currency::Stq);
                u.value = Some(Amount::new(DEFAULT_STQ_WEI_AMOUNT));
                Ok(StoreSubscriptionSetup::Ready(u))
            }
        },
        _ => Err(ServiceError::validation(ValidationIssue::SubscriptionCurrency { currency }, None)),
    }
}

/// The change that moves a subscription to STQ, paid from the wallet of
/// the account that was created for it.
pub fn stq_store_subscription_update(wallet_address: WalletAddress) -> (u: UpdateStoreSubscription)
    ensures
        u.currency == Some(Currency::Stq),
        u.value == Some(Amount(DEFAULT_STQ_WEI_AMOUNT)),
        u.wallet_address matches Some(w) && w.0@ == wallet_address.0@,
        u.trial_start_date is None,
        u.status is None,
{
    let mut u = UpdateStoreSubscription::empty();
    u.currency = Some(Currency::Stq);
    u.value = Some(Amount::new(DEFAULT_STQ_WEI_AMOUNT));
    u.wallet_address = Some(wallet_address);
    u
}

} // verus!
