//! The periodic job that counts the stores' published products, records
//! them as new subscriptions, and has the billing pay subscriptions.

use vstd::prelude::*;
use std::collections::HashMap;

verus! {

/// An HTTP service the job talks to.
#[derive(Clone, Debug)]
pub struct Microservice {
    pub url: String,
}

/// The job's settings: how often it runs (in seconds), and where the
/// stores and billing services are.
#[derive(Clone, Debug)]
pub struct Config {
    pub interval_s: usize,
    pub file_name: String,
    pub cluster: String,
    pub thread_count: usize,
    pub stores_microservice: Microservice,
    pub billing_microservice: Microservice,
}

/// Where a base product stands with moderation.
#[derive(Clone, Copy, Debug, PartialEq, Eq, Structural)]
pub enum ModerationStatus {
    Draft,
    Moderation,
    Decline,
    Blocked,
    Published,
}

/// A base product of the catalog, with its store.
#[derive(Clone, Copy, Debug, PartialEq, Eq, Structural)]
pub struct BaseProduct {
    pub store_id: i32,
    pub status: ModerationStatus,
}

/// A store's count of published base products, sent to the billing as a
/// new subscription.
#[derive(Clone, Copy, Debug, PartialEq, Eq, Structural)]
pub struct NewSubscription {
    pub store_id: i32,
    pub published_base_products_quantity: i32,
}

/// The stores of some products, each once, in the order of their first
/// product.
pub open spec fn product_stores(s: Seq<BaseProduct>) -> Seq<i32>
    decreases s.len(),
{
    if s.len() == 0 {
        seq![]
    } else {
        let rest = product_stores(s.drop_last());
        if rest.contains(s.last().store_id) {
            rest
        } else {
            rest.push(s.last().store_id)
        }
    }
}

/// How many of `s` belong to the store `store_id`.
pub open spec fn products_of_store(s: Seq<BaseProduct>, store_id: i32) -> nat
    decreases s.len(),
{
    if s.len() == 0 {
        0
    } else {
        products_of_store(s.drop_last(), store_id) + if s.last().store_id == store_id {
            1nat
        } else {
            0nat
        }
    }
}

/// `subs` counts, for each store of `s` in the order of its first product,
/// the products of `s` that belong to it.
pub open spec fn counts_products(subs: Seq<NewSubscription>, s: Seq<BaseProduct>) -> bool {
    &&& subs.len() == product_stores(s).len()
    &&& forall|k: int|
        0 <= k < subs.len() ==> {
            &&& #[trigger] subs[k].store_id == product_stores(s)[k]
            &&& subs[k].published_base_products_quantity == products_of_store(s, product_stores(s)[k])
        }
}

/// A store without products has none counted, and a prefix of the products
/// counts no more than all of them.
proof fn lemma_count_bound(s: Seq<BaseProduct>, store_id: i32)
    ensures
        products_of_store(s, store_id) <= s.len(),
        !product_stores(s).contains(store_id) ==> products_of_store(s, store_id) == 0,
    decreases s.len(),
{
    if s.len() > 0 {
        lemma_count_bound(s.drop_last(), store_id);
        let rest = product_stores(s.drop_last());
        if !rest.contains(s.last().store_id) {
            assert(product_stores(s)[rest.len() as int] == s.last().store_id);
        }
        if !product_stores(s).contains(store_id) {
            if rest.contains(store_id) {
                let k = choose|k: int| 0 <= k < rest.len() && rest[k] == store_id;
                assert(product_stores(s)[k] == store_id);
            }
        }
    }
}

/// The stores of `s` come each once.
proof fn lemma_stores_distinct(s: Seq<BaseProduct>)
    ensures
        forall|a: int, b: int|
            0 <= a < b < product_stores(s).len() ==> product_stores(s)[a] != product_stores(s)[b],
    decreases s.len(),
{
    if s.len() > 0 {
        lemma_stores_distinct(s.drop_last());
        let rest = product_stores(s.drop_last());
        let x = s.last().store_id;
        if !rest.contains(x) {
            assert forall|a: int, b: int|
                0 <= a < b < product_stores(s).len() implies product_stores(s)[a] != product_stores(s)[b] by {
                if b == rest.len() && rest[a] == x {
                    assert(rest.contains(x));
                }
            }
        }
    }
}

/// A prefix of the products holds no more products of a store than all of
/// them.
proof fn lemma_prefix_count(s: Seq<BaseProduct>, n: int, store_id: i32)
    requires
        0 <= n <= s.len(),
    ensures
        products_of_store(s.take(n), store_id) <= products_of_store(s, store_id),
    decreases s.len() - n,
{
    if n < s.len() {
        lemma_prefix_count(s, n + 1, store_id);
        assert(s.take(n + 1).drop_last() =~= s.take(n));
    } else {
        assert(s.take(n) =~= s);
    }
}

/// Counts the products of `products` by store, one new subscription per
/// store in the order of its first product. Every store's count must fit
/// an `i32`.
pub fn count_published_products(products: &Vec<BaseProduct>) -> (subs: Vec<NewSubscription>)
    requires
        forall|store_id: i32| #[trigger] products_of_store(products@, store_id) <= i32::MAX,
    ensures
        counts_products(subs@, products@),
{
    broadcast use vstd::std_specs::hash::group_hash_axioms;
    let mut counts: HashMap<i32, i32> = HashMap::new();
    let mut stores: Vec<i32> = Vec::new();
    let mut i: usize = 0;
    while i < products.len()
        invariant
            i <= products.len(),
            forall|store_id: i32| #[trigger] products_of_store(products@, store_id) <= i32::MAX,
            stores@ == product_stores(products@.take(i as int)),
            forall|store_id: i32|
                #[trigger] counts@.contains_key(store_id) <==> product_stores(products@.take(i as int)).contains(
                    store_id,
                ),
            forall|store_id: i32|
                #[trigger] counts@.contains_key(store_id) ==> counts@[store_id] == products_of_store(
                    products@.take(i as int),
                    store_id,
                ),
        decreases products.len() - i,
    {
        let ghost before = products@.take(i as int);
        let ghost after = products@.take(i + 1);
        assert(after.drop_last() =~= before);
        let store_id = products[i].store_id;
        proof {
            assert(after.last() == products@[i as int]);
            assert forall|x: i32| #[trigger] products_of_store(after, x) == products_of_store(before, x) + if store_id
                == x {
                1nat
            } else {
                0nat
            } by {}
            lemma_prefix_count(products@, i + 1, store_id);
        }
        let ghost old_map = counts@;
        let old_count = counts.get(&store_id);
        match old_count {
            Some(c) => {
                let c = *c;
                proof {
                    assert(product_stores(after) == product_stores(before));
                }
                counts.insert(store_id, c + 1);
            },
            None => {
                proof {
                    lemma_count_bound(before, store_id);
                    assert(product_stores(after) == product_stores(before).push(store_id));
                }
                counts.insert(store_id, 1);
                stores.push(store_id);
            },
        }
        proof {
            assert forall|x: i32| #[trigger] counts@.contains_key(x) <==> product_stores(after).contains(x) by {
                assert(x != store_id ==> (counts@.contains_key(x) == old_map.contains_key(x)));
                if x == store_id {
                    if product_stores(before).contains(store_id) {
                        assert(product_stores(after) == product_stores(before));
                    }
                    if !product_stores(before).contains(store_id) {
                        assert(product_stores(after)[product_stores(before).len() as int] == store_id);
                    }
                } else {
                    if product_stores(after).contains(x) && !product_stores(before).contains(x) {
                        let k = choose|k: int| 0 <= k < product_stores(after).len() && product_stores(after)[k] == x;
                        assert(product_stores(before)[k] == x);
                    }
                    if product_stores(before).contains(x) {
                        let k = choose|k: int| 0 <= k < product_stores(before).len() && product_stores(before)[k] == x;
                        assert(product_stores(after)[k] == x);
                    }
                }
            }
        }
        i = i + 1;
    }
    assert(products@.take(products.len() as int) =~= products@);
    proof {
        lemma_stores_distinct(products@);
    }
    let mut subs: Vec<NewSubscription> = Vec::new();
    let mut k: usize = 0;
    while k < stores.len()
        invariant
            k <= stores.len(),
            stores@ == product_stores(products@),
            forall|store_id: i32| #[trigger] counts@.contains_key(store_id) <==> product_stores(products@).contains(store_id),
            forall|store_id: i32|
                #[trigger] counts@.contains_key(store_id) ==> counts@[store_id] == products_of_store(products@, store_id),
            subs@.len() == k,
            forall|j: int|
                0 <= j < k ==> {
                    &&& #[trigger] subs@[j].store_id == product_stores(products@)[j]
                    &&& subs@[j].published_base_products_quantity == products_of_store(
                        products@,
                        product_stores(products@)[j],
                    )
                },
        decreases stores.len() - k,
    {
        let store_id = stores[k];
        assert(product_stores(products@).contains(store_id)) by {
            assert(product_stores(products@)[k as int] == store_id);
        }
        let count = match counts.get(&store_id) {
            Some(c) => *c,
            None => 0,
        };
        subs.push(NewSubscription { store_id, published_base_products_quantity: count });
        k = k + 1;
    }
    subs
}

/// The sum of the counts of some subscriptions.
pub open spec fn total_quantity(subs: Seq<NewSubscription>) -> int
    decreases subs.len(),
{
    if subs.len() == 0 {
        0
    } else {
        total_quantity(subs.drop_last()) + subs.last().published_base_products_quantity
    }
}

/// The number of products of `s` that belong to the stores `stores`, a
/// store counted once for each time it is listed.
pub open spec fn count_sum(stores: Seq<i32>, s: Seq<BaseProduct>) -> int
    decreases stores.len(),
{
    if stores.len() == 0 {
        0
    } else {
        count_sum(stores.drop_last(), s) + products_of_store(s, stores.last())
    }
}

/// How many times `x` is listed in `t`.
pub open spec fn listed(t: Seq<i32>, x: i32) -> int
    decreases t.len(),
{
    if t.len() == 0 {
        0
    } else {
        listed(t.drop_last(), x) + if t.last() == x {
            1int
        } else {
            0int
        }
    }
}

/// Adding a product to `s` adds one to the count of its store, once for
/// each time the store is listed.
proof fn lemma_count_sum_step(t: Seq<i32>, s: Seq<BaseProduct>)
    requires
        s.len() > 0,
    ensures
        count_sum(t, s) == count_sum(t, s.drop_last()) + listed(t, s.last().store_id),
    decreases t.len(),
{
    if t.len() > 0 {
        lemma_count_sum_step(t.drop_last(), s);
    }
}

/// In a list without repetitions, a store is listed once if it is there,
/// else never.
proof fn lemma_listed_distinct(t: Seq<i32>, x: i32)
    requires
        forall|a: int, b: int| 0 <= a < b < t.len() ==> t[a] != t[b],
    ensures
        listed(t, x) == if t.contains(x) {
            1int
        } else {
            0int
        },
    decreases t.len(),
{
    if t.len() > 0 {
        let u = t.drop_last();
        lemma_listed_distinct(u, x);
        if u.contains(x) {
            let k = choose|k: int| 0 <= k < u.len() && u[k] == x;
            assert(t[k] == x);
            assert(t.contains(x));
            assert(t.last() != x) by {
                assert(t[k] != t[t.len() - 1]);
            }
        } else if t.last() == x {
            assert(t[t.len() - 1] == x);
        } else {
            if t.contains(x) {
                let k = choose|k: int| 0 <= k < t.len() && t[k] == x;
                assert(u[k] == x);
            }
        }
    }
}

/// The stores of `s` together hold all of its products.
proof fn lemma_stores_hold_all(s: Seq<BaseProduct>)
    ensures
        count_sum(product_stores(s), s) == s.len(),
    decreases s.len(),
{
    if s.len() > 0 {
        let u = s.drop_last();
        let x = s.last().store_id;
        lemma_stores_hold_all(u);
        lemma_stores_distinct(u);
        lemma_listed_distinct(product_stores(u), x);
        lemma_count_sum_step(product_stores(u), s);
        if !product_stores(u).contains(x) {
            lemma_count_bound(u, x);
            assert(product_stores(s).drop_last() =~= product_stores(u));
        }
    }
}

/// Subscriptions that count the products of `s` store by store sum up to
/// the count over their stores.
proof fn lemma_quantity_prefix(subs: Seq<NewSubscription>, s: Seq<BaseProduct>, n: int)
    requires
        counts_products(subs, s),
        0 <= n <= subs.len(),
    ensures
        total_quantity(subs.take(n)) == count_sum(product_stores(s).take(n), s),
    decreases n,
{
    if n > 0 {
        lemma_quantity_prefix(subs, s, n - 1);
        assert(subs.take(n).drop_last() =~= subs.take(n - 1));
        assert(product_stores(s).take(n).drop_last() =~= product_stores(s).take(n - 1));
        assert(subs[n - 1].store_id == product_stores(s)[n - 1]);
    }
}

/// Every product is counted once: the counts of the new subscriptions that
/// `count_published_products` makes add up to the number of products.
pub proof fn counted_products_add_up(subs: Seq<NewSubscription>, products: Seq<BaseProduct>)
    requires
        counts_products(subs, products),
    ensures
        total_quantity(subs) == products.len(),
{
    lemma_quantity_prefix(subs, products, subs.len() as int);
    assert(subs.take(subs.len() as int) =~= subs);
    assert(product_stores(products).take(subs.len() as int) =~= product_stores(products));
    lemma_stores_hold_all(products);
}

} // verus!
