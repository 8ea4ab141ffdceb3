//! Billing types of stores and the billing info of orders.

use vstd::prelude::*;
use crate::ids::StoreId;
use crate::order::RawOrder;
use crate::service_error::{Error as ServiceError, ErrorContext, is_validation_error};
use crate::validation::ValidationIssue;

verus! {

/// How a store is billed.
#[derive(Clone, Copy, Debug, PartialEq, Eq, Structural, Hash)]
pub enum BillingType {
    International,
    Russia,
}

/// A store's billing type as it is stored.
#[derive(Clone, Copy, Debug, PartialEq, Eq, Structural)]
pub struct StoreBillingType {
    pub store_id: StoreId,
    pub billing_type: BillingType,
}

/// A store billing type to be stored.
#[derive(Clone, Copy, Debug, PartialEq, Eq, Structural)]
pub struct NewStoreBillingType {
    pub store_id: StoreId,
    pub billing_type: BillingType,
}

/// The change to a store's billing type; `None` leaves it as it is.
#[derive(Clone, Copy, Debug, PartialEq, Eq, Structural)]
pub struct UpdateStoreBillingType {
    pub billing_type: Option<BillingType>,
}

/// What giving a store a billing type does to the stored records.
#[derive(Clone, Copy, Debug, PartialEq, Eq, Structural)]
pub enum BillingTypeChange {
    /// The store has no billing type yet: store this one.
    Create(NewStoreBillingType),
    /// The store already has this billing type.
    Keep,
    /// The store has the other billing type: delete the store's billing
    /// info of kind `delete_info_of`, then change the type.
    Switch { delete_info_of: BillingType, update: UpdateStoreBillingType },
}

/// The billing type that is not `t`.
pub open spec fn other_billing_type(t: BillingType) -> BillingType {
    match t {
        BillingType::International => BillingType::Russia,
        BillingType::Russia => BillingType::International,
    }
}

/// Decides how to give the store `store_id`, whose billing type is
/// `current`, the billing type `target`.
pub fn billing_type_change(current: Option<BillingType>, store_id: StoreId, target: BillingType) -> (c:
    BillingTypeChange)
    ensures
        current is None ==> c == BillingTypeChange::Create(
            NewStoreBillingType { store_id, billing_type: target },
        ),
        current == Some(target) ==> c == BillingTypeChange::Keep,
        current == Some(other_billing_type(target)) ==> c == (BillingTypeChange::Switch {
            delete_info_of: other_billing_type(target),
            update: UpdateStoreBillingType { billing_type: Some(target) },
        }),
{
    match current {
        None => BillingTypeChange::Create(NewStoreBillingType { store_id, billing_type: target }),
        Some(t) => {
            if t == target {
                BillingTypeChange::Keep
            } else {
                BillingTypeChange::Switch {
                    delete_info_of: t,
                    update: UpdateStoreBillingType { billing_type: Some(target) },
                }
            }
        },
    }
}

/// Decides how to make a store's billing type international.
pub fn update_store_billing_type_to_international(current: Option<BillingType>, store_id: StoreId) -> (c:
    BillingTypeChange)
    ensures
        c == billing_change_spec(current, store_id, BillingType::International),
{
    billing_type_change(current, store_id, BillingType::International)
}

/// Decides how to make a store's billing type Russian.
pub fn update_store_billing_type_to_russia(current: Option<BillingType>, store_id: StoreId) -> (c:
    BillingTypeChange)
    ensures
        c == billing_change_spec(current, store_id, BillingType::Russia),
{
    billing_type_change(current, store_id, BillingType::Russia)
}

/// The change `billing_type_change` decides.
pub open spec fn billing_change_spec(current: Option<BillingType>, store_id: StoreId, target: BillingType) -> BillingTypeChange {
    match current {
        None => BillingTypeChange::Create(NewStoreBillingType { store_id, billing_type: target }),
        Some(t) => if t == target {
            BillingTypeChange::Keep
        } else {
            BillingTypeChange::Switch {
                delete_info_of: t,
                update: UpdateStoreBillingType { billing_type: Some(target) },
            }
        },
    }
}

/// The store's billing type once a change is made.
pub open spec fn billing_type_after(current: Option<BillingType>, change: BillingTypeChange) -> Option<BillingType> {
    match change {
        BillingTypeChange::Create(n) => Some(n.billing_type),
        BillingTypeChange::Keep => current,
        BillingTypeChange::Switch { update, .. } => match update.billing_type {
            Some(t) => Some(t),
            None => current,
        },
    }
}

/// Whatever a store's billing type was, the change decided for `target`
/// leaves it at `target`; and billing info is deleted exactly when the
/// store had the other type, and then it is the info of that other type.
pub proof fn billing_type_change_reaches_target(current: Option<BillingType>, store_id: StoreId, target: BillingType)
    ensures
        billing_type_after(current, billing_change_spec(current, store_id, target)) == Some(target),
        (billing_change_spec(current, store_id, target) is Switch) <==> current == Some(other_billing_type(target)),
        billing_change_spec(current, store_id, target) matches BillingTypeChange::Switch { delete_info_of, .. }
            ==> delete_info_of == other_billing_type(target),
{
}

/// Refuses to create billing info of kind `kind` for a store that already
/// has some (`exists`).
pub fn validate_create_billing_info(exists: bool, store_id: StoreId, kind: BillingType) -> (r: Result<(), ServiceError>)
    ensures
        !exists ==> r is Ok,
        exists ==> (r matches Err(e) && is_validation_error(
            e,
            seq![ValidationIssue::BillingInfoExists { store_id, kind }],
            Some(ErrorContext::BillingInfo),
        )),
{
    if exists {
        Err(ServiceError::validation(ValidationIssue::BillingInfoExists { store_id, kind }, Some(ErrorContext::BillingInfo)))
    } else {
        Ok(())
    }
}

/// Refuses to create international billing info for a store that has some.
pub fn validate_create_international_billing_info(existing_info: bool, store_id: StoreId) -> (r: Result<(), ServiceError>)
    ensures
        !existing_info ==> r is Ok,
        existing_info ==> (r matches Err(e) && is_validation_error(
            e,
            seq![ValidationIssue::BillingInfoExists { store_id, kind: BillingType::International }],
            Some(ErrorContext::BillingInfo),
        )),
{
    validate_create_billing_info(existing_info, store_id, BillingType::International)
}

/// Refuses to create Russian billing info for a store that has some.
pub fn validate_create_russia_billing_info(existing_info: bool, store_id: StoreId) -> (r: Result<(), ServiceError>)
    ensures
        !existing_info ==> r is Ok,
        existing_info ==> (r matches Err(e) && is_validation_error(
            e,
            seq![ValidationIssue::BillingInfoExists { store_id, kind: BillingType::Russia }],
            Some(ErrorContext::BillingInfo),
        )),
{
    validate_create_billing_info(existing_info, store_id, BillingType::Russia)
}

/// An order with the billing info of its store: the store's billing type
/// (international where none is stored), its Russian and international
/// billing info, and the proxy company's billing info for Russian billing.
#[derive(Clone, Debug)]
pub struct OrderBillingInfo<R, I, P> {
    pub order: RawOrder,
    pub billing_type: BillingType,
    pub russia_billing_info: Option<R>,
    pub international_billing_info: Option<I>,
    pub proxy_company_billing_info: Option<P>,
}

/// Puts together the billing info of an order from what is stored for its
/// store.
pub fn order_billing_info<R, I, P>(
    order: RawOrder,
    store_billing_type: Option<BillingType>,
    russia_billing_info: Option<R>,
    international_billing_info: Option<I>,
    proxy_company_billing_info: Option<P>,
) -> (b: OrderBillingInfo<R, I, P>)
    ensures
        b.order == order,
        b.billing_type == match store_billing_type {
            Some(t) => t,
            None => BillingType::International,
        },
        b.russia_billing_info == russia_billing_info,
        b.international_billing_info == international_billing_info,
        b.billing_type == BillingType::Russia ==> b.proxy_company_billing_info == proxy_company_billing_info,
        b.billing_type != BillingType::Russia ==> b.proxy_company_billing_info is None,
{
    let billing_type = match store_billing_type {
        Some(t) => t,
        None => BillingType::International,
    };
    let proxy = if billing_type == BillingType::Russia {
        proxy_company_billing_info
    } else {
        None
    };
    OrderBillingInfo {
        order,
        billing_type,
        russia_billing_info,
        international_billing_info,
        proxy_company_billing_info: proxy,
    }
}

/// The stores of some orders, each once, in the order of their first order.
pub open spec fn order_stores(s: Seq<RawOrder>) -> Seq<StoreId>
    decreases s.len(),
{
    if s.len() == 0 {
        seq![]
    } else {
        let rest = order_stores(s.drop_last());
        if rest.contains(s.last().store_id) {
            rest
        } else {
            rest.push(s.last().store_id)
        }
    }
}

/// The stores of `orders`, each once, in the order of their first order.
pub fn order_store_ids(orders: &Vec<RawOrder>) -> (ids: Vec<StoreId>)
    ensures
        ids@ == order_stores(orders@),
{
    let mut ids: Vec<StoreId> = Vec::new();
    let mut i: usize = 0;
    while i < orders.len()
        invariant
            i <= orders.len(),
            ids@ == order_stores(orders@.take(i as int)),
        decreases orders.len() - i,
    {
        assert(orders@.take(i + 1).drop_last() =~= orders@.take(i as int));
        let store_id = orders[i].store_id;
        let mut found = false;
        let mut j: usize = 0;
        while j < ids.len()
            invariant
                j <= ids.len(),
                found <==> ids@.take(j as int).contains(store_id),
            decreases ids.len() - j,
        {
            let ghost before = ids@.take(j as int);
            let ghost after = ids@.take(j + 1);
            assert(after =~= before.push(ids@[j as int]));
            if ids[j] == store_id {
                assert(after[j as int] == store_id);
                found = true;
            }
            proof {
                if after.contains(store_id) && ids@[j as int] != store_id {
                    let k = choose|k: int| 0 <= k < after.len() && after[k] == store_id;
                    assert(before[k] == store_id);
                }
            }
            j = j + 1;
        }
        assert(ids@.take(j as int) =~= ids@);
        if !found {
            ids.push(store_id);
        }
        i = i + 1;
    }
    assert(orders@.take(orders.len() as int) =~= orders@);
    ids
}

/// The value stored last for `store` among `entries`: later entries
/// replace earlier ones.
pub open spec fn last_for_store<T>(entries: Seq<(StoreId, T)>, store: StoreId) -> Option<T>
    decreases entries.len(),
{
    if entries.len() == 0 {
        None
    } else if entries.last().0 == store {
        Some(entries.last().1)
    } else {
        last_for_store(entries.drop_last(), store)
    }
}

/// The billing type stored last for `store` among `types`.
pub open spec fn billing_type_for(types: Seq<StoreBillingType>, store: StoreId) -> Option<BillingType>
    decreases types.len(),
{
    if types.len() == 0 {
        None
    } else if types.last().store_id == store {
        Some(types.last().billing_type)
    } else {
        billing_type_for(types.drop_last(), store)
    }
}

/// `actual` is a clone of `expected`, or both are nothing.
pub open spec fn option_cloned<T: Clone>(actual: Option<T>, expected: Option<T>) -> bool {
    match (actual, expected) {
        (Some(a), Some(e)) => cloned(e, a),
        (None, None) => true,
        _ => false,
    }
}

/// A clone of the value stored last for `store` among `entries`.
fn find_last<T: Clone>(entries: &Vec<(StoreId, T)>, store: StoreId) -> (r: Option<T>)
    ensures
        option_cloned(r, last_for_store(entries@, store)),
{
    let mut i: usize = entries.len();
    assert(entries@.take(i as int) =~= entries@);
    while i > 0
        invariant
            i <= entries.len(),
            last_for_store(entries@, store) == last_for_store(entries@.take(i as int), store),
        decreases i,
    {
        assert(entries@.take(i as int).drop_last() =~= entries@.take(i - 1));
        if entries[i - 1].0 == store {
            return Some(entries[i - 1].1.clone());
        }
        i = i - 1;
    }
    None
}

/// The billing type stored last for `store` among `types`.
fn find_billing_type(types: &Vec<StoreBillingType>, store: StoreId) -> (r: Option<BillingType>)
    ensures
        r == billing_type_for(types@, store),
{
    let mut i: usize = types.len();
    assert(types@.take(i as int) =~= types@);
    while i > 0
        invariant
            i <= types.len(),
            billing_type_for(types@, store) == billing_type_for(types@.take(i as int), store),
        decreases i,
    {
        assert(types@.take(i as int).drop_last() =~= types@.take(i - 1));
        if types[i - 1].store_id == store {
            return Some(types[i - 1].billing_type);
        }
        i = i - 1;
    }
    None
}

/// `b` is the billing info of `order`, given the stored billing types,
/// Russian and international billing infos (later records of a store
/// replacing earlier ones) and the proxy company's billing info.
pub open spec fn is_order_billing_info<R: Clone, I: Clone, P: Clone>(
    b: OrderBillingInfo<R, I, P>,
    order: RawOrder,
    types: Seq<StoreBillingType>,
    russia: Seq<(StoreId, R)>,
    international: Seq<(StoreId, I)>,
    proxy: Option<P>,
) -> bool {
    &&& b.order == order
    &&& b.billing_type == match billing_type_for(types, order.store_id) {
        Some(t) => t,
        None => BillingType::International,
    }
    &&& option_cloned(b.russia_billing_info, last_for_store(russia, order.store_id))
    &&& option_cloned(b.international_billing_info, last_for_store(international, order.store_id))
    &&& if b.billing_type == BillingType::Russia {
        option_cloned(b.proxy_company_billing_info, proxy)
    } else {
        b.proxy_company_billing_info is None
    }
}

/// The billing info of each of `orders`, in their order, from the records
/// stored for their stores.
pub fn order_billing_infos<R: Clone, I: Clone, P: Clone>(
    orders: &Vec<RawOrder>,
    types: &Vec<StoreBillingType>,
    russia: &Vec<(StoreId, R)>,
    international: &Vec<(StoreId, I)>,
    proxy: &Option<P>,
) -> (infos: Vec<OrderBillingInfo<R, I, P>>)
    ensures
        infos.len() == orders.len(),
        forall|k: int|
            0 <= k < orders.len() ==> is_order_billing_info(
                #[trigger] infos@[k],
                orders@[k],
                types@,
                russia@,
                international@,
                *proxy,
            ),
{
    let mut infos: Vec<OrderBillingInfo<R, I, P>> = Vec::new();
    let mut i: usize = 0;
    while i < orders.len()
        invariant
            i <= orders.len(),
            infos.len() == i,
            forall|k: int|
                0 <= k < i ==> is_order_billing_info(
                    #[trigger] infos@[k],
                    orders@[k],
                    types@,
                    russia@,
                    international@,
                    *proxy,
                ),
        decreases orders.len() - i,
    {
        let order = orders[i];
        let proxy_copy: Option<P> = match proxy {
            Some(p) => Some(p.clone()),
            None => None,
        };
        let b = order_billing_info(
            order,
            find_billing_type(types, order.store_id),
            find_last(russia, order.store_id),
            find_last(international, order.store_id),
            proxy_copy,
        );
        infos.push(b);
        i = i + 1;
    }
    infos
}

} // verus!
