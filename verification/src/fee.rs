//! Fees taken from sellers, and charging them.

use vstd::prelude::*;
use crate::customer::{CustomerId, DbCustomer};
use crate::ids::{FeeId, OrderId, StoreId, UserId};
use crate::money::{Amount, Currency};
use crate::order::RawOrder;
use crate::roles::UserRole;
use crate::service_error::{Error as ServiceError, ErrorContext, is_internal_error, is_validation_error};
use crate::subscription::ChargeId;
use crate::validation::ValidationIssue;

verus! {

/// Where the payment of a fee stands.
#[derive(Clone, Copy, Debug, PartialEq, Eq, Structural, Hash)]
pub enum FeeStatus {
    NotPaid,
    Paid,
    Fail,
}

/// A fee that the seller of an order owes.
#[derive(Clone, Debug)]
pub struct Fee {
    pub id: FeeId,
    pub order_id: OrderId,
    pub amount: Amount,
    pub status: FeeStatus,
    pub currency: Currency,
    pub charge_id: Option<ChargeId>,
    pub crypto_currency: Option<Currency>,
    pub crypto_amount: Option<Amount>,
}

/// A fee to be stored.
#[derive(Clone, Debug)]
pub struct NewFee {
    pub order_id: OrderId,
    pub amount: Amount,
    pub status: FeeStatus,
    pub currency: Currency,
    pub charge_id: Option<ChargeId>,
    pub crypto_currency: Option<Currency>,
    pub crypto_amount: Option<Amount>,
}

/// The changes to a fee; `None` leaves a field as it is.
#[derive(Clone, Debug)]
pub struct UpdateFee {
    pub charge_id: Option<ChargeId>,
    pub status: Option<FeeStatus>,
}

/// A card charge to be made.
#[derive(Clone, Debug)]
pub struct NewCharge {
    pub customer_id: CustomerId,
    pub amount: Amount,
    pub currency: Currency,
    pub capture: bool,
}

/// What a single fee's charge is labelled with.
#[derive(Clone, Copy, Debug, PartialEq, Eq, Structural)]
pub struct ChargeMetadata {
    pub order_id: OrderId,
    pub fee_id: FeeId,
}

/// Refuses to charge fees of which one is already paid, naming the first.
pub fn validate_charge_fees(fees: &[Fee]) -> (r: Result<(), ServiceError>)
    ensures
        (forall|i: int| 0 <= i < fees@.len() ==> (#[trigger] fees@[i]).status != FeeStatus::Paid) ==> r is Ok,
        forall|i: int|
            0 <= i < fees@.len() && (#[trigger] fees@[i]).status == FeeStatus::Paid && (forall|j: int|
                0 <= j < i ==> fees@[j].status != FeeStatus::Paid) ==> (r matches Err(e)
                && is_validation_error(
                e,
                seq![ValidationIssue::WrongFeeStatus { fee_id: fees@[i].id }],
                Some(ErrorContext::OrderState),
            )),
{
    let mut i: usize = 0;
    while i < fees.len()
        invariant
            i <= fees@.len(),
            forall|j: int| 0 <= j < i ==> (#[trigger] fees@[j]).status != FeeStatus::Paid,
        decreases fees@.len() - i,
    {
        if fees[i].status == FeeStatus::Paid {
            return Err(
                ServiceError::validation(
                    ValidationIssue::WrongFeeStatus { fee_id: fees[i].id },
                    Some(ErrorContext::OrderState),
                ),
            );
        }
        i = i + 1;
    }
    Ok(())
}

/// Whether some fees are in one currency, there being at least one.
pub open spec fn one_currency(fees: Seq<Fee>) -> bool {
    fees.len() > 0 && forall|i: int| 0 <= i < fees.len() ==> (#[trigger] fees[i]).currency == fees[0].currency
}

/// The one currency of the fees, else the validation error.
pub fn extract_currency(fees: &[Fee]) -> (r: Result<Currency, ServiceError>)
    ensures
        one_currency(fees@) ==> r == Ok::<Currency, ServiceError>(fees@[0].currency),
        !one_currency(fees@) ==> (r matches Err(e) && is_validation_error(
            e,
            seq![ValidationIssue::FeeCurrenciesDiffer],
            Some(ErrorContext::OrderState),
        )),
{
    if fees.len() == 0 {
        return Err(ServiceError::validation(ValidationIssue::FeeCurrenciesDiffer, Some(ErrorContext::OrderState)));
    }
    let first = fees[0].currency;
    let mut i: usize = 0;
    while i < fees.len()
        invariant
            i <= fees@.len(),
            fees@.len() > 0,
            first == fees@[0].currency,
            forall|j: int| 0 <= j < i ==> (#[trigger] fees@[j]).currency == first,
        decreases fees@.len() - i,
    {
        if fees[i].currency != first {
            return Err(
                ServiceError::validation(ValidationIssue::FeeCurrenciesDiffer, Some(ErrorContext::OrderState)),
            );
        }
        i = i + 1;
    }
    Ok(first)
}

/// The total of some fees.
pub open spec fn fees_total(fees: Seq<Fee>) -> int
    decreases fees.len(),
{
    if fees.len() == 0 {
        0
    } else {
        fees_total(fees.drop_last()) + fees.last().amount.0
    }
}

proof fn lemma_fees_total_prefix(fees: Seq<Fee>, n: int)
    requires
        0 <= n <= fees.len(),
    ensures
        fees_total(fees.take(n)) <= fees_total(fees),
    decreases fees.len() - n,
{
    if n < fees.len() {
        lemma_fees_total_prefix(fees, n + 1);
        assert(fees.take(n + 1).drop_last() =~= fees.take(n));
    } else {
        assert(fees.take(n) =~= fees);
    }
}

/// The total of fees is the sum of their amounts, whatever their status: a
/// single fee totals its amount, and the fees of two lists together total
/// the sum of the lists' totals.
pub proof fn fees_total_sums_amounts(f: Fee, s: Seq<Fee>, t: Seq<Fee>)
    ensures
        fees_total(seq![f]) == f.amount.0,
        fees_total(s + t) == fees_total(s) + fees_total(t),
        fees_total(Seq::<Fee>::empty()) == 0,
    decreases t.len(),
{
    assert(seq![f].drop_last() =~= Seq::<Fee>::empty());
    assert(fees_total(seq![f].drop_last()) == 0);
    assert(seq![f].last() == f);
    if t.len() == 0 {
        assert(s + t =~= s);
    } else {
        fees_total_sums_amounts(f, s, t.drop_last());
        assert((s + t).drop_last() =~= s + t.drop_last());
    }
}

/// The total of some fees, or an internal error where it does not fit an amount.
pub fn total_amount(fees: &[Fee]) -> (r: Result<Amount, ServiceError>)
    ensures
        fees_total(fees@) <= u128::MAX ==> (r matches Ok(a) && a.0 == fees_total(fees@)),
        fees_total(fees@) > u128::MAX ==> (r matches Err(e) && is_internal_error(e, None)),
{
    let mut total = Amount::zero();
    let mut i: usize = 0;
    while i < fees.len()
        invariant
            i <= fees@.len(),
            total.0 == fees_total(fees@.take(i as int)),
        decreases fees@.len() - i,
    {
        assert(fees@.take(i + 1).drop_last() =~= fees@.take(i as int));
        match total.checked_add(fees[i].amount) {
            Some(t) => {
                total = t;
            },
            None => {
                proof {
                    lemma_fees_total_prefix(fees@, i + 1);
                }
                return Err(ServiceError::internal());
            },
        }
        i = i + 1;
    }
    assert(fees@.take(fees@.len() as int) =~= fees@);
    Ok(total)
}

/// The label of a charge: a charge of exactly one fee names its order and
/// the fee; a charge of several names none.
pub fn create_charge_metadata(fees: &[Fee]) -> (m: Option<ChargeMetadata>)
    ensures
        fees@.len() == 1 ==> m == Some(ChargeMetadata { order_id: fees@[0].order_id, fee_id: fees@[0].id }),
        fees@.len() != 1 ==> m is None,
{
    if fees.len() > 1 || fees.len() == 0 {
        None
    } else {
        Some(ChargeMetadata { order_id: fees[0].order_id, fee_id: fees[0].id })
    }
}

/// The card charge for some fees to the store owner's customer: their
/// total, in their one currency, captured at once.
pub fn fee_charge(customer: &DbCustomer, fees: &[Fee]) -> (r: Result<NewCharge, ServiceError>)
    ensures
        fees_total(fees@) > u128::MAX ==> (r matches Err(e) && is_internal_error(e, None)),
        fees_total(fees@) <= u128::MAX && !one_currency(fees@) ==> (r matches Err(e) && is_validation_error(
            e,
            seq![ValidationIssue::FeeCurrenciesDiffer],
            Some(ErrorContext::OrderState),
        )),
        fees_total(fees@) <= u128::MAX && one_currency(fees@) ==> (r matches Ok(c) && c.customer_id.0@
            == customer.id.0@ && c.amount.0 == fees_total(fees@) && c.currency == fees@[0].currency
            && c.capture),
{
    let amount = total_amount(fees)?;
    let currency = extract_currency(fees)?;
    Ok(NewCharge { customer_id: CustomerId(customer.id.0.clone()), amount, currency, capture: true })
}

/// The owner of the store whose fees are charged, from the store's role
/// record; a store without one is an internal error.
pub fn fee_store_owner(owner_role: Option<UserRole>) -> (r: Result<UserId, ServiceError>)
    ensures
        match owner_role {
            Some(role) => r == Ok::<UserId, ServiceError>(role.user_id),
            None => (r matches Err(e) && is_internal_error(e, None)),
        },
{
    match owner_role {
        Some(role) => Ok(role.user_id),
        None => Err(ServiceError::internal()),
    }
}

/// The store owner's card customer, who is charged for fees; without one
/// the charge is refused.
pub fn fee_customer(customer: Option<DbCustomer>) -> (r: Result<DbCustomer, ServiceError>)
    ensures
        customer matches Some(c) ==> r == Ok::<DbCustomer, ServiceError>(c),
        customer is None ==> (r matches Err(e) && is_validation_error(
            e,
            seq![ValidationIssue::PaymentCardMissing],
            Some(ErrorContext::OrderState),
        )),
{
    match customer {
        Some(c) => Ok(c),
        None => Err(ServiceError::validation(ValidationIssue::PaymentCardMissing, Some(ErrorContext::OrderState))),
    }
}

/// Whether some orders belong to one store, there being at least one.
pub open spec fn one_store(orders: Seq<RawOrder>) -> bool {
    orders.len() > 0 && forall|i: int| 0 <= i < orders.len() ==> (#[trigger] orders[i]).store_id == orders[0].store_id
}

/// The one store that the orders whose fees are charged belong to, else
/// the validation error.
pub fn fee_store(orders: &[RawOrder]) -> (r: Result<StoreId, ServiceError>)
    ensures
        one_store(orders@) ==> r == Ok::<StoreId, ServiceError>(orders@[0].store_id),
        !one_store(orders@) ==> (r matches Err(e) && is_validation_error(
            e,
            seq![ValidationIssue::FeeStoresDiffer],
            Some(ErrorContext::OrderState),
        )),
{
    if orders.len() == 0 {
        return Err(ServiceError::validation(ValidationIssue::FeeStoresDiffer, Some(ErrorContext::OrderState)));
    }
    let first = orders[0].store_id;
    let mut i: usize = 0;
    while i < orders.len()
        invariant
            i <= orders@.len(),
            orders@.len() > 0,
            first == orders@[0].store_id,
            forall|j: int| 0 <= j < i ==> (#[trigger] orders@[j]).store_id == first,
        decreases orders@.len() - i,
    {
        if orders[i].store_id != first {
            return Err(ServiceError::validation(ValidationIssue::FeeStoresDiffer, Some(ErrorContext::OrderState)));
        }
        i = i + 1;
    }
    Ok(first)
}

/// The change to a fee after its charge: the charge's identifier, and paid
/// or failed as the charge was.
pub fn fee_charge_update(charge_id: ChargeId, paid: bool) -> (u: UpdateFee)
    ensures
        u.charge_id matches Some(c) && c.0@ == charge_id.0@,
        u.status == Some(if paid {
            FeeStatus::Paid
        } else {
            FeeStatus::Fail
        }),
{
    UpdateFee {
        charge_id: Some(charge_id),
        status: Some(
            if paid {
                FeeStatus::Paid
            } else {
                FeeStatus::Fail
            },
        ),
    }
}

/// The change to a fee whose payment intent became capturable: paid.
pub fn fee_paid_update() -> (u: UpdateFee)
    ensures
        u.charge_id is None,
        u.status == Some(FeeStatus::Paid),
{
    UpdateFee { charge_id: None, status: Some(FeeStatus::Paid) }
}

/// The fee of `order` at `order_percent` percent fits an amount.
pub open spec fn order_fee_fits(order_percent: u64, order: RawOrder) -> bool {
    (order.total_amount.0 / 100) * order_percent <= u128::MAX
}

/// `f` is the unpaid fee of `order` at `order_percent` percent.
pub open spec fn is_order_fee(f: NewFee, order_percent: u64, order: RawOrder) -> bool {
    &&& f.order_id == order.id
    &&& f.amount.0 == (order.total_amount.0 / 100) * order_percent
    &&& f.status == FeeStatus::NotPaid
    &&& f.currency == order.seller_currency
    &&& f.charge_id is None
    &&& f.crypto_currency is None
    &&& f.crypto_amount is None
}

/// The fee of an order at `order_percent` percent: each whole hundred
/// minimal units of the order's total brings `order_percent` units (the
/// total is divided by a hundred first, dropping the rest), in the seller's
/// currency, not paid yet.
pub fn create_fee(order_percent: u64, order: &RawOrder) -> (r: Result<NewFee, ServiceError>)
    ensures
        (order.total_amount.0 / 100) * order_percent <= u128::MAX ==> (r matches Ok(f) && f.order_id
            == order.id && f.amount.0 == (order.total_amount.0 / 100) * order_percent && f.status
            == FeeStatus::NotPaid && f.currency == order.seller_currency && f.charge_id is None
            && f.crypto_currency is None && f.crypto_amount is None),
        (order.total_amount.0 / 100) * order_percent > u128::MAX ==> (r matches Err(e) && is_internal_error(
            e,
            Some(ErrorContext::AmountConversion),
        )),
{
    let hundred_percents = Amount::new(100);
    let one_percent = match order.total_amount.checked_div(hundred_percents) {
        Some(a) => a,
        None => {
            return Err(crate::service_error::Error {
                kind: crate::service_error::ErrorKind::Internal,
                context: Some(ErrorContext::AmountConversion),
            });
        },
    };
    match one_percent.checked_mul(Amount::new(order_percent as u128)) {
        Some(amount) => Ok(
            NewFee {
                order_id: order.id,
                amount,
                status: FeeStatus::NotPaid,
                currency: order.seller_currency,
                charge_id: None,
                crypto_currency: None,
                crypto_amount: None,
            },
        ),
        None => Err(crate::service_error::Error {
            kind: crate::service_error::ErrorKind::Internal,
            context: Some(ErrorContext::AmountConversion),
        }),
    }
}

/// A fee is never more than its percentage of the order's total.
pub proof fn fee_within_percentage(total: u128, order_percent: u64)
    ensures
        (total / 100) * order_percent * 100 <= total * order_percent,
{
    assert((total / 100) * 100 <= total);
    assert((total / 100) * order_percent * 100 <= total * order_percent) by (nonlinear_arith)
        requires
            (total / 100) * 100 <= total,
            order_percent >= 0,
            total / 100 >= 0,
    ;
}

/// Refuses a payment intent for a fee that is already paid or failed.
pub fn validate_payment_intent_create_fee(fee: &Fee) -> (r: Result<(), ServiceError>)
    ensures
        fee.status == FeeStatus::NotPaid ==> r is Ok,
        fee.status != FeeStatus::NotPaid ==> (r matches Err(e) && is_validation_error(
            e,
            seq![ValidationIssue::PaymentIntentFeeStatus { status: fee.status }],
            Some(ErrorContext::FeeState),
        )),
{
    match fee.status {
        FeeStatus::Paid | FeeStatus::Fail => Err(
            ServiceError::validation(
                ValidationIssue::PaymentIntentFeeStatus { status: fee.status },
                Some(ErrorContext::FeeState),
            ),
        ),
        FeeStatus::NotPaid => Ok(()),
    }
}

/// Which fees to look for; `None` matches every value.
#[derive(Clone, Debug)]
pub struct SearchFeeParams {
    pub id: Option<FeeId>,
    pub order_ids: Option<Vec<OrderId>>,
}

/// Whether the fee `fee` is among those `search` looks for: every filter
/// that is set must hold.
pub open spec fn fee_search_selects(search: SearchFeeParams, fee: Fee) -> bool {
    &&& search.id matches Some(id) ==> fee.id == id
    &&& search.order_ids matches Some(ids) ==> ids@.contains(fee.order_id)
}

impl SearchFeeParams {
    /// The search for the fees of the orders `order_ids`.
    pub fn by_order_ids(order_ids: Vec<OrderId>) -> (s: SearchFeeParams)
        ensures
            s.id is None,
            s.order_ids matches Some(ids) && ids@ == order_ids@,
    {
        SearchFeeParams { id: None, order_ids: Some(order_ids) }
    }

    /// Whether `fee` is among the fees this search looks for.
    pub fn selects(&self, fee: &Fee) -> (r: bool)
        ensures
            r == fee_search_selects(*self, *fee),
    {
        if let Some(id) = self.id {
            if fee.id != id {
                return false;
            }
        }
        match &self.order_ids {
            None => true,
            Some(ids) => {
                let mut i: usize = 0;
                while i < ids.len()
                    invariant
                        i <= ids.len(),
                        forall|k: int| 0 <= k < i ==> ids@[k] != fee.order_id,
                        self.id matches Some(id) ==> fee.id == id,
                        self.order_ids == Some(*ids),
                    decreases ids.len() - i,
                {
                    if ids[i] == fee.order_id {
                        assert(ids@[i as int] == fee.order_id);
                        return true;
                    }
                    i = i + 1;
                }
                false
            },
        }
    }
}

} // verus!
