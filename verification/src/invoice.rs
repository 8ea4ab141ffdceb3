//! Invoices paid in crypto currencies: the exchange rates of their orders
//! and the amounts they capture.

use vstd::prelude::*;
use crate::ids::{AccountId, ExchangeId, InvoiceId, OrderId, TransactionId, UserId};
use crate::money::{Amount, Currency};
use crate::order::RawOrder;
use crate::repo_error::{Error as RepoError, ErrorKind as RepoErrorKind};
use crate::wallet::{is_v4_uuid, random_uuid_bits};

verus! {

/// A request to the payments service to reserve the rate at which a buyer
/// pays, in `from`, an order of `amount` in `amount_currency` that the
/// seller is paid in `to`.
#[derive(Clone, Copy, Debug, PartialEq, Eq, Structural)]
pub struct GetRate {
    pub id: u128,
    pub from: Currency,
    pub to: Currency,
    pub amount_currency: Currency,
    pub amount: Amount,
}

/// How the exchange rate of an order is found.
#[derive(Clone, Copy, Debug, PartialEq, Eq, Structural)]
pub enum RatePlan {
    /// Buyer and seller use one currency: the rate is one, with no
    /// reservation.
    Identity,
    /// Reserve a rate with the payments service.
    Reserve(GetRate),
}

/// `p` reserves, for a buyer paying in `buyer_currency`, the rate of an
/// order of `total_amount` in `seller_currency`, where the currencies
/// differ.
pub open spec fn reserves_rate(
    p: RatePlan,
    buyer_currency: Currency,
    seller_currency: Currency,
    total_amount: Amount,
) -> bool {
    if buyer_currency == seller_currency {
        p is Identity
    } else {
        &&& p matches RatePlan::Reserve(g)
        &&& g.from == buyer_currency
        &&& g.to == seller_currency
        &&& g.amount_currency == seller_currency
        &&& g.amount == total_amount
    }
}

/// Decides how to find the rate at which a buyer paying in
/// `buyer_currency` pays an order of `total_amount` in `seller_currency`;
/// a reservation request gets a fresh random identifier.
pub fn get_rate(buyer_currency: Currency, seller_currency: Currency, total_amount: Amount) -> (p: RatePlan)
    ensures
        reserves_rate(p, buyer_currency, seller_currency, total_amount),
        p matches RatePlan::Reserve(g) ==> is_v4_uuid(g.id),
{
    if buyer_currency == seller_currency {
        RatePlan::Identity
    } else {
        RatePlan::Reserve(GetRate {
            id: random_uuid_bits(),
            from: buyer_currency,
            to: seller_currency,
            amount_currency: seller_currency,
            amount: total_amount,
        })
    }
}

/// Whether an exchange rate is the one an order is paid at.
#[derive(Clone, Copy, Debug, PartialEq, Eq, Structural)]
pub enum ExchangeRateStatus {
    Active,
    Expired,
}

/// An exchange rate of an order as it is stored; `R` is the rate itself.
#[derive(Clone, Debug)]
pub struct OrderExchangeRate<R> {
    pub order_id: OrderId,
    pub exchange_id: Option<ExchangeId>,
    pub exchange_rate: R,
    pub status: ExchangeRateStatus,
}

/// A new active exchange rate of an order.
#[derive(Clone, Debug)]
pub struct NewOrderExchangeRate<R> {
    pub order_id: OrderId,
    pub exchange_id: Option<ExchangeId>,
    pub exchange_rate: R,
}

/// The rate the payments service reserved or refreshed.
#[derive(Clone, Debug)]
pub struct Rate<R> {
    pub id: u128,
    pub rate: R,
}

/// The payments service's answer to a refresh: the rate, and whether it is
/// a new reservation.
#[derive(Clone, Debug)]
pub struct RateRefresh<R> {
    pub rate: Rate<R>,
    pub is_new_rate: bool,
}

/// What an order's exchange rate needs at a recalculation.
#[derive(Clone, Debug)]
pub enum RateStep<R> {
    /// Nothing more: the order gets this rate, or keeps the one it has.
    Done(Option<NewOrderExchangeRate<R>>),
    /// Reserve a rate as requested.
    Reserve(GetRate),
    /// Ask the payments service to refresh the reservation.
    Refresh(ExchangeId),
}

/// `r` is the rate one, without a reservation, for the order `order_id`.
pub open spec fn is_unit_rate<R>(r: NewOrderExchangeRate<R>, order_id: OrderId, unit: R) -> bool {
    r.order_id == order_id && r.exchange_id is None && r.exchange_rate == unit
}

/// Decides what the exchange rate of `order`, which a buyer pays in
/// `buyer_currency`, needs, given its active rate `current`; `unit` is the
/// rate one. An order without a rate reserves one (or gets the rate one in
/// the seller's currency); a rate that was never reserved is renewed as
/// the rate one; a reservation is refreshed.
pub fn reserve_or_refresh_rate<R>(
    order: &RawOrder,
    buyer_currency: Currency,
    current: Option<&OrderExchangeRate<R>>,
    unit: R,
) -> (s: RateStep<R>)
    ensures
        match current {
            None => if buyer_currency == order.seller_currency {
                s matches RateStep::Done(Some(r)) && is_unit_rate(r, order.id, unit)
            } else {
                s matches RateStep::Reserve(g) && reserves_rate(
                    RatePlan::Reserve(g),
                    buyer_currency,
                    order.seller_currency,
                    order.total_amount,
                )
            },
            Some(c) => match c.exchange_id {
                None => s matches RateStep::Done(Some(r)) && is_unit_rate(r, order.id, unit),
                Some(id) => s == RateStep::<R>::Refresh(id),
            },
        },
{
    match current {
        None => match get_rate(buyer_currency, order.seller_currency, order.total_amount) {
            RatePlan::Identity => RateStep::Done(
                Some(NewOrderExchangeRate { order_id: order.id, exchange_id: None, exchange_rate: unit }),
            ),
            RatePlan::Reserve(g) => RateStep::Reserve(g),
        },
        Some(c) => match c.exchange_id {
            None => RateStep::Done(
                Some(NewOrderExchangeRate { order_id: order.id, exchange_id: None, exchange_rate: unit }),
            ),
            Some(id) => RateStep::Refresh(id),
        },
    }
}

/// The new active rate of the order `order_id` from the rate the payments
/// service reserved.
pub fn reserved_rate<R>(order_id: OrderId, rate: Rate<R>) -> (r: NewOrderExchangeRate<R>)
    ensures
        r.order_id == order_id,
        r.exchange_id == Some(ExchangeId(rate.id)),
        r.exchange_rate == rate.rate,
{
    NewOrderExchangeRate { order_id, exchange_id: Some(ExchangeId(rate.id)), exchange_rate: rate.rate }
}

/// The new active rate of the order `order_id` after a refresh: the
/// refreshed rate where it is a new reservation, else none (the order
/// keeps its rate).
pub fn refreshed_rate<R>(order_id: OrderId, refresh: RateRefresh<R>) -> (r: Option<NewOrderExchangeRate<R>>)
    ensures
        refresh.is_new_rate <==> r is Some,
        r matches Some(n) ==> n.order_id == order_id && n.exchange_id == Some(ExchangeId(refresh.rate.id))
            && n.exchange_rate == refresh.rate.rate,
{
    if refresh.is_new_rate {
        Some(reserved_rate(order_id, refresh.rate))
    } else {
        None
    }
}

/// The values that `s` holds, in their order.
pub open spec fn somes<T>(s: Seq<Option<T>>) -> Seq<T>
    decreases s.len(),
{
    if s.len() == 0 {
        Seq::empty()
    } else {
        let rest = somes(s.drop_last());
        match s.last() {
            Some(v) => rest.push(v),
            None => rest,
        }
    }
}

/// The new rates among the outcomes of a recalculation, in their order.
pub fn refresh_rates<R>(outcomes: Vec<Option<NewOrderExchangeRate<R>>>) -> (rates: Vec<NewOrderExchangeRate<R>>)
    ensures
        rates@ == somes(outcomes@),
{
    let mut rates: Vec<NewOrderExchangeRate<R>> = Vec::new();
    let mut rest = outcomes;
    let ghost all = rest@;
    let ghost mut done: Seq<Option<NewOrderExchangeRate<R>>> = Seq::empty();
    while rest.len() > 0
        invariant
            all == done + rest@,
            rates@ == somes(done),
        decreases rest.len(),
    {
        let o = rest.remove(0);
        proof {
            assert(done.push(o).drop_last() =~= done);
            done = done.push(o);
            assert(all =~= done + rest@);
        }
        match o {
            Some(r) => {
                rates.push(r);
            },
            None => {},
        }
    }
    assert(all =~= done);
    rates
}

/// An invoice as it is stored: the buyer pays it into the account
/// `account_id`, in `buyer_currency`; `amount_captured` has arrived so far.
#[derive(Clone, Copy, Debug, PartialEq, Eq, Structural)]
pub struct RawInvoice {
    pub id: InvoiceId,
    pub account_id: Option<AccountId>,
    pub buyer_currency: Currency,
    pub amount_captured: Amount,
    pub buyer_user_id: UserId,
}

/// An invoice to be stored.
#[derive(Clone, Copy, Debug, PartialEq, Eq, Structural)]
pub struct NewInvoice {
    pub id: InvoiceId,
    pub account_id: Option<AccountId>,
    pub buyer_currency: Currency,
    pub amount_captured: Amount,
    pub buyer_user_id: UserId,
}

/// A new invoice of the buyer `buyer_user_id`, paid in `buyer_currency`
/// into the account `account_id`, with nothing captured yet.
pub fn new_invoice(id: InvoiceId, account_id: AccountId, buyer_currency: Currency, buyer_user_id: UserId) -> (i: NewInvoice)
    ensures
        i == (NewInvoice {
            id,
            account_id: Some(account_id),
            buyer_currency,
            amount_captured: Amount(0),
            buyer_user_id,
        }),
{
    NewInvoice { id, account_id: Some(account_id), buyer_currency, amount_captured: Amount::new(0), buyer_user_id }
}

/// The record of an amount an invoice received in a transaction.
#[derive(Clone, Copy, Debug, PartialEq, Eq, Structural)]
pub struct NewAmountReceived {
    pub id: TransactionId,
    pub invoice_id: InvoiceId,
    pub amount_received: Amount,
}

/// What `invoice` receiving `amount_received` in the transaction
/// `transaction_id` stores: the record of the amount and the invoice's new
/// captured amount, the sum of the two; a sum that does not fit an amount
/// is an internal error.
pub fn increase_amount_captured(invoice: &RawInvoice, transaction_id: TransactionId, amount_received: Amount) -> (r: Result<
    (NewAmountReceived, Amount),
    RepoError,
>)
    ensures
        r is Ok <==> invoice.amount_captured.0 + amount_received.0 <= u128::MAX,
        r matches Ok((record, captured)) ==> {
            &&& record == (NewAmountReceived { id: transaction_id, invoice_id: invoice.id, amount_received })
            &&& captured.0 == invoice.amount_captured.0 + amount_received.0
        },
        r matches Err(e) ==> e.kind is Internal && e.source is None,
{
    match invoice.amount_captured.checked_add(amount_received) {
        Some(captured) => Ok(
            (NewAmountReceived { id: transaction_id, invoice_id: invoice.id, amount_received }, captured),
        ),
        None => Err(RepoError { kind: RepoErrorKind::Internal, source: None }),
    }
}

} // verus!
