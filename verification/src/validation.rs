//! What a refused request is answered: the validation issues found in it.

use vstd::prelude::*;
use crate::billing::BillingType;
use crate::fee::FeeStatus;
use crate::ids::{FeeId, OrderId, StoreId};
use crate::money::{Currency, FiatCurrency, TureCurrency};
use crate::order::PaymentState;

verus! {

/// One reason for refusing a request, with the values it names.
#[allow(inconsistent_fields)]
#[derive(Clone, Debug)]
pub enum ValidationIssue {
    /// A stored value would break a uniqueness constraint.
    NotUnique { message: String },
    /// A payout was asked for no order.
    EmptyOrderList,
    /// An order is not in the state the request needs.
    WrongOrderState { order_id: OrderId, state: PaymentState },
    /// The orders of one payout are in different currencies.
    DifferentCurrencies,
    /// Fiat orders cannot be paid out.
    FiatNotSupported { currency: FiatCurrency },
    /// Some of the requested orders do not exist.
    MissingOrders { order_ids: Vec<OrderId> },
    /// The wallet's currency is not the currency of the orders.
    CurrencyMismatch { orders_currency: TureCurrency, wallet_currency: TureCurrency },
    /// Payouts already exist for some of the orders.
    PayoutsExist { order_ids: Vec<OrderId> },
    /// The payout is smaller than the blockchain fee.
    PayoutLessThanFee { order_ids: Vec<OrderId> },
    /// A fee has already been paid.
    WrongFeeStatus { fee_id: FeeId },
    /// The fees to charge are in different currencies.
    FeeCurrenciesDiffer,
    /// The orders whose fees are charged belong to different stores.
    FeeStoresDiffer,
    /// The store owner has no payment card to charge.
    PaymentCardMissing,
    /// A payment intent cannot be made for a fee in this status.
    PaymentIntentFeeStatus { status: FeeStatus },
    /// The store already has billing info of this kind.
    BillingInfoExists { store_id: StoreId, kind: BillingType },
    /// The payment state of an order cannot change this way.
    OrderStateChange { from: PaymentState, to: PaymentState },
    /// An order can be captured or declined only in its initial state.
    OrderNotCapturable { state: PaymentState },
    /// Subscriptions are paid only in STQ or EUR.
    SubscriptionCurrency { currency: Currency },
    /// A validation failure reported by another service, as its JSON text.
    Remote { details: String },
}

} // verus!
