//! Orders and the rules of their payment state.

use vstd::prelude::*;
use crate::ids::{InvoiceId, OrderId, StoreId};
use crate::money::{Amount, Currency, CurrencyChoice, FiatCurrency, TureCurrency};
use crate::service_error::{Error as ServiceError, ErrorContext, is_validation_error};
use crate::validation::ValidationIssue;

verus! {

/// Where the payment of an order stands.
#[derive(Clone, Copy, Debug, PartialEq, Eq, Structural, Hash)]
pub enum PaymentState {
    /// Paid by the buyer, not yet captured or declined.
    Initial,
    /// The seller declined the order; the payment is returned.
    Declined,
    /// The seller accepted the order.
    Captured,
    /// The buyer is owed a refund.
    RefundNeeded,
    /// The buyer got the refund.
    Refunded,
    /// The seller is owed the payment.
    PaymentToSellerNeeded,
    /// The seller got the payment.
    PaidToSeller,
}

/// An order as it is stored.
#[derive(Clone, Copy, Debug, PartialEq, Eq, Structural)]
pub struct RawOrder {
    pub id: OrderId,
    pub seller_currency: Currency,
    pub total_amount: Amount,
    pub cashback_amount: Amount,
    pub invoice_id: InvoiceId,
    pub store_id: StoreId,
    pub state: PaymentState,
}

/// How an order is paid, by the kind of its seller's currency.
#[derive(Clone, Copy, Debug, PartialEq, Eq, Structural)]
pub enum OrderPaymentKind {
    Crypto { currency: TureCurrency },
    Fiat { currency: FiatCurrency },
}

impl RawOrder {
    pub open spec fn payment_kind_spec(self) -> OrderPaymentKind {
        match self.seller_currency.kind() {
            CurrencyChoice::Crypto(c) => OrderPaymentKind::Crypto { currency: c },
            CurrencyChoice::Fiat(f) => OrderPaymentKind::Fiat { currency: f },
        }
    }

    pub fn payment_kind(&self) -> (k: OrderPaymentKind)
        ensures
            k == self.payment_kind_spec(),
    {
        match self.seller_currency.classify() {
            CurrencyChoice::Crypto(c) => OrderPaymentKind::Crypto { currency: c },
            CurrencyChoice::Fiat(f) => OrderPaymentKind::Fiat { currency: f },
        }
    }
}

/// The payment state changes that may be made to an order.
pub open spec fn state_change_allowed(current: PaymentState, new_state: PaymentState) -> bool {
    match (current, new_state) {
        (PaymentState::Initial, PaymentState::Captured) => true,
        (PaymentState::Initial, PaymentState::Declined) => true,
        (PaymentState::Captured, PaymentState::RefundNeeded) => true,
        (PaymentState::Captured, PaymentState::PaymentToSellerNeeded) => true,
        (PaymentState::RefundNeeded, PaymentState::Refunded) => true,
        (PaymentState::PaymentToSellerNeeded, PaymentState::PaidToSeller) => true,
        _ => false,
    }
}

/// Whether the payment state of an order may change from `current_state`
/// to `new_state`.
pub fn check_change_order_payment_state(current_state: PaymentState, new_state: PaymentState) -> (r: bool)
    ensures
        r == state_change_allowed(current_state, new_state),
{
    match (current_state, new_state) {
        (PaymentState::Initial, PaymentState::Captured)
        | (PaymentState::Initial, PaymentState::Declined)
        | (PaymentState::Captured, PaymentState::RefundNeeded)
        | (PaymentState::Captured, PaymentState::PaymentToSellerNeeded)
        | (PaymentState::RefundNeeded, PaymentState::Refunded)
        | (PaymentState::PaymentToSellerNeeded, PaymentState::PaidToSeller) => true,
        _ => false,
    }
}

/// How far along its life an order in a state is.
pub open spec fn state_rank(s: PaymentState) -> int {
    match s {
        PaymentState::Initial => 0,
        PaymentState::Declined => 1,
        PaymentState::Captured => 1,
        PaymentState::RefundNeeded => 2,
        PaymentState::PaymentToSellerNeeded => 2,
        PaymentState::Refunded => 3,
        PaymentState::PaidToSeller => 3,
    }
}

/// Every allowed change moves an order strictly forward, so no sequence
/// of allowed changes returns an order to a state it has left.
pub proof fn state_change_moves_forward(current: PaymentState, new_state: PaymentState)
    requires
        state_change_allowed(current, new_state),
    ensures
        state_rank(new_state) > state_rank(current),
        current != new_state,
{
}

/// No allowed change leads into `Initial`, and none leads out of
/// `Declined`, `Refunded` or `PaidToSeller`.
pub proof fn state_change_ends(a: PaymentState, b: PaymentState)
    ensures
        !state_change_allowed(a, PaymentState::Initial),
        !state_change_allowed(PaymentState::Declined, b),
        !state_change_allowed(PaymentState::Refunded, b),
        !state_change_allowed(PaymentState::PaidToSeller, b),
{
}

/// No order gets stuck short of the end of its life: from every state but
/// `Declined`, `Refunded` and `PaidToSeller` some change is allowed, and
/// every state but `Initial` is reached by some allowed change, so an
/// order paid for can end declined, refunded or paid to its seller.
pub proof fn state_changes_lead_to_an_end(s: PaymentState)
    ensures
        s != PaymentState::Declined && s != PaymentState::Refunded && s != PaymentState::PaidToSeller
            ==> exists|t: PaymentState| #[trigger] state_change_allowed(s, t),
        s != PaymentState::Initial ==> exists|r: PaymentState| #[trigger] state_change_allowed(r, s),
{
    match s {
        PaymentState::Initial => assert(state_change_allowed(s, PaymentState::Captured)),
        PaymentState::Captured => {
            assert(state_change_allowed(s, PaymentState::PaymentToSellerNeeded));
            assert(state_change_allowed(PaymentState::Initial, s));
        },
        PaymentState::Declined => assert(state_change_allowed(PaymentState::Initial, s)),
        PaymentState::RefundNeeded => {
            assert(state_change_allowed(s, PaymentState::Refunded));
            assert(state_change_allowed(PaymentState::Captured, s));
        },
        PaymentState::Refunded => assert(state_change_allowed(PaymentState::RefundNeeded, s)),
        PaymentState::PaymentToSellerNeeded => {
            assert(state_change_allowed(s, PaymentState::PaidToSeller));
            assert(state_change_allowed(PaymentState::Captured, s));
        },
        PaymentState::PaidToSeller => assert(state_change_allowed(PaymentState::PaymentToSellerNeeded, s)),
    }
}

/// Decides an update of the payment state of `order` to `state`: the new
/// state where the change is allowed, else the validation error.
pub fn order_state_update(order: &RawOrder, state: PaymentState) -> (r: Result<PaymentState, ServiceError>)
    ensures
        state_change_allowed(order.state, state) ==> r == Ok::<PaymentState, ServiceError>(state),
        !state_change_allowed(order.state, state) ==> (r matches Err(e) && is_validation_error(
            e,
            seq![ValidationIssue::OrderStateChange { from: order.state, to: state }],
            Some(ErrorContext::OrderState),
        )),
{
    if check_change_order_payment_state(order.state, state) {
        Ok(state)
    } else {
        Err(
            ServiceError::validation(
                ValidationIssue::OrderStateChange { from: order.state, to: state },
                Some(ErrorContext::OrderState),
            ),
        )
    }
}

/// What capturing an order does.
#[derive(Clone, Copy, Debug, PartialEq, Eq, Structural)]
pub enum CapturePlan {
    /// A fiat order: record the event that captures its card payment.
    CapturePaymentIntent,
    /// A crypto order: set its state to `Captured`.
    SetState(PaymentState),
}

/// What declining an order does.
#[derive(Clone, Copy, Debug, PartialEq, Eq, Structural)]
pub enum DeclinePlan {
    /// A fiat order: refund its card charge, then set its state to `Declined`.
    RefundThenSetState(PaymentState),
    /// A crypto order: set its state to `RefundNeeded`.
    SetState(PaymentState),
}

/// `r` is the error that refuses to capture or decline an order that is no
/// longer in its initial state.
pub open spec fn refused_as_not_initial<T>(r: Result<T, ServiceError>, state: PaymentState) -> bool {
    r matches Err(e) && is_validation_error(
        e,
        seq![ValidationIssue::OrderNotCapturable { state }],
        Some(ErrorContext::OrderState),
    )
}

/// Decides how to capture `order`: only an order in its initial state is
/// captured.
pub fn order_capture_plan(order: &RawOrder) -> (r: Result<CapturePlan, ServiceError>)
    ensures
        order.state != PaymentState::Initial ==> refused_as_not_initial(r, order.state),
        order.state == PaymentState::Initial && order.seller_currency.spec_is_fiat() ==> r == Ok::<
            CapturePlan,
            ServiceError,
        >(CapturePlan::CapturePaymentIntent),
        order.state == PaymentState::Initial && !order.seller_currency.spec_is_fiat() ==> r == Ok::<
            CapturePlan,
            ServiceError,
        >(CapturePlan::SetState(PaymentState::Captured)),
{
    if order.state != PaymentState::Initial {
        return Err(
            ServiceError::validation(
                ValidationIssue::OrderNotCapturable { state: order.state },
                Some(ErrorContext::OrderState),
            ),
        );
    }
    if order.seller_currency.is_fiat() {
        Ok(CapturePlan::CapturePaymentIntent)
    } else {
        Ok(CapturePlan::SetState(PaymentState::Captured))
    }
}

/// Decides how to decline `order`: only an order in its initial state is
/// declined.
pub fn order_decline_plan(order: &RawOrder) -> (r: Result<DeclinePlan, ServiceError>)
    ensures
        order.state != PaymentState::Initial ==> refused_as_not_initial(r, order.state),
        order.state == PaymentState::Initial && order.seller_currency.spec_is_fiat() ==> r == Ok::<
            DeclinePlan,
            ServiceError,
        >(DeclinePlan::RefundThenSetState(PaymentState::Declined)),
        order.state == PaymentState::Initial && !order.seller_currency.spec_is_fiat() ==> r == Ok::<
            DeclinePlan,
            ServiceError,
        >(DeclinePlan::SetState(PaymentState::RefundNeeded)),
{
    if order.state != PaymentState::Initial {
        return Err(
            ServiceError::validation(
                ValidationIssue::OrderNotCapturable { state: order.state },
                Some(ErrorContext::OrderState),
            ),
        );
    }
    if order.seller_currency.is_fiat() {
        Ok(DeclinePlan::RefundThenSetState(PaymentState::Declined))
    } else {
        Ok(DeclinePlan::SetState(PaymentState::RefundNeeded))
    }
}

} // verus!
