//! Payment intents of the card payment provider: what the billing stores
//! of them, and what their events lead to.

use vstd::prelude::*;
use crate::fee::{Fee, FeeStatus, NewFee, UpdateFee, create_fee, fee_paid_update, is_order_fee, order_fee_fits};
use crate::invoice::RawInvoice;
use crate::ids::{FeeId, InvoiceId, OrderId};
use crate::order::RawOrder;
use crate::money::{Amount, Currency};
use crate::service_error::{Error as ServiceError, ErrorContext, is_internal_error};
use crate::subscription::ChargeId;

verus! {

/// The identifier of a payment intent with the card payment provider.
#[derive(Clone, Debug)]
pub struct PaymentIntentId(pub String);

/// A charge of a payment intent, as the provider reports it.
#[derive(Clone, Debug)]
pub struct IntentCharge {
    pub id: String,
    pub paid: bool,
}

/// Where a payment intent stands with the provider.
#[derive(Clone, Copy, Debug, PartialEq, Eq, Structural)]
pub enum PaymentIntentStatus {
    RequiresSource,
    RequiresConfirmation,
    RequiresSourceAction,
    Processing,
    RequiresCapture,
    Canceled,
    Succeeded,
    Other,
}

/// A payment intent as the provider reports it; `currency` is the
/// billing's currency for the provider's, where there is one.
#[derive(Clone, Debug)]
pub struct ProviderPaymentIntent {
    pub id: String,
    pub amount: u64,
    pub amount_received: u64,
    pub client_secret: Option<String>,
    pub currency: Option<Currency>,
    pub last_payment_error_message: Option<String>,
    pub receipt_email: Option<String>,
    pub charges: Vec<IntentCharge>,
    pub status: PaymentIntentStatus,
}

/// A payment intent to be stored.
#[derive(Clone, Debug)]
pub struct NewPaymentIntent {
    pub id: PaymentIntentId,
    pub amount: Amount,
    pub amount_received: Amount,
    pub client_secret: Option<String>,
    pub currency: Currency,
    pub last_payment_error_message: Option<String>,
    pub receipt_email: Option<String>,
    pub charge_id: Option<ChargeId>,
    pub status: PaymentIntentStatus,
}

/// The link between a payment intent and the fee it pays.
#[derive(Clone, Debug)]
pub struct PaymentIntentFee {
    pub fee_id: FeeId,
    pub payment_intent_id: PaymentIntentId,
}

/// The link between a payment intent and the invoice it pays.
#[derive(Clone, Debug)]
pub struct PaymentIntentInvoice {
    pub invoice_id: InvoiceId,
    pub payment_intent_id: PaymentIntentId,
}

/// The changes to a stored payment intent; `None` leaves a field as it is.
#[derive(Clone, Debug)]
pub struct UpdatePaymentIntent {
    pub charge_id: Option<ChargeId>,
    pub status: Option<PaymentIntentStatus>,
}

/// The identifier of the first charge of `charges`, or of the first paid one
/// where `paid_only`.
pub open spec fn first_charge_where(charges: Seq<IntentCharge>, paid_only: bool) -> Option<Seq<char>>
    decreases charges.len(),
{
    if charges.len() == 0 {
        None
    } else if !paid_only || charges[0].paid {
        Some(charges[0].id@)
    } else {
        first_charge_where(charges.drop_first(), paid_only)
    }
}

/// The charge identifier that `id` holds, as text.
pub open spec fn charge_text(id: Option<ChargeId>) -> Option<Seq<char>> {
    match id {
        Some(c) => Some(c.0@),
        None => None,
    }
}

/// The first charge of `charges`, or the first paid one where `paid_only`.
fn first_charge(charges: &Vec<IntentCharge>, paid_only: bool) -> (c: Option<ChargeId>)
    ensures
        charge_text(c) == first_charge_where(charges@, paid_only),
{
    let mut i: usize = 0;
    assert(charges@.skip(0) =~= charges@);
    while i < charges.len()
        invariant
            i <= charges.len(),
            first_charge_where(charges@, paid_only) == first_charge_where(charges@.skip(i as int), paid_only),
        decreases charges.len() - i,
    {
        assert(charges@.skip(i as int).drop_first() =~= charges@.skip(i + 1));
        if !paid_only || charges[i].paid {
            return Some(ChargeId(charges[i].id.clone()));
        }
        i = i + 1;
    }
    None
}

/// The change to a stored payment intent whose amount became capturable:
/// the charge that was paid, the first where there are several.
pub fn update_payment_intent(intent: &ProviderPaymentIntent) -> (u: UpdatePaymentIntent)
    ensures
        charge_text(u.charge_id) == first_charge_where(intent.charges@, true),
        u.status is None,
{
    UpdatePaymentIntent { charge_id: first_charge(&intent.charges, true), status: None }
}

/// The payment intent and its link to the fee `fee_id` to store, from the
/// intent the provider created for the fee; an intent in a currency the
/// billing does not have is an internal error.
pub fn new_payment_intent(fee_id: FeeId, intent: ProviderPaymentIntent) -> (r: Result<
    (NewPaymentIntent, PaymentIntentFee),
    ServiceError,
>)
    ensures
        r is Ok <==> intent.currency is Some,
        r matches Ok((p, link)) ==> {
            &&& p.id.0@ == intent.id@
            &&& p.amount.0 == intent.amount
            &&& p.amount_received.0 == intent.amount_received
            &&& p.client_secret == intent.client_secret
            &&& Some(p.currency) == intent.currency
            &&& p.last_payment_error_message == intent.last_payment_error_message
            &&& p.receipt_email == intent.receipt_email
            &&& charge_text(p.charge_id) == first_charge_where(intent.charges@, false)
            &&& p.status == intent.status
            &&& link.fee_id == fee_id
            &&& link.payment_intent_id.0@ == intent.id@
        },
        r matches Err(e) ==> is_internal_error(e, None),
{
    let currency = match intent.currency {
        Some(c) => c,
        None => {
            return Err(ServiceError::internal());
        },
    };
    let charge_id = first_charge(&intent.charges, false);
    let link = PaymentIntentFee { fee_id, payment_intent_id: PaymentIntentId(intent.id.clone()) };
    let p = NewPaymentIntent {
        id: PaymentIntentId(intent.id),
        amount: Amount::new(intent.amount as u128),
        amount_received: Amount::new(intent.amount_received as u128),
        client_secret: intent.client_secret,
        currency,
        last_payment_error_message: intent.last_payment_error_message,
        receipt_email: intent.receipt_email,
        charge_id,
        status: intent.status,
    };
    Ok((p, link))
}

/// How the payment intent is to be created for a fee: its amount, in the
/// provider's currency for the fee's (where there is one), paid by card
/// and captured later.
#[derive(Clone, Debug)]
pub struct FeePaymentIntentParams {
    pub amount: Amount,
    pub currency: Currency,
    pub card_only: bool,
    pub manual_capture: bool,
}

/// The parameters of the payment intent for `fee`; `provider_has_currency`
/// tells whether the provider takes the fee's currency, else the request
/// is an internal error.
pub fn payment_intent_create_params(fee: &Fee, provider_has_currency: bool) -> (r: Result<
    FeePaymentIntentParams,
    ServiceError,
>)
    ensures
        r is Ok <==> provider_has_currency,
        r matches Ok(p) ==> p == (FeePaymentIntentParams {
            amount: fee.amount,
            currency: fee.currency,
            card_only: true,
            manual_capture: true,
        }),
        r matches Err(e) ==> is_internal_error(e, None),
{
    if !provider_has_currency {
        return Err(ServiceError::internal());
    }
    Ok(FeePaymentIntentParams { amount: fee.amount, currency: fee.currency, card_only: true, manual_capture: true })
}

/// What a payment intent whose amount became capturable pays.
#[derive(Clone, Debug)]
pub enum PaymentTarget {
    Invoice(PaymentIntentInvoice),
    Fee(PaymentIntentFee),
}

/// Decides what a payment intent pays from its links to an invoice and to
/// a fee: exactly one of them must exist, else the event is an internal
/// error (an intent cannot pay two things, and one that pays nothing is
/// unknown).
pub fn payment_intent_amount_capturable_updated(invoice_link: Option<PaymentIntentInvoice>, fee_link: Option<PaymentIntentFee>) -> (r: Result<
    PaymentTarget,
    ServiceError,
>)
    ensures
        r is Ok <==> (invoice_link is Some) != (fee_link is Some),
        r matches Ok(PaymentTarget::Invoice(l)) ==> invoice_link == Some(l),
        r matches Ok(PaymentTarget::Fee(l)) ==> fee_link == Some(l),
        r matches Err(e) ==> is_internal_error(e, None),
{
    match (invoice_link, fee_link) {
        (Some(l), None) => Ok(PaymentTarget::Invoice(l)),
        (None, Some(l)) => Ok(PaymentTarget::Fee(l)),
        _ => Err(ServiceError::internal()),
    }
}

/// The kinds of provider events the billing tells apart.
#[derive(Clone, Copy, Debug, PartialEq, Eq, Structural)]
pub enum ProviderEventKind {
    PaymentIntentAmountCapturableUpdated,
    PaymentIntentPaymentFailed,
    Other,
}

/// An event to record for later processing.
#[derive(Clone, Debug)]
pub enum EventPayload {
    PaymentIntentAmountCapturableUpdated { payment_intent: ProviderPaymentIntent },
    PaymentIntentPaymentFailed { payment_intent: ProviderPaymentIntent },
}

/// The event to record for a provider event of `kind` about `object` (a
/// payment intent, where the event is about one): the two payment intent
/// events are recorded, anything else is not.
pub fn provider_event_payload(kind: ProviderEventKind, object: Option<ProviderPaymentIntent>) -> (r: Option<
    EventPayload,
>)
    ensures
        r is Some <==> object is Some && kind != ProviderEventKind::Other,
        r matches Some(EventPayload::PaymentIntentAmountCapturableUpdated { payment_intent }) ==> kind
            == ProviderEventKind::PaymentIntentAmountCapturableUpdated && object == Some(payment_intent),
        r matches Some(EventPayload::PaymentIntentPaymentFailed { payment_intent }) ==> kind
            == ProviderEventKind::PaymentIntentPaymentFailed && object == Some(payment_intent),
{
    match (kind, object) {
        (ProviderEventKind::PaymentIntentAmountCapturableUpdated, Some(payment_intent)) => Some(
            EventPayload::PaymentIntentAmountCapturableUpdated { payment_intent },
        ),
        (ProviderEventKind::PaymentIntentPaymentFailed, Some(payment_intent)) => Some(
            EventPayload::PaymentIntentPaymentFailed { payment_intent },
        ),
        _ => None,
    }
}

/// A payment intent as it is stored.
#[derive(Clone, Debug)]
pub struct PaymentIntent {
    pub id: PaymentIntentId,
    pub amount: Amount,
    pub amount_received: Amount,
    pub client_secret: Option<String>,
    pub currency: Currency,
    pub last_payment_error_message: Option<String>,
    pub receipt_email: Option<String>,
    pub charge_id: Option<ChargeId>,
    pub status: PaymentIntentStatus,
}

/// A refund of a card charge for an order.
#[derive(Clone, Debug)]
pub struct Refund {
    pub charge_id: ChargeId,
    pub amount: Amount,
    pub order_id: OrderId,
}

/// The refund that declining the fiat order `order` makes: its whole total,
/// back through the charge of the payment intent of its invoice. Without
/// that payment intent (`intent`), or without a charge on it, the decline
/// is an internal error.
pub fn order_refund(order: &RawOrder, intent: Option<&PaymentIntent>) -> (r: Result<Refund, ServiceError>)
    ensures
        r is Ok <==> (intent matches Some(i) && i.charge_id is Some),
        r matches Ok(refund) ==> {
            &&& charge_text(Some(refund.charge_id)) == charge_text(intent.unwrap().charge_id)
            &&& refund.amount == order.total_amount
            &&& refund.order_id == order.id
        },
        r matches Err(e) ==> is_internal_error(e, None),
{
    match intent {
        None => Err(ServiceError::internal()),
        Some(i) => match &i.charge_id {
            None => Err(ServiceError::internal()),
            Some(c) => Ok(Refund { charge_id: ChargeId(c.0.clone()), amount: order.total_amount, order_id: order.id }),
        },
    }
}

/// What a payment intent whose amount became capturable paid: an invoice,
/// with its orders, or a fee.
#[derive(Clone, Debug)]
pub enum PaymentType {
    Invoice { payment_intent: PaymentIntent, invoice: RawInvoice, orders: Vec<RawOrder> },
    Fee,
}

/// Whether every one of `orders` has a fee at `order_percent` percent that
/// fits an amount.
pub open spec fn order_fees_fit(order_percent: u64, orders: Seq<RawOrder>) -> bool {
    forall|k: int| 0 <= k < orders.len() ==> order_fee_fits(order_percent, #[trigger] orders[k])
}

/// Settles a payment intent that paid an invoice (`invoice`, looked up by
/// the intent's link) with its `orders`: each order gets its fee at
/// `order_percent` percent, in the order of the orders. A missing invoice,
/// or a fee that does not fit an amount, is an internal error.
pub fn payment_intent_amount_capturable_updated_invoice(
    order_percent: u64,
    payment_intent: PaymentIntent,
    invoice: Option<RawInvoice>,
    orders: Vec<RawOrder>,
) -> (r: Result<(PaymentType, Vec<NewFee>), ServiceError>)
    ensures
        match invoice {
            None => (r matches Err(e) && is_internal_error(e, None)),
            Some(i) => if order_fees_fit(order_percent, orders@) {
                r matches Ok((paid, fees)) && {
                    &&& paid matches PaymentType::Invoice { payment_intent: p, invoice: pi, orders: po }
                    &&& pi == i
                    &&& po@ == orders@
                    &&& p.id.0@ == payment_intent.id.0@
                    &&& fees@.len() == orders@.len()
                    &&& forall|k: int|
                        0 <= k < fees@.len() ==> is_order_fee(#[trigger] fees@[k], order_percent, orders@[k])
                }
            } else {
                r matches Err(e) && is_internal_error(e, Some(ErrorContext::AmountConversion))
            },
        },
{
    let found = match invoice {
        Some(i) => i,
        None => {
            return Err(ServiceError::internal());
        },
    };
    let mut fees: Vec<NewFee> = Vec::new();
    let mut i: usize = 0;
    while i < orders.len()
        invariant
            i <= orders.len(),
            fees@.len() == i,
            invoice == Some(found),
            forall|k: int| 0 <= k < i ==> order_fee_fits(order_percent, #[trigger] orders@[k]),
            forall|k: int| 0 <= k < i ==> is_order_fee(#[trigger] fees@[k], order_percent, orders@[k]),
        decreases orders.len() - i,
    {
        match create_fee(order_percent, &orders[i]) {
            Ok(f) => {
                fees.push(f);
            },
            Err(e) => {
                assert(!order_fee_fits(order_percent, orders@[i as int]));
                return Err(e);
            },
        }
        i = i + 1;
    }
    Ok((PaymentType::Invoice { payment_intent, invoice: found, orders }, fees))
}

/// Settles a payment intent that paid a fee: the fee of the link becomes
/// paid.
pub fn payment_intent_amount_capturable_updated_fee(link: &PaymentIntentFee) -> (r: (FeeId, UpdateFee))
    ensures
        r.0 == link.fee_id,
        r.1.status == Some(FeeStatus::Paid),
        r.1.charge_id is None,
{
    (link.fee_id, fee_paid_update())
}

} // verus!
