//! Paying sellers out for their orders.

use vstd::prelude::*;
use crate::ids::{OrderId, PayoutId, UserId};
use crate::money::{Amount, TureCurrency};
use crate::order::{OrderPaymentKind, PaymentState, RawOrder};
use crate::service_error::{Error as ServiceError, ErrorKind, is_internal_error, is_validation_error};
use crate::time::Timestamp;
use crate::validation::ValidationIssue;
use crate::wallet::{WalletAddress, is_v4_uuid, random_uuid_bits};

verus! {

/// An order that is paid out, with the amount it brings.
#[derive(Clone, Copy, Debug, PartialEq, Eq, Structural)]
pub struct OrderForPayout {
    pub order_id: OrderId,
    pub total_amount: Amount,
}

/// Orders that may be paid out together, in their common currency.
#[derive(Clone, Debug)]
pub struct OrdersForPayout {
    pub currency: TureCurrency,
    pub orders: Vec<OrderForPayout>,
}

/// The orders of a payout and their total, before fees.
#[derive(Clone, Debug)]
pub struct CalculatedPayoutExcludingFees {
    pub order_ids: Vec<OrderId>,
    pub currency: TureCurrency,
    pub gross_amount: Amount,
}

/// Where a payout goes: a blockchain wallet.
#[derive(Clone, Debug)]
pub struct CryptoWalletPayoutTarget {
    pub currency: TureCurrency,
    pub wallet_address: WalletAddress,
    pub blockchain_fee: Amount,
}

/// Where a payout goes.
#[derive(Clone, Debug)]
pub enum PayoutTarget {
    CryptoWallet(CryptoWalletPayoutTarget),
}

/// Where a payout stands.
#[derive(Clone, Copy, Debug, PartialEq, Eq, Structural)]
pub enum PayoutStatus {
    Processing { initiated_at: Timestamp },
    Completed { initiated_at: Timestamp, completed_at: Timestamp },
}

/// A payout of orders to their seller.
#[derive(Clone, Debug)]
pub struct Payout {
    pub id: PayoutId,
    pub gross_amount: Amount,
    pub net_amount: Amount,
    pub target: PayoutTarget,
    pub user_id: UserId,
    pub status: PayoutStatus,
    pub order_ids: Vec<OrderId>,
}

/// What access to a payout is checked against: its recipient.
#[derive(Clone, Copy, Debug, PartialEq, Eq, Structural)]
pub struct PayoutAccess {
    pub user_id: UserId,
}

impl PayoutAccess {
    pub fn from_payout(payout: &Payout) -> (a: PayoutAccess)
        ensures
            a.user_id == payout.user_id,
    {
        PayoutAccess { user_id: payout.user_id }
    }
}

impl PayoutId {
    /// A fresh random payout identifier.
    pub fn generate() -> (id: PayoutId)
        ensures
            is_v4_uuid(id.0),
    {
        PayoutId(random_uuid_bits())
    }
}

/// Checks that a payout is asked for by a user; without one it is
/// forbidden.
pub fn require_payout_user(user_id: Option<UserId>) -> (r: Result<UserId, ServiceError>)
    ensures
        match user_id {
            Some(u) => r == Ok::<UserId, ServiceError>(u),
            None => (r matches Err(e) && e.kind is Forbidden && e.context is None),
        },
{
    match user_id {
        Some(u) => Ok(u),
        None => Err(ServiceError { kind: ErrorKind::Forbidden, context: None }),
    }
}

/// The identifiers of `ids` that `present` does not hold, in their order.
pub open spec fn ids_without(ids: Seq<OrderId>, present: Seq<OrderId>) -> Seq<OrderId>
    decreases ids.len(),
{
    if ids.len() == 0 {
        seq![]
    } else {
        let rest = ids_without(ids.drop_last(), present);
        if present.contains(ids.last()) {
            rest
        } else {
            rest.push(ids.last())
        }
    }
}

/// The identifiers of some orders.
pub open spec fn order_ids_of(orders: Seq<RawOrder>) -> Seq<OrderId> {
    orders.map_values(|o: RawOrder| o.id)
}

fn contains_order_id(ids: &[OrderId], id: OrderId) -> (r: bool)
    ensures
        r == ids@.contains(id),
{
    let mut i: usize = 0;
    while i < ids.len()
        invariant
            i <= ids@.len(),
            forall|j: int| 0 <= j < i ==> ids@[j] != id,
        decreases ids@.len() - i,
    {
        if ids[i] == id {
            assert(ids@[i as int] == id);
            return true;
        }
        i = i + 1;
    }
    false
}

/// The identifiers of `ids` that `present` does not hold, in their order.
pub fn order_ids_without(ids: &[OrderId], present: &[OrderId]) -> (r: Vec<OrderId>)
    ensures
        r@ == ids_without(ids@, present@),
{
    let mut r: Vec<OrderId> = Vec::new();
    let mut i: usize = 0;
    while i < ids.len()
        invariant
            i <= ids@.len(),
            r@ == ids_without(ids@.take(i as int), present@),
        decreases ids@.len() - i,
    {
        let id = ids[i];
        assert(ids@.take(i + 1).drop_last() =~= ids@.take(i as int));
        if !contains_order_id(present, id) {
            r.push(id);
        }
        i = i + 1;
    }
    assert(ids@.take(ids@.len() as int) =~= ids@);
    r
}

fn ids_of_orders(orders: &[RawOrder]) -> (r: Vec<OrderId>)
    ensures
        r@ == order_ids_of(orders@),
{
    let mut r: Vec<OrderId> = Vec::new();
    let mut i: usize = 0;
    while i < orders.len()
        invariant
            i <= orders@.len(),
            r@ == order_ids_of(orders@.take(i as int)),
        decreases orders@.len() - i,
    {
        r.push(orders[i].id);
        i = i + 1;
        assert(r@ =~= order_ids_of(orders@.take(i as int)));
    }
    assert(orders@.take(orders@.len() as int) =~= orders@);
    r
}

/// The issues of orders that are not waiting for a payment to their seller.
pub open spec fn wrong_state_issues(orders: Seq<RawOrder>) -> Seq<ValidationIssue>
    decreases orders.len(),
{
    if orders.len() == 0 {
        seq![]
    } else {
        let rest = wrong_state_issues(orders.drop_last());
        let o = orders.last();
        if o.state != PaymentState::PaymentToSellerNeeded {
            rest.push(ValidationIssue::WrongOrderState { order_id: o.id, state: o.state })
        } else {
            rest
        }
    }
}

/// Every order that does not wait for a payment to its seller is named in
/// the issues, and where every order waits there is none.
proof fn lemma_wrong_state_issues(orders: Seq<RawOrder>)
    ensures
        forall|i: int|
            0 <= i < orders.len() && (#[trigger] orders[i]).state != PaymentState::PaymentToSellerNeeded
                ==> wrong_state_issues(orders).contains(
                ValidationIssue::WrongOrderState { order_id: orders[i].id, state: orders[i].state },
            ),
        (forall|i: int| 0 <= i < orders.len() ==> (#[trigger] orders[i]).state == PaymentState::PaymentToSellerNeeded)
            ==> wrong_state_issues(orders).len() == 0,
        wrong_state_issues(orders).len() == 0 ==> forall|i: int|
            0 <= i < orders.len() ==> (#[trigger] orders[i]).state == PaymentState::PaymentToSellerNeeded,
    decreases orders.len(),
{
    if orders.len() > 0 {
        let p = orders.drop_last();
        lemma_wrong_state_issues(p);
        let rest = wrong_state_issues(p);
        let all = wrong_state_issues(orders);
        assert forall|i: int|
            0 <= i < orders.len() && (#[trigger] orders[i]).state != PaymentState::PaymentToSellerNeeded implies all.contains(
            ValidationIssue::WrongOrderState { order_id: orders[i].id, state: orders[i].state },
        ) by {
            if i < p.len() {
                assert(orders[i] == p[i]);
                let issue = ValidationIssue::WrongOrderState { order_id: p[i].id, state: p[i].state };
                let k = choose|k: int| 0 <= k < rest.len() && rest[k] == issue;
                assert(all[k] == issue);
            } else {
                assert(all[all.len() - 1] == ValidationIssue::WrongOrderState {
                    order_id: orders[i].id,
                    state: orders[i].state,
                });
            }
        }
        if forall|i: int| 0 <= i < orders.len() ==> (#[trigger] orders[i]).state == PaymentState::PaymentToSellerNeeded {
            assert forall|i: int| 0 <= i < p.len() implies (#[trigger] p[i]).state
                == PaymentState::PaymentToSellerNeeded by {
                assert(p[i] == orders[i]);
            }
            assert(orders[orders.len() - 1].state == PaymentState::PaymentToSellerNeeded);
        }
        if all.len() == 0 {
            assert(orders.last().state == PaymentState::PaymentToSellerNeeded);
            assert forall|i: int| 0 <= i < orders.len() implies (#[trigger] orders[i]).state
                == PaymentState::PaymentToSellerNeeded by {
                if i < p.len() {
                    assert(orders[i] == p[i]);
                }
            }
        }
    }
}

/// Only orders that wait for a payment to their seller are paid out:
/// orders pass the payout check exactly when there is at least one, every
/// one waits for a payment to its seller and is in the one crypto currency
/// the check gives; and each order that does not wait is named in the
/// refusal with its state.
pub proof fn payout_only_of_orders_awaiting_payment(orders: Seq<RawOrder>)
    ensures
        payout_orders_check(orders) matches Ok(currency) ==> {
            &&& orders.len() > 0
            &&& forall|i: int|
                0 <= i < orders.len() ==> (#[trigger] orders[i]).state == PaymentState::PaymentToSellerNeeded
                    && orders[i].seller_currency == currency.as_currency()
        },
        forall|i: int|
            0 <= i < orders.len() && (#[trigger] orders[i]).state != PaymentState::PaymentToSellerNeeded
                ==> (payout_orders_check(orders) matches Err(issues) && issues.contains(
                ValidationIssue::WrongOrderState { order_id: orders[i].id, state: orders[i].state },
            )),
{
    lemma_wrong_state_issues(orders);
    if orders.len() > 0 {
        let issues = wrong_state_issues(orders) + currency_issues(orders);
        assert forall|i: int|
            0 <= i < orders.len() && (#[trigger] orders[i]).state != PaymentState::PaymentToSellerNeeded implies (
        payout_orders_check(orders) matches Err(all) && all.contains(
            ValidationIssue::WrongOrderState { order_id: orders[i].id, state: orders[i].state },
        )) by {
            let issue = ValidationIssue::WrongOrderState { order_id: orders[i].id, state: orders[i].state };
            let k = choose|k: int| 0 <= k < wrong_state_issues(orders).len() && wrong_state_issues(orders)[k] == issue;
            assert(issues[k] == issue);
            assert(issues.push(ValidationIssue::DifferentCurrencies).len() > 0);
            match orders[0].payment_kind_spec() {
                OrderPaymentKind::Fiat { currency } => {
                    assert(issues.push(ValidationIssue::FiatNotSupported { currency })[k] == issue);
                },
                OrderPaymentKind::Crypto { currency } => {},
            }
        }
        if payout_orders_check(orders) is Ok {
            assert(wrong_state_issues(orders).len() == 0);
            assert(currency_issues(orders).len() == 0);
            assert forall|i: int| 0 <= i < orders.len() implies (#[trigger] orders[i]).seller_currency
                == orders[0].seller_currency by {}
        }
    }
}

/// The issue of orders that are not all in the currency of the first.
pub open spec fn currency_issues(orders: Seq<RawOrder>) -> Seq<ValidationIssue> {
    if exists|i: int| 0 <= i < orders.len() && (#[trigger] orders[i]).seller_currency != orders[0].seller_currency {
        seq![ValidationIssue::DifferentCurrencies]
    } else {
        seq![]
    }
}

/// The amounts that orders bring to a payout.
pub open spec fn payout_lines(orders: Seq<RawOrder>) -> Seq<OrderForPayout> {
    orders.map_values(|o: RawOrder| OrderForPayout { order_id: o.id, total_amount: o.total_amount })
}

/// What checking orders for a payout gives: the issues found, or the
/// common crypto currency of the orders.
pub open spec fn payout_orders_check(orders: Seq<RawOrder>) -> Result<TureCurrency, Seq<ValidationIssue>> {
    if orders.len() == 0 {
        Err(seq![ValidationIssue::EmptyOrderList])
    } else {
        let issues = wrong_state_issues(orders) + currency_issues(orders);
        match orders[0].payment_kind_spec() {
            OrderPaymentKind::Fiat { currency } => Err(
                issues.push(ValidationIssue::FiatNotSupported { currency }),
            ),
            OrderPaymentKind::Crypto { currency } => if issues.len() == 0 {
                Ok(currency)
            } else {
                Err(issues)
            },
        }
    }
}

/// Checks that orders may be paid out together: there is at least one, all
/// wait for a payment to their seller, all are in the same currency, and
/// that currency is a crypto currency.
pub fn validate_orders_for_payout(orders: Vec<RawOrder>) -> (r: Result<OrdersForPayout, ServiceError>)
    ensures
        match payout_orders_check(orders@) {
            Ok(currency) => r matches Ok(p) && p.currency == currency && p.orders@ == payout_lines(orders@),
            Err(issues) => r matches Err(e) && is_validation_error(e, issues, None),
        },
{
    if orders.len() == 0 {
        return Err(ServiceError::validation(ValidationIssue::EmptyOrderList, None));
    }
    let first = orders[0];
    let mut issues: Vec<ValidationIssue> = Vec::new();
    let mut i: usize = 0;
    while i < orders.len()
        invariant
            i <= orders@.len(),
            issues@ == wrong_state_issues(orders@.take(i as int)),
        decreases orders@.len() - i,
    {
        let o = orders[i];
        assert(orders@.take(i + 1).drop_last() =~= orders@.take(i as int));
        if o.state != PaymentState::PaymentToSellerNeeded {
            issues.push(ValidationIssue::WrongOrderState { order_id: o.id, state: o.state });
        }
        i = i + 1;
    }
    assert(orders@.take(orders@.len() as int) =~= orders@);
    let mut differ = false;
    let mut k: usize = 0;
    while k < orders.len()
        invariant
            k <= orders@.len(),
            first == orders@[0],
            differ <==> exists|j: int| 0 <= j < k && (#[trigger] orders@[j]).seller_currency != first.seller_currency,
        decreases orders@.len() - k,
    {
        if orders[k].seller_currency != first.seller_currency {
            differ = true;
        }
        k = k + 1;
    }
    if differ {
        issues.push(ValidationIssue::DifferentCurrencies);
    }
    assert(issues@ =~= wrong_state_issues(orders@) + currency_issues(orders@));
    match first.payment_kind() {
        OrderPaymentKind::Fiat { currency } => {
            issues.push(ValidationIssue::FiatNotSupported { currency });
            Err(ServiceError { kind: ErrorKind::Validation(issues), context: None })
        },
        OrderPaymentKind::Crypto { currency } => {
            if issues.len() != 0 {
                return Err(ServiceError { kind: ErrorKind::Validation(issues), context: None });
            }
            let mut lines: Vec<OrderForPayout> = Vec::new();
            let mut m: usize = 0;
            while m < orders.len()
                invariant
                    m <= orders@.len(),
                    lines@ == payout_lines(orders@.take(m as int)),
                decreases orders@.len() - m,
            {
                lines.push(OrderForPayout { order_id: orders[m].id, total_amount: orders[m].total_amount });
                m = m + 1;
                assert(lines@ =~= payout_lines(orders@.take(m as int)));
            }
            assert(orders@.take(orders@.len() as int) =~= orders@);
            Ok(OrdersForPayout { currency, orders: lines })
        },
    }
}

/// The total of the amounts that orders bring to a payout.
pub open spec fn lines_total(lines: Seq<OrderForPayout>) -> int
    decreases lines.len(),
{
    if lines.len() == 0 {
        0
    } else {
        lines_total(lines.drop_last()) + lines.last().total_amount.0
    }
}

/// `r` refuses the request for the one issue `issue`, with no context.
pub open spec fn refused_for<T>(r: Result<T, ServiceError>, issue: ValidationIssue) -> bool {
    r matches Err(e) && is_validation_error(e, seq![issue], None)
}

/// Checks a request to pay out the orders `order_ids` into a wallet in
/// `wallet_currency`, given the stored orders that were found for it:
/// every order must have been found, the orders must pass
/// `validate_orders_for_payout`, and their currency must be the wallet's.
pub fn validate_payout_request(
    order_ids: &[OrderId],
    orders: Vec<RawOrder>,
    wallet_currency: TureCurrency,
) -> (r: Result<OrdersForPayout, ServiceError>)
    ensures
        orders@.len() != order_ids@.len() ==> (r matches Err(e) && {
            &&& e.context is None
            &&& e.kind matches ErrorKind::Validation(v)
            &&& v@.len() == 1
            &&& v@[0] matches ValidationIssue::MissingOrders { order_ids: m }
            &&& m@ == ids_without(order_ids@, order_ids_of(orders@))
        }),
        orders@.len() == order_ids@.len() ==> match payout_orders_check(orders@) {
            Err(issues) => r matches Err(e) && is_validation_error(e, issues, None),
            Ok(currency) => if currency != wallet_currency {
                refused_for(
                    r,
                    ValidationIssue::CurrencyMismatch { orders_currency: currency, wallet_currency },
                )
            } else {
                r matches Ok(p) && p.currency == currency && p.orders@ == payout_lines(orders@)
            },
        },
{
    if orders.len() != order_ids.len() {
        let present = ids_of_orders(orders.as_slice());
        let missing = order_ids_without(order_ids, present.as_slice());
        return Err(ServiceError::validation(ValidationIssue::MissingOrders { order_ids: missing }, None));
    }
    let checked = validate_orders_for_payout(orders)?;
    if checked.currency != wallet_currency {
        return Err(
            ServiceError::validation(
                ValidationIssue::CurrencyMismatch { orders_currency: checked.currency, wallet_currency },
                None,
            ),
        );
    }
    Ok(checked)
}

/// The gross and net amounts of a payout of `lines` (the orders `order_ids`)
/// that costs `blockchain_fee`, given the orders among them that already
/// have a payout (`paid_out`): none may have one, the total must fit an
/// amount, and it must cover the fee.
pub fn payout_amounts(
    order_ids: &[OrderId],
    lines: &[OrderForPayout],
    paid_out: Vec<OrderId>,
    blockchain_fee: Amount,
) -> (r: Result<(Amount, Amount), ServiceError>)
    ensures
        paid_out@.len() > 0 ==> (r matches Err(e) && {
            &&& e.context is None
            &&& e.kind matches ErrorKind::Validation(v)
            &&& v@.len() == 1
            &&& v@[0] matches ValidationIssue::PayoutsExist { order_ids: p }
            &&& p@ == paid_out@
        }),
        paid_out@.len() == 0 && lines_total(lines@) > u128::MAX ==> (r matches Err(e)
            && is_internal_error(e, None)),
        paid_out@.len() == 0 && lines_total(lines@) <= u128::MAX && lines_total(lines@)
            < blockchain_fee.0 ==> (r matches Err(e) && {
            &&& e.context is None
            &&& e.kind matches ErrorKind::Validation(v)
            &&& v@.len() == 1
            &&& v@[0] matches ValidationIssue::PayoutLessThanFee { order_ids: p }
            &&& p@ == order_ids@
        }),
        paid_out@.len() == 0 && blockchain_fee.0 <= lines_total(lines@) <= u128::MAX ==> (r matches Ok(
            (gross, net),
        ) && gross.0 == lines_total(lines@) && net.0 == gross.0 - blockchain_fee.0),
{
    if paid_out.len() != 0 {
        return Err(ServiceError::validation(ValidationIssue::PayoutsExist { order_ids: paid_out }, None));
    }
    let mut gross = Amount::new(0);
    let mut i: usize = 0;
    while i < lines.len()
        invariant
            i <= lines@.len(),
            paid_out@.len() == 0,
            gross.0 == lines_total(lines@.take(i as int)),
        decreases lines@.len() - i,
    {
        assert(lines@.take(i + 1).drop_last() =~= lines@.take(i as int));
        match gross.checked_add(lines[i].total_amount) {
            Some(g) => {
                gross = g;
            },
            None => {
                proof {
                    lemma_lines_total_prefix(lines@, i + 1);
                }
                return Err(ServiceError::internal());
            },
        }
        i = i + 1;
    }
    assert(lines@.take(lines@.len() as int) =~= lines@);
    match gross.checked_sub(blockchain_fee) {
        Some(net) => Ok((gross, net)),
        None => {
            let mut ids: Vec<OrderId> = Vec::new();
            let mut k: usize = 0;
            while k < order_ids.len()
                invariant
                    k <= order_ids@.len(),
                    ids@ == order_ids@.take(k as int),
                decreases order_ids@.len() - k,
            {
                ids.push(order_ids[k]);
                k = k + 1;
                assert(ids@ =~= order_ids@.take(k as int));
            }
            assert(order_ids@.take(order_ids@.len() as int) =~= order_ids@);
            Err(ServiceError::validation(ValidationIssue::PayoutLessThanFee { order_ids: ids }, None))
        },
    }
}

/// The total of a prefix of the lines is no more than the total of all.
proof fn lemma_lines_total_prefix(lines: Seq<OrderForPayout>, n: int)
    requires
        0 <= n <= lines.len(),
    ensures
        lines_total(lines.take(n)) <= lines_total(lines),
    decreases lines.len() - n,
{
    if n < lines.len() {
        lemma_lines_total_prefix(lines, n + 1);
        assert(lines.take(n + 1).drop_last() =~= lines.take(n));
    } else {
        assert(lines.take(n) =~= lines);
    }
}

/// What a payout pays: its net amount and the blockchain fee make up its
/// gross amount, which is the total of its orders.
pub proof fn payout_amounts_add_up(lines: Seq<OrderForPayout>, gross: Amount, net: Amount, fee: Amount)
    requires
        gross.0 == lines_total(lines),
        net.0 == gross.0 - fee.0,
    ensures
        net.0 + fee.0 == lines_total(lines),
        net.0 <= gross.0,
{
}

/// A new payout of the orders `order_ids` to the wallet of the user
/// `user_id`, with the amounts from `payout_amounts`, initiated at `now`.
pub fn build_payout(
    id: PayoutId,
    order_ids: Vec<OrderId>,
    currency: TureCurrency,
    wallet_address: WalletAddress,
    blockchain_fee: Amount,
    gross_amount: Amount,
    net_amount: Amount,
    user_id: UserId,
    now: Timestamp,
) -> (p: Payout)
    ensures
        p.id == id,
        p.order_ids@ == order_ids@,
        p.gross_amount == gross_amount,
        p.net_amount == net_amount,
        p.user_id == user_id,
        p.status == (PayoutStatus::Processing { initiated_at: now }),
        p.target matches PayoutTarget::CryptoWallet(t) && (t.currency == currency
            && t.wallet_address.0@ == wallet_address.0@ && t.blockchain_fee == blockchain_fee),
{
    Payout {
        id,
        gross_amount,
        net_amount,
        target: PayoutTarget::CryptoWallet(CryptoWalletPayoutTarget { currency, wallet_address, blockchain_fee }),
        user_id,
        status: PayoutStatus::Processing { initiated_at: now },
        order_ids,
    }
}

/// The orders of `orders` whose identifiers `without_payout` holds.
pub open spec fn orders_selected(orders: Seq<RawOrder>, without_payout: Seq<OrderId>) -> Seq<RawOrder>
    decreases orders.len(),
{
    if orders.len() == 0 {
        seq![]
    } else {
        let rest = orders_selected(orders.drop_last(), without_payout);
        if without_payout.contains(orders.last().id) {
            rest.push(orders.last())
        } else {
            rest
        }
    }
}

/// The payout that the orders of `orders_for_payout` without a payout yet
/// (`without_payout`) would make, before fees: their identifiers and total.
pub fn payout_excluding_fees(
    orders_for_payout: &[RawOrder],
    without_payout: &[OrderId],
    currency: TureCurrency,
) -> (r: Result<CalculatedPayoutExcludingFees, ServiceError>)
    ensures
        lines_total(payout_lines(orders_selected(orders_for_payout@, without_payout@)))
            > u128::MAX ==> (r matches Err(e) && is_internal_error(e, None)),
        lines_total(payout_lines(orders_selected(orders_for_payout@, without_payout@)))
            <= u128::MAX ==> (r matches Ok(p) && p.currency == currency && p.order_ids@ == order_ids_of(
            orders_selected(orders_for_payout@, without_payout@),
        ) && p.gross_amount.0 == lines_total(
            payout_lines(orders_selected(orders_for_payout@, without_payout@)),
        )),
{
    let ghost all = orders_for_payout@;
    let mut order_ids: Vec<OrderId> = Vec::new();
    let mut gross = Amount::new(0);
    let mut i: usize = 0;
    while i < orders_for_payout.len()
        invariant
            i <= all.len(),
            all == orders_for_payout@,
            order_ids@ == order_ids_of(orders_selected(all.take(i as int), without_payout@)),
            gross.0 == lines_total(payout_lines(orders_selected(all.take(i as int), without_payout@))),
        decreases all.len() - i,
    {
        let o = orders_for_payout[i];
        assert(all.take(i + 1).drop_last() =~= all.take(i as int));
        let ghost before = orders_selected(all.take(i as int), without_payout@);
        if contains_order_id(without_payout, o.id) {
            assert(payout_lines(before.push(o)).drop_last() =~= payout_lines(before));
            match gross.checked_add(o.total_amount) {
                Some(g) => {
                    gross = g;
                },
                None => {
                    proof {
                        lemma_selected_total_prefix(all, without_payout@, i + 1);
                    }
                    return Err(ServiceError::internal());
                },
            }
            order_ids.push(o.id);
            assert(order_ids@ =~= order_ids_of(before.push(o)));
        }
        i = i + 1;
    }
    assert(all.take(all.len() as int) =~= all);
    Ok(CalculatedPayoutExcludingFees { order_ids, currency, gross_amount: gross })
}

proof fn lemma_selected_total_prefix(orders: Seq<RawOrder>, without_payout: Seq<OrderId>, n: int)
    requires
        0 <= n <= orders.len(),
    ensures
        lines_total(payout_lines(orders_selected(orders.take(n), without_payout))) <= lines_total(
            payout_lines(orders_selected(orders, without_payout)),
        ),
    decreases orders.len() - n,
{
    if n < orders.len() {
        lemma_selected_total_prefix(orders, without_payout, n + 1);
        assert(orders.take(n + 1).drop_last() =~= orders.take(n));
        let before = orders_selected(orders.take(n), without_payout);
        let o = orders.take(n + 1).last();
        if without_payout.contains(o.id) {
            assert(payout_lines(before.push(o)).drop_last() =~= payout_lines(before));
        }
    } else {
        assert(orders.take(n) =~= orders);
    }
}

} // verus!
