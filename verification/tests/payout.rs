use billing::ids::{InvoiceId, OrderId, PayoutId, StoreId, UserId};
use billing::money::{Amount, Currency, TureCurrency};
use billing::order::{PaymentState, RawOrder};
use billing::payout::{
    build_payout, order_ids_without, require_payout_user, payout_amounts, payout_excluding_fees, validate_orders_for_payout,
    validate_payout_request, OrderForPayout, PayoutAccess, PayoutStatus, PayoutTarget,
};
use billing::service_error::ErrorKind;
use billing::time::Timestamp;
use billing::validation::ValidationIssue;
use billing::wallet::WalletAddress;

fn order(id: u128, currency: Currency, total: u128, state: PaymentState) -> RawOrder {
    RawOrder {
        id: OrderId(id),
        seller_currency: currency,
        total_amount: Amount(total),
        cashback_amount: Amount(0),
        invoice_id: InvoiceId(1),
        store_id: StoreId(2),
        state,
    }
}

fn issues(kind: ErrorKind) -> Vec<ValidationIssue> {
    match kind {
        ErrorKind::Validation(v) => v,
        other => panic!("unexpected {:?}", other),
    }
}

#[test]
fn ids_without_keeps_order() {
    let ids = vec![OrderId(1), OrderId(2), OrderId(3), OrderId(4)];
    assert_eq!(order_ids_without(&ids, &[OrderId(3), OrderId(1)]), vec![OrderId(2), OrderId(4)]);
    assert!(order_ids_without(&ids, &ids).is_empty());
}

#[test]
fn orders_for_payout_must_be_waiting_and_crypto() {
    let ok = validate_orders_for_payout(vec![
        order(1, Currency::Stq, 10, PaymentState::PaymentToSellerNeeded),
        order(2, Currency::Stq, 5, PaymentState::PaymentToSellerNeeded),
    ])
    .unwrap();
    assert_eq!(ok.currency, TureCurrency::Stq);
    assert_eq!(ok.orders, vec![OrderForPayout { order_id: OrderId(1), total_amount: Amount(10) }, OrderForPayout {
        order_id: OrderId(2),
        total_amount: Amount(5)
    }]);
    let empty = issues(validate_orders_for_payout(vec![]).unwrap_err().kind);
    assert!(matches!(empty[0], ValidationIssue::EmptyOrderList));
    let wrong_state = issues(validate_orders_for_payout(vec![order(1, Currency::Stq, 10, PaymentState::Captured)]).unwrap_err().kind);
    assert!(matches!(wrong_state[0], ValidationIssue::WrongOrderState { state: PaymentState::Captured, .. }));
    let mixed = issues(
        validate_orders_for_payout(vec![
            order(1, Currency::Stq, 10, PaymentState::PaymentToSellerNeeded),
            order(2, Currency::Eth, 5, PaymentState::PaymentToSellerNeeded),
        ])
        .unwrap_err()
        .kind,
    );
    assert!(matches!(mixed[0], ValidationIssue::DifferentCurrencies));
    let fiat = issues(validate_orders_for_payout(vec![order(1, Currency::Eur, 10, PaymentState::PaymentToSellerNeeded)]).unwrap_err().kind);
    assert!(matches!(fiat[0], ValidationIssue::FiatNotSupported { .. }));
}

#[test]
fn payout_request_checks() {
    let ids = vec![OrderId(1), OrderId(2)];
    let found = vec![order(1, Currency::Stq, 10, PaymentState::PaymentToSellerNeeded)];
    let missing = issues(validate_payout_request(&ids, found, TureCurrency::Stq).unwrap_err().kind);
    match &missing[0] {
        ValidationIssue::MissingOrders { order_ids } => assert_eq!(order_ids, &vec![OrderId(2)]),
        other => panic!("unexpected {:?}", other),
    }
    let both = vec![
        order(1, Currency::Stq, 10, PaymentState::PaymentToSellerNeeded),
        order(2, Currency::Stq, 5, PaymentState::PaymentToSellerNeeded),
    ];
    let mismatch = issues(validate_payout_request(&ids, both.clone(), TureCurrency::Btc).unwrap_err().kind);
    assert!(matches!(mismatch[0], ValidationIssue::CurrencyMismatch { orders_currency: TureCurrency::Stq, wallet_currency: TureCurrency::Btc }));
    assert_eq!(validate_payout_request(&ids, both, TureCurrency::Stq).unwrap().orders.len(), 2);
}

#[test]
fn payout_amounts_take_the_fee_off() {
    let ids = vec![OrderId(1), OrderId(2)];
    let lines = vec![OrderForPayout { order_id: OrderId(1), total_amount: Amount(10) }, OrderForPayout {
        order_id: OrderId(2),
        total_amount: Amount(5),
    }];
    assert_eq!(payout_amounts(&ids, &lines, vec![], Amount(3)).unwrap(), (Amount(15), Amount(12)));
    assert_eq!(payout_amounts(&ids, &lines, vec![], Amount(15)).unwrap(), (Amount(15), Amount(0)));
    let small = issues(payout_amounts(&ids, &lines, vec![], Amount(16)).unwrap_err().kind);
    assert!(matches!(small[0], ValidationIssue::PayoutLessThanFee { .. }));
    let exists = issues(payout_amounts(&ids, &lines, vec![OrderId(2)], Amount(1)).unwrap_err().kind);
    match &exists[0] {
        ValidationIssue::PayoutsExist { order_ids } => assert_eq!(order_ids, &vec![OrderId(2)]),
        other => panic!("unexpected {:?}", other),
    }
    let huge = vec![OrderForPayout { order_id: OrderId(1), total_amount: Amount(u128::MAX) }, OrderForPayout {
        order_id: OrderId(2),
        total_amount: Amount(1),
    }];
    assert!(matches!(payout_amounts(&ids, &huge, vec![], Amount(0)).unwrap_err().kind, ErrorKind::Internal));
}

#[test]
fn a_new_payout_is_processing() {
    let now = Timestamp::from_nanos(1_000);
    let p = build_payout(
        PayoutId(7),
        vec![OrderId(1)],
        TureCurrency::Stq,
        WalletAddress("0xw".to_string()),
        Amount(3),
        Amount(15),
        Amount(12),
        UserId(4),
        now,
    );
    assert_eq!(p.status, PayoutStatus::Processing { initiated_at: now });
    assert_eq!(p.gross_amount, Amount(15));
    assert_eq!(p.net_amount, Amount(12));
    let PayoutTarget::CryptoWallet(t) = &p.target;
    assert_eq!(t.blockchain_fee, Amount(3));
    assert_eq!(t.wallet_address.0, "0xw");
    assert_eq!(PayoutAccess::from_payout(&p).user_id, UserId(4));
    assert_ne!(PayoutId::generate(), PayoutId::generate());
    let id = PayoutId::generate().0;
    assert_eq!((id >> 76) & 0xf, 4);
    assert_eq!((id >> 62) & 0x3, 2);
}

#[test]
fn payout_excluding_fees_sums_orders_without_payout() {
    let orders = vec![
        order(1, Currency::Stq, 10, PaymentState::PaymentToSellerNeeded),
        order(2, Currency::Stq, 5, PaymentState::PaymentToSellerNeeded),
        order(3, Currency::Stq, 7, PaymentState::PaymentToSellerNeeded),
    ];
    let p = payout_excluding_fees(&orders, &[OrderId(3), OrderId(1)], TureCurrency::Stq).unwrap();
    assert_eq!(p.order_ids, vec![OrderId(1), OrderId(3)]);
    assert_eq!(p.gross_amount, Amount(17));
    let huge = vec![order(1, Currency::Stq, u128::MAX, PaymentState::PaymentToSellerNeeded), order(2, Currency::Stq, 1, PaymentState::PaymentToSellerNeeded)];
    assert!(payout_excluding_fees(&huge, &[OrderId(1), OrderId(2)], TureCurrency::Stq).is_err());
}

#[test]
fn a_payout_needs_a_user() {
    assert_eq!(require_payout_user(Some(UserId(3))).unwrap(), UserId(3));
    let e = require_payout_user(None).unwrap_err();
    assert!(matches!(e.kind, ErrorKind::Forbidden));
    assert!(e.context.is_none());
}
