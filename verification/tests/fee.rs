use billing::customer::{CustomerId, DbCustomer};
use billing::fee::{
    create_charge_metadata, create_fee, extract_currency, fee_charge, fee_charge_update, fee_customer, fee_paid_update,
    fee_store, total_amount, validate_charge_fees, validate_payment_intent_create_fee, ChargeMetadata, Fee, FeeStatus,
    SearchFeeParams,
};
use billing::fee::fee_store_owner;
use billing::ids::{FeeId, InvoiceId, OrderId, StoreId, UserId};
use billing::roles::{BillingRole, RoleId, UserRole};
use billing::money::{Amount, Currency};
use billing::order::{PaymentState, RawOrder};
use billing::service_error::{ErrorContext, ErrorKind};
use billing::subscription::ChargeId;
use billing::validation::ValidationIssue;

fn fee(id: i32, amount: u128, status: FeeStatus, currency: Currency) -> Fee {
    Fee {
        id: FeeId(id),
        order_id: OrderId(id as u128 + 100),
        amount: Amount(amount),
        status,
        currency,
        charge_id: None,
        crypto_currency: None,
        crypto_amount: None,
    }
}

fn order(total: u128, store: i32) -> RawOrder {
    RawOrder {
        id: OrderId(1),
        seller_currency: Currency::Eur,
        total_amount: Amount(total),
        cashback_amount: Amount(0),
        invoice_id: InvoiceId(1),
        store_id: StoreId(store),
        state: PaymentState::Initial,
    }
}

fn validation(kind: ErrorKind) -> Vec<ValidationIssue> {
    match kind {
        ErrorKind::Validation(v) => v,
        other => panic!("unexpected {:?}", other),
    }
}

#[test]
fn fee_is_a_percentage_of_whole_hundreds() {
    let f = create_fee(5, &order(12_345, 1)).unwrap();
    assert_eq!(f.amount, Amount(615));
    // A fee never exceeds its percentage of the order's total.
    assert!(f.amount.0 * 100 <= 12_345 * 5);
    assert_eq!(f.status, FeeStatus::NotPaid);
    assert_eq!(f.order_id, OrderId(1));
    assert_eq!(create_fee(5, &order(99, 1)).unwrap().amount, Amount(0));
    let e = create_fee(u64::MAX, &order(u128::MAX, 1)).unwrap_err();
    assert!(matches!(e.kind, ErrorKind::Internal));
    assert_eq!(e.context, Some(ErrorContext::AmountConversion));
}

#[test]
fn paid_fees_are_not_charged_again() {
    assert!(validate_charge_fees(&[fee(1, 10, FeeStatus::NotPaid, Currency::Eur)]).is_ok());
    let e = validate_charge_fees(&[
        fee(1, 10, FeeStatus::NotPaid, Currency::Eur),
        fee(2, 10, FeeStatus::Paid, Currency::Eur),
        fee(3, 10, FeeStatus::Paid, Currency::Eur),
    ])
    .unwrap_err();
    assert!(matches!(validation(e.kind)[0], ValidationIssue::WrongFeeStatus { fee_id: FeeId(2) }));
}

#[test]
fn fees_are_charged_together_in_one_currency() {
    let fees = vec![fee(1, 10, FeeStatus::NotPaid, Currency::Eur), fee(2, 15, FeeStatus::NotPaid, Currency::Eur)];
    assert_eq!(total_amount(&fees).unwrap(), Amount(25));
    assert_eq!(extract_currency(&fees).unwrap(), Currency::Eur);
    let customer = DbCustomer { id: CustomerId("cus_1".to_string()), user_id: UserId(1), email: None };
    let charge = fee_charge(&customer, &fees).unwrap();
    assert_eq!(charge.amount, Amount(25));
    assert_eq!(charge.customer_id.0, "cus_1");
    assert!(charge.capture);
    let mixed = vec![fee(1, 10, FeeStatus::NotPaid, Currency::Eur), fee(2, 15, FeeStatus::NotPaid, Currency::Usd)];
    assert!(matches!(validation(extract_currency(&mixed).unwrap_err().kind)[0], ValidationIssue::FeeCurrenciesDiffer));
    assert!(extract_currency(&[]).is_err());
    let huge = vec![fee(1, u128::MAX, FeeStatus::NotPaid, Currency::Eur), fee(2, 1, FeeStatus::NotPaid, Currency::Eur)];
    assert!(matches!(total_amount(&huge).unwrap_err().kind, ErrorKind::Internal));
    assert!(matches!(validation(fee_customer(None).unwrap_err().kind)[0], ValidationIssue::PaymentCardMissing));
}

#[test]
fn charge_metadata_names_a_single_fee() {
    assert_eq!(
        create_charge_metadata(&[fee(1, 10, FeeStatus::NotPaid, Currency::Eur)]),
        Some(ChargeMetadata { order_id: OrderId(101), fee_id: FeeId(1) })
    );
    assert_eq!(
        create_charge_metadata(&[fee(1, 10, FeeStatus::NotPaid, Currency::Eur), fee(2, 10, FeeStatus::NotPaid, Currency::Eur)]),
        None
    );
}

#[test]
fn fees_of_one_store() {
    assert_eq!(fee_store(&[order(1, 4), order(2, 4)]).unwrap(), StoreId(4));
    assert!(matches!(validation(fee_store(&[order(1, 4), order(2, 5)]).unwrap_err().kind)[0], ValidationIssue::FeeStoresDiffer));
    assert!(fee_store(&[]).is_err());
}

#[test]
fn fee_updates_after_a_charge() {
    let paid = fee_charge_update(ChargeId("ch_1".to_string()), true);
    assert_eq!(paid.status, Some(FeeStatus::Paid));
    assert_eq!(paid.charge_id.unwrap().0, "ch_1");
    assert_eq!(fee_charge_update(ChargeId("ch_1".to_string()), false).status, Some(FeeStatus::Fail));
    assert_eq!(fee_paid_update().status, Some(FeeStatus::Paid));
}

#[test]
fn payment_intents_only_for_unpaid_fees() {
    assert!(validate_payment_intent_create_fee(&fee(1, 10, FeeStatus::NotPaid, Currency::Eur)).is_ok());
    let e = validate_payment_intent_create_fee(&fee(1, 10, FeeStatus::Fail, Currency::Eur)).unwrap_err();
    assert_eq!(e.context, Some(ErrorContext::FeeState));
    assert!(matches!(validation(e.kind)[0], ValidationIssue::PaymentIntentFeeStatus { status: FeeStatus::Fail }));
}

#[test]
fn fee_search() {
    let s = SearchFeeParams::by_order_ids(vec![OrderId(101), OrderId(7)]);
    assert!(s.selects(&fee(1, 10, FeeStatus::NotPaid, Currency::Eur)));
    assert!(!s.selects(&fee(2, 10, FeeStatus::NotPaid, Currency::Eur)));
    let by_id = SearchFeeParams { id: Some(FeeId(2)), order_ids: None };
    assert!(by_id.selects(&fee(2, 10, FeeStatus::NotPaid, Currency::Eur)));
    assert!(!by_id.selects(&fee(1, 10, FeeStatus::NotPaid, Currency::Eur)));
}

#[test]
fn fees_are_charged_to_the_store_owner() {
    let role = UserRole { id: RoleId(1), user_id: UserId(12), name: BillingRole::User, data: Some(4) };
    assert_eq!(fee_store_owner(Some(role)).unwrap(), UserId(12));
    assert!(matches!(fee_store_owner(None).unwrap_err().kind, ErrorKind::Internal));
}
