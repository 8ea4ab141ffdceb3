use billing::billing::{
    billing_type_change, order_billing_info, order_billing_infos, order_store_ids, update_store_billing_type_to_international,
    update_store_billing_type_to_russia, validate_create_international_billing_info, validate_create_russia_billing_info,
    BillingType, BillingTypeChange, StoreBillingType,
};
use billing::ids::{InvoiceId, OrderId, StoreId};
use billing::money::{Amount, Currency};
use billing::order::{PaymentState, RawOrder};
use billing::service_error::ErrorKind;

fn order(id: u128, store: i32) -> RawOrder {
    RawOrder {
        id: OrderId(id),
        seller_currency: Currency::Eur,
        total_amount: Amount(10),
        cashback_amount: Amount(0),
        invoice_id: InvoiceId(1),
        store_id: StoreId(store),
        state: PaymentState::Initial,
    }
}

#[test]
fn stores_of_orders_each_once() {
    let orders = vec![order(1, 5), order(2, 3), order(3, 5), order(4, 9), order(5, 3)];
    assert_eq!(order_store_ids(&orders), vec![StoreId(5), StoreId(3), StoreId(9)]);
    assert!(order_store_ids(&vec![]).is_empty());
}

#[test]
fn billing_info_of_orders() {
    let orders = vec![order(1, 5), order(2, 3), order(3, 7)];
    let types = vec![
        StoreBillingType { store_id: StoreId(5), billing_type: BillingType::International },
        StoreBillingType { store_id: StoreId(3), billing_type: BillingType::Russia },
    ];
    let russia = vec![(StoreId(3), "ru-old".to_string()), (StoreId(3), "ru-new".to_string())];
    let international = vec![(StoreId(5), "intl".to_string())];
    let proxy = Some("proxy".to_string());
    let infos = order_billing_infos(&orders, &types, &russia, &international, &proxy);
    assert_eq!(infos.len(), 3);
    assert_eq!(infos[0].billing_type, BillingType::International);
    assert_eq!(infos[0].international_billing_info.as_deref(), Some("intl"));
    assert!(infos[0].proxy_company_billing_info.is_none());
    assert_eq!(infos[1].billing_type, BillingType::Russia);
    assert_eq!(infos[1].russia_billing_info.as_deref(), Some("ru-new"));
    assert_eq!(infos[1].proxy_company_billing_info.as_deref(), Some("proxy"));
    // A store without a stored billing type is billed internationally.
    assert_eq!(infos[2].billing_type, BillingType::International);
    assert!(infos[2].russia_billing_info.is_none());
    let one = order_billing_info(order(1, 3), Some(BillingType::Russia), Some(1u8), None::<u8>, Some(2u8));
    assert_eq!(one.proxy_company_billing_info, Some(2u8));
}

#[test]
fn changing_a_billing_type() {
    assert!(matches!(billing_type_change(None, StoreId(1), BillingType::Russia), BillingTypeChange::Create(_)));
    assert!(matches!(billing_type_change(Some(BillingType::Russia), StoreId(1), BillingType::Russia), BillingTypeChange::Keep));
    match update_store_billing_type_to_international(Some(BillingType::Russia), StoreId(1)) {
        BillingTypeChange::Switch { delete_info_of, update } => {
            assert_eq!(delete_info_of, BillingType::Russia);
            assert_eq!(update.billing_type, Some(BillingType::International));
        }
        other => panic!("unexpected {:?}", other),
    }
    match update_store_billing_type_to_russia(Some(BillingType::International), StoreId(1)) {
        BillingTypeChange::Switch { delete_info_of, .. } => assert_eq!(delete_info_of, BillingType::International),
        other => panic!("unexpected {:?}", other),
    }
}

#[test]
fn billing_info_is_created_once() {
    assert!(validate_create_international_billing_info(false, StoreId(1)).is_ok());
    assert!(matches!(validate_create_russia_billing_info(true, StoreId(1)).unwrap_err().kind, ErrorKind::Validation(_)));
}
