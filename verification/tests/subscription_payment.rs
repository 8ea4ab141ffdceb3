use billing::accounts::Account;
use billing::customer::{CustomerId, DbCustomer};
use billing::ids::{AccountId, Quantity, StoreId, SubscriptionId, SubscriptionPaymentId, TransactionId, UserId};
use billing::money::{Amount, Currency, FiatCurrency, TureCurrency};
use billing::status::{StoreSubscriptionStatus, SubscriptionPaymentStatus};
use billing::subscription::{
    calculate_total_amount, created_on_day_of, failed_payment_preparation, finish_crypto_payment, finish_fiat_payment,
    into_finished_payment, payment_lookup, subscription_charge, payment_preparation, subscription_transfer, subscriptions_of_store,
    subscriptions_to_pay, ChargeId, PaymentLookup, PaymentPreparation, StoreSubscription, Subscription,
    SubscriptionPayment, SubscriptionPaymentSearch,
};
use billing::time::{TimeSpan, Timestamp};
use billing::wallet::WalletAddress;
use chrono::NaiveDate;

fn at(y: i32, m: u32, d: u32, h: u32) -> Timestamp {
    let nanos = NaiveDate::from_ymd_opt(y, m, d)
        .unwrap()
        .and_hms_opt(h, 0, 0)
        .unwrap()
        .and_utc()
        .timestamp_nanos_opt()
        .unwrap();
    Timestamp::from_nanos(nanos)
}

fn subscription(id: i32, store: i32, quantity: i32, created_at: Timestamp) -> Subscription {
    Subscription {
        id: SubscriptionId(id),
        store_id: StoreId(store),
        published_base_products_quantity: Quantity(quantity),
        subscription_payment_id: None,
        created_at,
    }
}

fn unpaid_subscriptions() -> Vec<Subscription> {
    vec![
        subscription(1, 1, 1, at(2019, 2, 9, 12)),
        subscription(2, 1, 1, at(2019, 2, 11, 12)),
        subscription(3, 2, 1, at(2019, 2, 10, 12)),
        subscription(4, 3, 1, at(2019, 2, 11, 12)),
    ]
}

fn store_subscription(currency: Currency, value: u128, wallet: Option<&str>) -> StoreSubscription {
    StoreSubscription {
        store_id: StoreId(7),
        currency,
        value: Amount(value),
        wallet_address: wallet.map(|w| WalletAddress(w.to_string())),
        trial_start_date: None,
        created_at: at(2019, 1, 1, 0),
        updated_at: at(2019, 1, 1, 0),
        status: StoreSubscriptionStatus::Paid,
    }
}

#[test]
fn correctly_finds_subscriptions() {
    //given
    let unpaid = unpaid_subscriptions();
    let now = at(2019, 2, 11, 12);
    let payment_periodicity_duration = TimeSpan::days(1);
    //when
    let subscriptions_to_pay = subscriptions_to_pay(&unpaid, now, payment_periodicity_duration);
    //then
    assert_eq!(
        subscriptions_to_pay
            .iter()
            .flat_map(|s| s.subscriptions.iter())
            .map(|s| s.id)
            .collect::<Vec<_>>(),
        vec![SubscriptionId(1), SubscriptionId(2)]
    );
}

#[test]
fn subscriptions_to_pay_groups_by_store_in_order() {
    let unpaid = unpaid_subscriptions();
    let now = at(2019, 2, 12, 13);
    let groups = subscriptions_to_pay(&unpaid, now, TimeSpan::days(1));
    let stores: Vec<StoreId> = groups.iter().map(|g| g.store_id).collect();
    assert_eq!(stores, vec![StoreId(1), StoreId(2), StoreId(3)]);
    assert_eq!(groups[0].subscriptions.len(), 2);
    // Every unpaid subscription of a due store is paid once.
    let paid: usize = groups.iter().map(|g| g.subscriptions.len()).sum();
    assert_eq!(paid, unpaid.len());
    assert!(subscriptions_to_pay(&[], now, TimeSpan::days(1)).is_empty());
}

#[test]
fn subscriptions_of_store_keeps_order() {
    let unpaid = unpaid_subscriptions();
    let ids: Vec<SubscriptionId> = subscriptions_of_store(&unpaid, StoreId(1)).iter().map(|s| s.id).collect();
    assert_eq!(ids, vec![SubscriptionId(1), SubscriptionId(2)]);
    assert!(subscriptions_of_store(&unpaid, StoreId(9)).is_empty());
}

#[test]
fn total_amount_is_quantity_times_price() {
    let subs = vec![subscription(1, 7, 2, at(2019, 2, 9, 12)), subscription(2, 7, 5, at(2019, 2, 10, 12))];
    let ss = store_subscription(Currency::Eur, 3, None);
    assert_eq!(calculate_total_amount(&ss, &subs).unwrap(), Amount(21));
}

#[test]
fn total_amount_overflow_is_internal_error() {
    let subs = vec![subscription(1, 7, 2, at(2019, 2, 9, 12))];
    let ss = store_subscription(Currency::Stq, u128::MAX, None);
    let e = calculate_total_amount(&ss, &subs).unwrap_err();
    assert!(matches!(e.kind, billing::service_error::ErrorKind::Internal));
}

#[test]
fn payment_lookup_by_currency() {
    let crypto = store_subscription(Currency::Stq, 1, Some("0xabc"));
    match payment_lookup(&crypto) {
        PaymentLookup::AccountByWallet(w) => assert_eq!(w.0, "0xabc"),
        other => panic!("unexpected {:?}", other),
    }
    assert!(matches!(payment_lookup(&store_subscription(Currency::Eth, 1, None)), PaymentLookup::Nothing));
    assert!(matches!(payment_lookup(&store_subscription(Currency::Eur, 1, None)), PaymentLookup::CustomerOfOwner));
}

fn customer() -> DbCustomer {
    DbCustomer { id: CustomerId("cus_1".to_string()), user_id: UserId(5), email: None }
}

fn account() -> Account {
    Account {
        id: AccountId(11),
        currency: TureCurrency::Stq,
        is_pooled: false,
        wallet_address: Some(WalletAddress("0xabc".to_string())),
    }
}

#[test]
fn payment_preparation_picks_the_way_to_pay() {
    let subs = vec![subscription(1, 7, 2, at(2019, 2, 9, 12))];
    let fiat = payment_preparation(store_subscription(Currency::Eur, 3, None), subs.clone(), Amount(6), None, Some(customer()));
    match fiat {
        PaymentPreparation::Fiat(f) => {
            assert_eq!(f.fiat_currency, FiatCurrency::Eur);
            assert_eq!(f.total_amount, Amount(6));
        }
        other => panic!("unexpected {:?}", other),
    }
    let crypto =
        payment_preparation(store_subscription(Currency::Stq, 3, Some("0xabc")), subs.clone(), Amount(6), Some(account()), None);
    match crypto {
        PaymentPreparation::Crypto(c) => {
            assert_eq!(c.ture_currency, TureCurrency::Stq);
            assert_eq!(c.store_owner_account.id, AccountId(11));
        }
        other => panic!("unexpected {:?}", other),
    }
    let no_wallet = payment_preparation(store_subscription(Currency::Stq, 3, None), subs.clone(), Amount(6), Some(account()), None);
    assert!(matches!(no_wallet, PaymentPreparation::Failed(_)));
    let no_customer = payment_preparation(store_subscription(Currency::Usd, 3, None), subs, Amount(6), None, None);
    assert!(matches!(no_customer, PaymentPreparation::Failed(_)));
}

#[test]
fn finished_payments_record_the_outcome() {
    let subs = vec![subscription(1, 7, 2, at(2019, 2, 9, 12))];
    let failed = match failed_payment_preparation(store_subscription(Currency::Eur, 3, None), subs.clone(), Amount(6)) {
        PaymentPreparation::Failed(f) => f,
        other => panic!("unexpected {:?}", other),
    };
    let done = into_finished_payment(failed);
    assert_eq!(done.subscription_payment.status, SubscriptionPaymentStatus::Failed);
    assert_eq!(done.subscription_payment.amount, Amount(6));
    assert_eq!(done.subscription_payment.store_id, StoreId(7));

    let fiat = match payment_preparation(store_subscription(Currency::Eur, 3, None), subs.clone(), Amount(6), None, Some(customer())) {
        PaymentPreparation::Fiat(f) => f,
        other => panic!("unexpected {:?}", other),
    };
    let charge = subscription_charge(&fiat);
    assert_eq!(charge.customer_id.0, "cus_1");
    assert_eq!(charge.amount, Amount(6));
    assert_eq!(charge.currency, Currency::Eur);
    assert!(charge.capture);
    let paid = finish_fiat_payment(fiat.clone(), Some(ChargeId("ch_1".to_string())));
    assert_eq!(paid.subscription_payment.status, SubscriptionPaymentStatus::Paid);
    assert_eq!(paid.subscription_payment.charge_id.unwrap().0, "ch_1");
    let unpaid = finish_fiat_payment(fiat, None);
    assert_eq!(unpaid.subscription_payment.status, SubscriptionPaymentStatus::Failed);

    let crypto = match payment_preparation(
        store_subscription(Currency::Stq, 3, Some("0xabc")),
        subs,
        Amount(6),
        Some(account()),
        None,
    ) {
        PaymentPreparation::Crypto(c) => c,
        other => panic!("unexpected {:?}", other),
    };
    let transfer = subscription_transfer(&crypto, TransactionId(99), AccountId(1));
    assert_eq!(transfer.from, AccountId(11));
    assert_eq!(transfer.to, AccountId(1));
    assert_eq!(transfer.amount, Amount(6));
    let ok = finish_crypto_payment(crypto.clone(), TransactionId(99), true);
    assert_eq!(ok.subscription_payment.status, SubscriptionPaymentStatus::Paid);
    assert_eq!(ok.subscription_payment.transaction_id, Some(TransactionId(99)));
    let ko = finish_crypto_payment(crypto, TransactionId(99), false);
    let fresh = TransactionId::generate();
    assert_eq!((fresh.0 >> 76) & 0xf, 4);
    assert_ne!(fresh, TransactionId::generate());
    assert_eq!(ko.subscription_payment.status, SubscriptionPaymentStatus::Failed);
}

#[test]
fn one_subscription_per_day() {
    let unpaid = unpaid_subscriptions();
    assert!(created_on_day_of(&unpaid, at(2019, 2, 11, 23)));
    assert!(!created_on_day_of(&unpaid, at(2019, 2, 12, 0)));
    assert!(!created_on_day_of(&[], at(2019, 2, 11, 12)));
}

#[test]
fn payment_search_filters() {
    let p = SubscriptionPayment {
        id: SubscriptionPaymentId(3),
        store_id: StoreId(7),
        amount: Amount(6),
        currency: Currency::Eur,
        charge_id: None,
        transaction_id: None,
        status: SubscriptionPaymentStatus::Paid,
        created_at: at(2019, 2, 9, 12),
    };
    let all = SubscriptionPaymentSearch { id: None, store_id: None, status: None };
    assert!(all.selects(&p));
    let by_store = SubscriptionPaymentSearch { id: None, store_id: Some(StoreId(7)), status: Some(SubscriptionPaymentStatus::Paid) };
    assert!(by_store.selects(&p));
    let failed = SubscriptionPaymentSearch { id: None, store_id: Some(StoreId(7)), status: Some(SubscriptionPaymentStatus::Failed) };
    assert!(!failed.selects(&p));
}
