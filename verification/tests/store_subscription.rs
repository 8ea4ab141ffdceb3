use billing::ids::StoreId;
use billing::money::{Amount, Currency, TureCurrency};
use billing::service_error::ErrorKind;
use billing::status::StoreSubscriptionStatus;
use billing::subscription::{
    create_store_subscription_plan, stq_store_subscription, stq_store_subscription_update, store_subscription_account_name,
    store_subscription_step, subscription_billable, update_store_subscription_plan, StoreSubscription, StoreSubscriptionSetup,
    StoreSubscriptionStep, SubscriptionSearch, StoreSubscriptionSearch, UpdateStoreSubscription,
    DEFAULT_EUR_CENTS_AMOUNT, DEFAULT_STQ_WEI_AMOUNT,
};
use billing::ids::{SubscriptionId, SubscriptionPaymentId};
use billing::time::{TimeSpan, Timestamp};
use billing::validation::ValidationIssue;
use billing::wallet::WalletAddress;

const DAY: i64 = 86_400_000_000_000;

fn record(currency: Currency, wallet: Option<&str>, trial_start: Option<Timestamp>, status: StoreSubscriptionStatus) -> StoreSubscription {
    StoreSubscription {
        store_id: StoreId(42),
        currency,
        value: Amount(1),
        wallet_address: wallet.map(|w| WalletAddress(w.to_string())),
        trial_start_date: trial_start,
        created_at: Timestamp::from_nanos(0),
        updated_at: Timestamp::from_nanos(0),
        status,
    }
}

#[test]
fn a_store_without_record_gets_eur_at_the_default_price() {
    let now = Timestamp::from_nanos(10 * DAY);
    match store_subscription_step(None, StoreId(42), now) {
        StoreSubscriptionStep::Create(n) => {
            assert_eq!(n.store_id, StoreId(42));
            assert_eq!(n.currency, Currency::Eur);
            assert_eq!(n.value, Amount(DEFAULT_EUR_CENTS_AMOUNT));
            assert_eq!(n.value, Amount(3));
            assert!(n.trial_start_date.is_none());
        }
        other => panic!("unexpected {:?}", other),
    }
}

#[test]
fn a_record_without_trial_start_starts_its_trial_now() {
    let now = Timestamp::from_nanos(10 * DAY);
    let r = record(Currency::Eur, None, None, StoreSubscriptionStatus::Trial);
    match store_subscription_step(Some(&r), StoreId(42), now) {
        StoreSubscriptionStep::StartTrial(u) => {
            assert_eq!(u.trial_start_date, Some(now));
            assert!(u.currency.is_none() && u.value.is_none() && u.status.is_none());
        }
        other => panic!("unexpected {:?}", other),
    }
    let started = record(Currency::Eur, None, Some(now), StoreSubscriptionStatus::Trial);
    assert!(matches!(store_subscription_step(Some(&started), StoreId(42), now), StoreSubscriptionStep::UseExisting));
}

#[test]
fn billing_follows_the_status() {
    let now = Timestamp::from_nanos(10 * DAY);
    let max = TimeSpan::days(30);
    assert_eq!(subscription_billable(&record(Currency::Eur, None, None, StoreSubscriptionStatus::Paid), now, max).unwrap(), true);
    assert_eq!(subscription_billable(&record(Currency::Eur, None, None, StoreSubscriptionStatus::Free), now, max).unwrap(), false);
    let e = subscription_billable(&record(Currency::Eur, None, None, StoreSubscriptionStatus::Trial), now, max).unwrap_err();
    assert!(matches!(e.kind, ErrorKind::Internal));
    // The trial duration is the start date less now, as the service computes it.
    let recent = record(Currency::Eur, None, Some(Timestamp::from_nanos(5 * DAY)), StoreSubscriptionStatus::Trial);
    assert_eq!(subscription_billable(&recent, now, max).unwrap(), false);
    let later = record(Currency::Eur, None, Some(Timestamp::from_nanos(40 * DAY)), StoreSubscriptionStatus::Trial);
    assert_eq!(subscription_billable(&later, now, max).unwrap(), true);
}

#[test]
fn account_name_names_the_store() {
    assert_eq!(store_subscription_account_name(StoreId(42)), "store_subscription_42");
    assert_eq!(store_subscription_account_name(StoreId(-7)), "store_subscription_-7");
}

#[test]
fn creating_a_store_subscription() {
    match create_store_subscription_plan(StoreId(42), Currency::Eur).unwrap() {
        StoreSubscriptionSetup::Ready(n) => {
            assert_eq!(n.currency, Currency::Eur);
            assert_eq!(n.value, Amount(3));
        }
        other => panic!("unexpected {:?}", other),
    }
    match create_store_subscription_plan(StoreId(42), Currency::Stq).unwrap() {
        StoreSubscriptionSetup::CreateAccount(a) => {
            assert_eq!(a.name, "store_subscription_42");
            assert_eq!(a.currency, TureCurrency::Stq);
            assert!(!a.is_pooled);
            assert_eq!((a.id.0 >> 76) & 0xf, 4);
        }
        other => panic!("unexpected {:?}", other),
    }
    let e = create_store_subscription_plan(StoreId(42), Currency::Btc).unwrap_err();
    match e.kind {
        ErrorKind::Validation(v) => assert!(matches!(v[0], ValidationIssue::SubscriptionCurrency { currency: Currency::Btc })),
        other => panic!("unexpected {:?}", other),
    }
    let n = stq_store_subscription(StoreId(42), WalletAddress("0xw".to_string()));
    assert_eq!(n.value, Amount(DEFAULT_STQ_WEI_AMOUNT));
    assert_eq!(n.value, Amount(1_000_000_000_000_000_000));
    assert_eq!(n.wallet_address.unwrap().0, "0xw");
}

#[test]
fn updating_a_store_subscription() {
    let eur = record(Currency::Eur, None, None, StoreSubscriptionStatus::Paid);
    match update_store_subscription_plan(&eur, Currency::Eur).unwrap() {
        StoreSubscriptionSetup::Ready(u) => {
            assert_eq!(u.currency, Some(Currency::Eur));
            assert!(u.value.is_none());
        }
        other => panic!("unexpected {:?}", other),
    }
    match update_store_subscription_plan(&eur, Currency::Stq).unwrap() {
        StoreSubscriptionSetup::CreateAccount(a) => {
            assert_eq!(a.name, "store_subscription_42");
            assert_eq!(a.currency, TureCurrency::Stq);
            assert!(!a.is_pooled);
            assert_eq!((a.id.0 >> 76) & 0xf, 4);
        }
        other => panic!("unexpected {:?}", other),
    }
    let with_wallet = record(Currency::Eur, Some("0xw"), None, StoreSubscriptionStatus::Paid);
    match update_store_subscription_plan(&with_wallet, Currency::Stq).unwrap() {
        StoreSubscriptionSetup::Ready(u) => assert_eq!(u.value, Some(Amount(DEFAULT_STQ_WEI_AMOUNT))),
        other => panic!("unexpected {:?}", other),
    }
    let stq = record(Currency::Stq, Some("0xw"), None, StoreSubscriptionStatus::Paid);
    match update_store_subscription_plan(&stq, Currency::Eur).unwrap() {
        StoreSubscriptionSetup::Ready(u) => assert_eq!(u.value, Some(Amount(3))),
        other => panic!("unexpected {:?}", other),
    }
    assert!(update_store_subscription_plan(&stq, Currency::Usd).is_err());
    let u = stq_store_subscription_update(WalletAddress("0xw".to_string()));
    assert_eq!(u.currency, Some(Currency::Stq));
    assert_eq!(u.wallet_address.unwrap().0, "0xw");
    let empty = UpdateStoreSubscription::empty();
    assert!(empty.currency.is_none() && empty.wallet_address.is_none());
}

#[test]
fn searches() {
    let s = SubscriptionSearch::by_id(SubscriptionId(3));
    assert_eq!(s.id, Some(SubscriptionId(3)));
    assert!(s.store_id.is_none() && s.paid.is_none());
    let p = SubscriptionSearch::by_subscription_payment_id(SubscriptionPaymentId(4));
    assert_eq!(p.subscription_payment_id, Some(SubscriptionPaymentId(4)));
    let st = StoreSubscriptionSearch::by_store_id(StoreId(42));
    assert_eq!(st.store_id, Some(StoreId(42)));
}
