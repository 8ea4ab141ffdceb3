use billing::accounts::{
    main_account_id, opened_account, pooled_account_step, stq_cashback_account_id, Account, PooledAccountStep,
    SystemAccount, SystemAccountType, SystemAccounts,
};
use billing::acl::{exchange_rate_in_scope, merchant_in_scope, store_owned_in_scope, user_owned_in_scope, MerchantOwner, Scope};
use billing::events::{
    complete_event_status, fail_event_status, is_due_for_processing, is_stuck, start_processing, stuck_event_status, stuck_threshold,
    EventStatus,
};
use billing::ids::{AccountId, InvoiceId, OrderId, StoreId, UserId};
use billing::money::{Amount, Currency, TureCurrency};
use billing::order::{
    check_change_order_payment_state, order_capture_plan, order_decline_plan, order_state_update, CapturePlan, DeclinePlan,
    PaymentState, RawOrder,
};
use billing::repo_error::{DatabaseFailure, Error as RepoError, ErrorKind as RepoErrorKind, ErrorSource};
use billing::roles::{user_is_store_manager, BillingRole, RoleId, RolesCacheImpl, UserRole};
use billing::service_error::{ClientErrorKind, Error as ServiceError, ErrorContext, ErrorKind};
use billing::status::{SqlDecodeError, StoreSubscriptionStatus, SubscriptionPaymentStatus};
use billing::text::{int_to_string, parse_i32, IntErrorKind};
use billing::time::{TimeSpan, Timestamp};
use billing::validation::ValidationIssue;
use billing::wallet::{NewUserWallet, RawUserWallet, UserWalletAccess, UserWalletId, WalletAddress};

fn order(currency: Currency, state: PaymentState) -> RawOrder {
    RawOrder {
        id: OrderId(1),
        seller_currency: currency,
        total_amount: Amount(10),
        cashback_amount: Amount(0),
        invoice_id: InvoiceId(2),
        store_id: StoreId(3),
        state,
    }
}

#[test]
fn order_state_changes() {
    assert!(check_change_order_payment_state(PaymentState::Initial, PaymentState::Captured));
    assert!(check_change_order_payment_state(PaymentState::Captured, PaymentState::PaymentToSellerNeeded));
    assert!(!check_change_order_payment_state(PaymentState::Declined, PaymentState::Initial));
    assert!(!check_change_order_payment_state(PaymentState::Initial, PaymentState::PaidToSeller));
    assert_eq!(order_state_update(&order(Currency::Stq, PaymentState::Captured), PaymentState::RefundNeeded).unwrap(), PaymentState::RefundNeeded);
    let e = order_state_update(&order(Currency::Stq, PaymentState::Refunded), PaymentState::Captured).unwrap_err();
    assert_eq!(e.context, Some(ErrorContext::OrderState));
    match e.kind {
        ErrorKind::Validation(v) => assert!(matches!(v[0], ValidationIssue::OrderStateChange { from: PaymentState::Refunded, to: PaymentState::Captured })),
        other => panic!("unexpected {:?}", other),
    }
}

#[test]
fn capture_and_decline_by_currency_kind() {
    assert_eq!(order_capture_plan(&order(Currency::Eur, PaymentState::Initial)).unwrap(), CapturePlan::CapturePaymentIntent);
    assert_eq!(order_capture_plan(&order(Currency::Btc, PaymentState::Initial)).unwrap(), CapturePlan::SetState(PaymentState::Captured));
    assert_eq!(order_decline_plan(&order(Currency::Usd, PaymentState::Initial)).unwrap(), DeclinePlan::RefundThenSetState(PaymentState::Declined));
    assert_eq!(order_decline_plan(&order(Currency::Eth, PaymentState::Initial)).unwrap(), DeclinePlan::SetState(PaymentState::RefundNeeded));
    let e = order_capture_plan(&order(Currency::Eur, PaymentState::Captured)).unwrap_err();
    match e.kind {
        ErrorKind::Validation(v) => assert!(matches!(v[0], ValidationIssue::OrderNotCapturable { state: PaymentState::Captured })),
        other => panic!("unexpected {:?}", other),
    }
    assert!(order_decline_plan(&order(Currency::Eur, PaymentState::Declined)).is_err());
}

#[test]
fn event_statuses() {
    assert_eq!(complete_event_status(EventStatus::InProgress).unwrap(), EventStatus::Completed);
    assert!(matches!(complete_event_status(EventStatus::Pending).unwrap_err().kind, RepoErrorKind::Internal));
    assert_eq!(fail_event_status(EventStatus::InProgress, 1, 3).unwrap(), EventStatus::Pending);
    assert_eq!(fail_event_status(EventStatus::InProgress, 3, 3).unwrap(), EventStatus::Failed);
    assert!(fail_event_status(EventStatus::Completed, 1, 3).is_err());
    assert_eq!(stuck_event_status(5, 3), EventStatus::Failed);
    assert_eq!(stuck_event_status(0, 3), EventStatus::Pending);
}

#[test]
fn events_for_processing() {
    let now = Timestamp::from_nanos(1_000_000_000_000);
    assert!(is_due_for_processing(EventStatus::Pending, None, now));
    assert!(is_due_for_processing(EventStatus::Pending, Some(now), now));
    assert!(!is_due_for_processing(EventStatus::Pending, Some(Timestamp::from_nanos(1_000_000_000_001)), now));
    assert!(!is_due_for_processing(EventStatus::Failed, None, now));
    assert_eq!(start_processing(2), (EventStatus::InProgress, 3));
    let changed = Timestamp::from_nanos(1_000_000_000_000 - 61_000_000_000);
    assert!(is_stuck(EventStatus::InProgress, changed, 60, now));
    assert!(!is_stuck(EventStatus::InProgress, changed, 61, now));
    assert!(!is_stuck(EventStatus::Pending, changed, 60, now));
}

#[test]
fn stuck_threshold_is_a_time_of_day() {
    assert_eq!(stuck_threshold(300).unwrap(), 300);
    assert_eq!(stuck_threshold(86_399).unwrap(), 86_399);
    assert!(matches!(stuck_threshold(86_400).unwrap_err().kind, RepoErrorKind::Internal));
}

#[test]
fn statuses_in_the_database() {
    assert_eq!(StoreSubscriptionStatus::from_sql(Some(b"trial")).unwrap(), StoreSubscriptionStatus::Trial);
    assert_eq!(StoreSubscriptionStatus::Free.to_sql(), b"free".to_vec());
    assert_eq!(StoreSubscriptionStatus::Paid.to_sql(), b"paid".to_vec());
    match StoreSubscriptionStatus::from_sql(Some(b"gold")).unwrap_err() {
        SqlDecodeError::UnrecognizedVariant(v) => assert_eq!(v, b"gold".to_vec()),
        other => panic!("unexpected {:?}", other),
    }
    assert!(matches!(StoreSubscriptionStatus::from_sql(None).unwrap_err(), SqlDecodeError::UnexpectedNull));
    assert_eq!(SubscriptionPaymentStatus::from_sql(Some(b"failed")).unwrap(), SubscriptionPaymentStatus::Failed);
    assert_eq!(SubscriptionPaymentStatus::Paid.to_sql(), b"paid".to_vec());
    for s in [StoreSubscriptionStatus::Trial, StoreSubscriptionStatus::Paid, StoreSubscriptionStatus::Free] {
        assert_eq!(StoreSubscriptionStatus::from_sql(Some(&s.to_sql())).unwrap(), s);
    }
    for s in [SubscriptionPaymentStatus::Paid, SubscriptionPaymentStatus::Failed] {
        assert_eq!(SubscriptionPaymentStatus::from_sql(Some(&s.to_sql())).unwrap(), s);
    }
}

#[test]
fn user_ids_as_text() {
    assert_eq!(UserId::from_str("42").unwrap(), UserId(42));
    assert_eq!(UserId::from_str("-2147483648").unwrap(), UserId(i32::MIN));
    assert!(matches!(UserId::from_str("2147483648").unwrap_err(), IntErrorKind::PosOverflow));
    assert!(matches!(UserId::from_str("").unwrap_err(), IntErrorKind::Empty));
    assert!(matches!(UserId::from_str("4x").unwrap_err(), IntErrorKind::InvalidDigit));
    assert_eq!(UserId(-17).to_string(), "-17");
    assert_eq!(UserId::from_str(&UserId(123456).to_string()).unwrap(), UserId(123456));
    assert_eq!(UserId::new(5).inner(), 5);
    assert_eq!(UserId::default(), UserId(0));
    assert_eq!(parse_i32(b"+7").unwrap(), 7);
    assert_eq!(UserId::from_str("+0012").unwrap(), UserId(12));
    assert!(matches!(UserId::from_str("-").unwrap_err(), IntErrorKind::InvalidDigit));
    assert!(matches!(UserId::from_str(" 1").unwrap_err(), IntErrorKind::InvalidDigit));
    assert!(matches!(UserId::from_str("-2147483649").unwrap_err(), IntErrorKind::NegOverflow));
    assert_eq!(int_to_string(i64::MIN), i64::MIN.to_string());
}

#[test]
fn time_spans() {
    assert_eq!(TimeSpan::days(2).nanos, 2 * 86_400_000_000_000);
    assert!(TimeSpan::try_days(i64::MAX).is_none());
    assert_eq!(TimeSpan::try_days(-3).unwrap().nanos, -3 * 86_400_000_000_000);
    let a = Timestamp::from_nanos(86_400_000_000_000 + 5);
    let b = Timestamp::from_nanos(2 * 86_400_000_000_000 - 1);
    assert!(a.same_day(b));
    assert!(!a.same_day(Timestamp::from_nanos(2 * 86_400_000_000_000)));
    assert_eq!(b.since(a).nanos, 86_400_000_000_000 - 6);
    assert!(Timestamp::from_nanos(-1).same_day(Timestamp::from_nanos(-86_400_000_000_000)));
}

fn role(data: Option<i64>) -> UserRole {
    UserRole { id: RoleId(1), user_id: UserId(9), name: BillingRole::User, data }
}

#[test]
fn scopes() {
    assert!(user_owned_in_scope(Scope::All, UserId(1), None));
    assert!(user_owned_in_scope(Scope::Owned, UserId(1), Some(UserId(1))));
    assert!(!user_owned_in_scope(Scope::Owned, UserId(1), Some(UserId(2))));
    assert!(!user_owned_in_scope(Scope::Owned, UserId(1), None));
    let roles = vec![role(None), role(Some(4))];
    assert!(user_is_store_manager(&roles, StoreId(4)));
    assert!(!user_is_store_manager(&roles, StoreId(5)));
    assert!(store_owned_in_scope(Scope::Owned, &roles, Some(StoreId(4))));
    assert!(!store_owned_in_scope(Scope::Owned, &roles, None));
    assert!(merchant_in_scope(Scope::Owned, UserId(9), &roles, Some(MerchantOwner { user_id: None, store_id: Some(StoreId(4)) })));
    assert!(!merchant_in_scope(Scope::Owned, UserId(9), &roles, Some(MerchantOwner { user_id: Some(UserId(8)), store_id: None })));
    assert!(exchange_rate_in_scope(Scope::Owned, UserId(1), true, Some(None)));
    assert!(exchange_rate_in_scope(Scope::Owned, UserId(1), true, Some(Some(UserId(1)))));
    assert!(!exchange_rate_in_scope(Scope::Owned, UserId(1), true, None));
    assert!(!exchange_rate_in_scope(Scope::Owned, UserId(1), false, Some(None)));
}

#[test]
fn the_roles_cache_returns_what_was_added() {
    let mut cache = RolesCacheImpl::new();
    assert!(!cache.contains(UserId(1)));
    assert!(cache.get(UserId(1)).is_empty());
    cache.add_roles(UserId(1), &[BillingRole::Superuser, BillingRole::User]);
    cache.add_roles(UserId(2), &[BillingRole::User]);
    assert!(cache.contains(UserId(1)));
    assert_eq!(cache.get(UserId(1)), vec![BillingRole::Superuser, BillingRole::User]);
    assert!(cache.get(UserId(3)).is_empty());
    cache.add_roles(UserId(1), &[BillingRole::User]);
    assert_eq!(cache.get(UserId(1)), vec![BillingRole::User]);
    cache.remove(UserId(1));
    assert!(!cache.contains(UserId(1)));
    assert!(cache.get(UserId(1)).is_empty());
    assert_eq!(cache.get(UserId(2)), vec![BillingRole::User]);
    cache.clear();
    assert!(!cache.contains(UserId(2)));
    assert!(RolesCacheImpl::default().get(UserId(2)).is_empty());
}

#[test]
fn errors_convert() {
    assert!(matches!(ErrorKind::from_repo(RepoErrorKind::NotFound), ErrorKind::NotFound));
    assert!(matches!(ErrorKind::from_repo(RepoErrorKind::Forbidden), ErrorKind::Forbidden));
    match ErrorKind::from_repo(RepoErrorKind::Constraints(vec![ValidationIssue::EmptyOrderList])) {
        ErrorKind::Validation(v) => assert!(matches!(v[0], ValidationIssue::EmptyOrderList)),
        other => panic!("unexpected {:?}", other),
    }
    match ErrorKind::from_client(ClientErrorKind::Validation("{\"x\":1}".to_string())) {
        ErrorKind::Validation(v) => match &v[0] {
            ValidationIssue::Remote { details } => assert_eq!(details, "{\"x\":1}"),
            other => panic!("unexpected {:?}", other),
        },
        other => panic!("unexpected {:?}", other),
    }
    assert!(matches!(ErrorKind::from_client(ClientErrorKind::Unauthorized), ErrorKind::Internal));
    let unique = RepoError::from_database(DatabaseFailure::UniqueViolation { message: "dup".to_string() });
    assert_eq!(unique.source, Some(ErrorSource::Diesel));
    match unique.kind {
        RepoErrorKind::Constraints(v) => assert!(matches!(&v[0], ValidationIssue::NotUnique { message } if message == "dup")),
        other => panic!("unexpected {:?}", other),
    }
    assert!(matches!(RepoError::from_database(DatabaseFailure::NotFound).kind, RepoErrorKind::NotFound));
    assert!(matches!(RepoError::from_database(DatabaseFailure::Other).kind, RepoErrorKind::Internal));
    assert!(matches!(ServiceError::internal().kind, ErrorKind::Internal));
}

#[test]
fn money() {
    assert_eq!(Amount::new(5).checked_add(Amount(6)), Some(Amount(11)));
    assert_eq!(Amount(u128::MAX).checked_add(Amount(1)), None);
    assert_eq!(Amount(5).checked_sub(Amount(6)), None);
    assert_eq!(Amount(7).checked_mul(Amount(6)), Some(Amount(42)));
    assert_eq!(Amount(7).checked_div(Amount(0)), None);
    assert_eq!(Amount(7).checked_div(Amount(2)), Some(Amount(3)));
    assert_eq!(Amount::zero().inner(), 0);
    assert_eq!(TureCurrency::Btc.into_currency(), Currency::Btc);
    assert!(Currency::Rub.is_fiat());
    assert!(!Currency::Stq.is_fiat());
}

fn system() -> SystemAccounts {
    SystemAccounts(vec![
        SystemAccount { id: AccountId(1), currency: TureCurrency::Stq, account_type: SystemAccountType::Main },
        SystemAccount { id: AccountId(2), currency: TureCurrency::Stq, account_type: SystemAccountType::Cashback },
        SystemAccount { id: AccountId(3), currency: TureCurrency::Stq, account_type: SystemAccountType::Main },
    ])
}

#[test]
fn system_accounts() {
    assert_eq!(main_account_id(&system(), TureCurrency::Stq).unwrap(), AccountId(1));
    assert_eq!(stq_cashback_account_id(&system()).unwrap(), AccountId(2));
    assert!(matches!(main_account_id(&system(), TureCurrency::Eth).unwrap_err().kind, ErrorKind::Internal));
    assert_eq!(system().get(TureCurrency::Btc, SystemAccountType::Main), None);
}

#[test]
fn pooled_accounts() {
    let free = Account { id: AccountId(5), currency: TureCurrency::Eth, is_pooled: true, wallet_address: None };
    match pooled_account_step(Some(free), TureCurrency::Eth, "http://cb".to_string()) {
        PooledAccountStep::Use(a) => assert_eq!(a.id, AccountId(5)),
        other => panic!("unexpected {:?}", other),
    }
    match pooled_account_step(None, TureCurrency::Eth, "http://cb".to_string()) {
        PooledAccountStep::Create(r) => {
            assert_eq!(r.currency, TureCurrency::Eth);
            assert_eq!(r.callback_url, "http://cb");
            assert_eq!(r.name.len(), 36);
            for (i, c) in r.name.chars().enumerate() {
                if i == 8 || i == 13 || i == 18 || i == 23 {
                    assert_eq!(c, '-');
                } else {
                    assert!(c.is_ascii_digit() || ('a'..='f').contains(&c));
                }
            }
            let digits: String = r.name.chars().filter(|c| *c != '-').collect();
            assert_eq!(u128::from_str_radix(&digits, 16).unwrap(), r.id.0);
            assert_eq!(r.name.chars().nth(14), Some('4'));
            assert_eq!((r.id.0 >> 62) & 0x3, 2);
            let a = opened_account(&r, true, "0xnew".to_string());
            assert_eq!(a.id, r.id);
            assert!(a.is_pooled);
            assert_eq!(a.wallet_address.unwrap().0, "0xnew");
        }
        other => panic!("unexpected {:?}", other),
    }
}

#[test]
fn wallets() {
    let w = WalletAddress::new("0xabc".to_string());
    assert_eq!(w.inner(), "0xabc");
    assert_eq!(w.into_inner(), "0xabc".to_string());
    assert_eq!(UserWalletId::new(9).inner(), 9);
    assert_eq!(UserWalletId::new(9).into_inner(), 9);
    assert_ne!(UserWalletId::generate(), UserWalletId::generate());
    assert_eq!((UserWalletId::generate().0 >> 76) & 0xf, 4);
    let raw = RawUserWallet {
        id: UserWalletId(1),
        address: WalletAddress("0xabc".to_string()),
        currency: TureCurrency::Stq,
        user_id: UserId(4),
        created_at: Timestamp::from_nanos(3),
    };
    let wallet = raw.into_domain();
    assert_eq!(wallet.user_id, UserId(4));
    assert_eq!(wallet.address.0, "0xabc");
    assert_eq!(UserWalletAccess::from_wallet(&wallet).user_id, UserId(4));
    let new_wallet = NewUserWallet { id: UserWalletId(2), address: WalletAddress("0x1".to_string()), currency: TureCurrency::Eth, user_id: UserId(6) };
    assert_eq!(UserWalletAccess::from_new_wallet(&new_wallet).user_id, UserId(6));
}
