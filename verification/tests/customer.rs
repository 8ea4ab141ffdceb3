use billing::customer::{
    check_customer_deleted, check_customer_update, check_new_customer, get_customer_cards, customer_response, new_db_customer,
    require_customer_user, CustomerId, DbCustomer, PaymentSource,
};
use billing::ids::UserId;
use billing::service_error::{ErrorContext, ErrorKind};

fn customer() -> DbCustomer {
    DbCustomer { id: CustomerId("cus_1".to_string()), user_id: UserId(3), email: Some("a@b.c".to_string()) }
}

#[test]
fn only_cards_are_shown() {
    let sources = vec![PaymentSource::Card("visa"), PaymentSource::BankAccount, PaymentSource::Source, PaymentSource::Card("mc")];
    assert_eq!(get_customer_cards(sources), vec!["visa", "mc"]);
    assert!(get_customer_cards::<u8>(vec![PaymentSource::BankAccount]).is_empty());
}

#[test]
fn the_response_shows_the_record_and_its_cards() {
    let r = customer_response(customer(), vec![PaymentSource::Source, PaymentSource::Card(7u32)]);
    assert_eq!(r.id.0, "cus_1");
    assert_eq!(r.user_id, UserId(3));
    assert_eq!(r.email.as_deref(), Some("a@b.c"));
    assert_eq!(r.cards, vec![7u32]);
    let n = new_db_customer("cus_2".to_string(), UserId(4), None);
    assert_eq!(n.id.0, "cus_2");
    assert_eq!(n.user_id, UserId(4));
}

#[test]
fn creating_a_customer_needs_a_user_without_one() {
    let e = check_new_customer(None, None).unwrap_err();
    assert!(matches!(e.kind, ErrorKind::Forbidden));
    assert_eq!(e.context, Some(ErrorContext::Unauthorized));
    let c = customer();
    assert!(matches!(check_new_customer(Some(UserId(3)), Some(&c)).unwrap_err().kind, ErrorKind::Internal));
    assert_eq!(check_new_customer(Some(UserId(3)), None).unwrap(), UserId(3));
    assert_eq!(require_customer_user(Some(UserId(8))).unwrap(), UserId(8));
    assert!(matches!(require_customer_user(None).unwrap_err().kind, ErrorKind::Forbidden));
}

#[test]
fn updating_a_customer_needs_one() {
    let e = check_customer_update(None, Some(customer())).unwrap_err();
    assert!(matches!(e.kind, ErrorKind::Forbidden));
    assert_eq!(e.context, None);
    assert!(matches!(check_customer_update(Some(UserId(3)), None).unwrap_err().kind, ErrorKind::NotFound));
    assert_eq!(check_customer_update(Some(UserId(3)), Some(customer())).unwrap().id.0, "cus_1");
}

#[test]
fn a_customer_the_provider_kept_is_not_deleted() {
    assert!(check_customer_deleted(true).is_ok());
    assert!(matches!(check_customer_deleted(false).unwrap_err().kind, ErrorKind::Internal));
}
