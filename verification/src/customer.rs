//! Card payment customers of users.

use vstd::prelude::*;
use crate::ids::UserId;
use crate::service_error::{Error as ServiceError, ErrorContext, ErrorKind};

verus! {

/// The identifier of a customer with the card payment provider.
#[derive(Clone, Debug)]
pub struct CustomerId(pub String);

/// A user's customer record with the card payment provider.
#[derive(Clone, Debug)]
pub struct DbCustomer {
    pub id: CustomerId,
    pub user_id: UserId,
    pub email: Option<String>,
}

/// A customer record to be stored.
#[derive(Clone, Debug)]
pub struct NewDbCustomer {
    pub id: CustomerId,
    pub user_id: UserId,
    pub email: Option<String>,
}

/// A payment source of a customer as the provider reports it; `C` is a card.
#[derive(Clone, Debug)]
pub enum PaymentSource<C> {
    Card(C),
    BankAccount,
    Source,
}

/// The cards among `sources`, in their order.
pub open spec fn cards_of<C>(sources: Seq<PaymentSource<C>>) -> Seq<C>
    decreases sources.len(),
{
    if sources.len() == 0 {
        Seq::empty()
    } else {
        let rest = cards_of(sources.drop_last());
        match sources.last() {
            PaymentSource::Card(c) => rest.push(c),
            _ => rest,
        }
    }
}

/// The cards among a customer's payment sources, in their order; bank
/// accounts and other sources are left out.
pub fn get_customer_cards<C>(sources: Vec<PaymentSource<C>>) -> (cards: Vec<C>)
    ensures
        cards@ == cards_of(sources@),
{
    let mut cards: Vec<C> = Vec::new();
    let mut rest = sources;
    let ghost all = rest@;
    let ghost mut done: Seq<PaymentSource<C>> = Seq::empty();
    while rest.len() > 0
        invariant
            all == done + rest@,
            cards@ == cards_of(done),
        decreases rest.len(),
    {
        let s = rest.remove(0);
        proof {
            assert(done.push(s).drop_last() =~= done);
            done = done.push(s);
            assert(all =~= done + rest@);
        }
        match s {
            PaymentSource::Card(c) => {
                cards.push(c);
            },
            _ => {},
        }
    }
    assert(all =~= done);
    cards
}

/// A customer as the billing shows it: the stored record and the cards
/// the provider holds for it.
#[derive(Clone, Debug)]
pub struct CustomerResponse<C> {
    pub id: CustomerId,
    pub user_id: UserId,
    pub email: Option<String>,
    pub cards: Vec<C>,
}

/// The customer `customer`, shown with the cards among `sources`.
pub fn customer_response<C>(customer: DbCustomer, sources: Vec<PaymentSource<C>>) -> (r: CustomerResponse<C>)
    ensures
        r.id.0@ == customer.id.0@,
        r.user_id == customer.user_id,
        r.email == customer.email,
        r.cards@ == cards_of(sources@),
{
    CustomerResponse { id: customer.id, user_id: customer.user_id, email: customer.email, cards: get_customer_cards(sources) }
}

/// The record of the customer `id` that the provider created for the user
/// `user_id` with the email `email`.
pub fn new_db_customer(id: String, user_id: UserId, email: Option<String>) -> (c: NewDbCustomer)
    ensures
        c.id.0@ == id@,
        c.user_id == user_id,
        c.email == email,
{
    NewDbCustomer { id: CustomerId(id), user_id, email }
}

/// `e` refuses a request made without a user.
pub open spec fn is_unauthorized(e: ServiceError, context: Option<ErrorContext>) -> bool {
    e.kind is Forbidden && e.context == context
}

/// Checks a request to create a customer: it needs a user, who must not
/// have a customer yet (`existing`).
pub fn check_new_customer(user_id: Option<UserId>, existing: Option<&DbCustomer>) -> (r: Result<UserId, ServiceError>)
    ensures
        match user_id {
            None => (r matches Err(e) && is_unauthorized(e, Some(ErrorContext::Unauthorized))),
            Some(u) => if existing is Some {
                r matches Err(e) && e.kind is Internal && e.context is None
            } else {
                r == Ok::<UserId, ServiceError>(u)
            },
        },
{
    match user_id {
        None => Err(ServiceError { kind: ErrorKind::Forbidden, context: Some(ErrorContext::Unauthorized) }),
        Some(u) => {
            if existing.is_some() {
                Err(ServiceError::internal())
            } else {
                Ok(u)
            }
        },
    }
}

/// Checks a request that reads the user's customer: it needs a user.
pub fn require_customer_user(user_id: Option<UserId>) -> (r: Result<UserId, ServiceError>)
    ensures
        match user_id {
            Some(u) => r == Ok::<UserId, ServiceError>(u),
            None => (r matches Err(e) && is_unauthorized(e, Some(ErrorContext::Unauthorized))),
        },
{
    match user_id {
        None => Err(ServiceError { kind: ErrorKind::Forbidden, context: Some(ErrorContext::Unauthorized) }),
        Some(u) => Ok(u),
    }
}

/// Checks a request to update the user's customer: it needs a user, and
/// the user's customer (`customer`, looked up for that user) must exist.
pub fn check_customer_update(user_id: Option<UserId>, customer: Option<DbCustomer>) -> (r: Result<
    DbCustomer,
    ServiceError,
>)
    ensures
        match (user_id, customer) {
            (None, _) => (r matches Err(e) && is_unauthorized(e, None)),
            (Some(_), None) => (r matches Err(e) && e.kind is NotFound && e.context is None),
            (Some(_), Some(c)) => (r matches Ok(d) && d.id.0@ == c.id.0@ && d.user_id == c.user_id
                && d.email == c.email),
        },
{
    if user_id.is_none() {
        return Err(ServiceError { kind: ErrorKind::Forbidden, context: None });
    }
    match customer {
        None => Err(ServiceError { kind: ErrorKind::NotFound, context: None }),
        Some(c) => Ok(c),
    }
}

/// Checks the provider's answer to deleting a customer: the stored record
/// is deleted only where the provider deleted the customer, else the
/// request is an internal error.
pub fn check_customer_deleted(deleted: bool) -> (r: Result<(), ServiceError>)
    ensures
        r is Ok <==> deleted,
        r matches Err(e) ==> e.kind is Internal && e.context is None,
{
    if deleted {
        Ok(())
    } else {
        Err(ServiceError::internal())
    }
}

} // verus!
