//! Billing: the decisions, amounts and state rules of a billing
//! microservice, with their contracts.

pub mod accounts;
pub mod acl;
pub mod billing;
pub mod customer;
pub mod events;
pub mod fee;
pub mod invoice;
pub mod job;
pub mod ids;
pub mod money;
pub mod payment_intent;
pub mod payout;
pub mod order;
pub mod repo_error;
pub mod roles;
pub mod service_error;
pub mod subscription;
pub mod status;
pub mod text;
pub mod time;
pub mod validation;
pub mod wallet;
