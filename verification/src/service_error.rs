//! Errors of the service layer.

use vstd::prelude::*;
use crate::repo_error::ErrorKind as RepoErrorKind;
use crate::validation::ValidationIssue;

verus! {

/// What went wrong, as the service reports it.
#[derive(Clone, Debug)]
pub enum ErrorKind {
    Internal,
    Forbidden,
    NotFound,
    Validation(Vec<ValidationIssue>),
}

/// Where in the service the error arose.
#[derive(Clone, Copy, Debug, PartialEq, Eq, Structural)]
pub enum ErrorContext {
    AmountConversion,
    OrderState,
    BillingInfo,
    FeeState,
    Unauthorized,
}

/// An error of the service layer.
#[derive(Clone, Debug)]
pub struct Error {
    pub kind: ErrorKind,
    pub context: Option<ErrorContext>,
}

/// `e` refuses the request for exactly the issues `issues`, in `context`.
pub open spec fn is_validation_error(
    e: Error,
    issues: Seq<ValidationIssue>,
    context: Option<ErrorContext>,
) -> bool {
    &&& e.kind matches ErrorKind::Validation(v)
    &&& v@ == issues
    &&& e.context == context
}

/// `e` is an internal error in `context`.
pub open spec fn is_internal_error(e: Error, context: Option<ErrorContext>) -> bool {
    e.kind is Internal && e.context == context
}

impl Error {
    pub fn internal() -> (e: Error)
        ensures
            is_internal_error(e, None),
    {
        Error { kind: ErrorKind::Internal, context: None }
    }

    /// The error that refuses a request for the one issue `issue`.
    pub fn validation(issue: ValidationIssue, context: Option<ErrorContext>) -> (e: Error)
        ensures
            is_validation_error(e, seq![issue], context),
    {
        let mut v: Vec<ValidationIssue> = Vec::new();
        v.push(issue);
        assert(v@ =~= seq![issue]);
        Error { kind: ErrorKind::Validation(v), context }
    }
}

/// Kinds of errors reported by the payments and card payment clients.
#[derive(Clone, Debug)]
pub enum ClientErrorKind {
    Internal,
    MalformedInput,
    Unauthorized,
    /// A validation failure, as its JSON text.
    Validation(String),
}

impl ErrorKind {
    /// The service error kind for a repository error kind.
    pub fn from_repo(e: RepoErrorKind) -> (k: ErrorKind)
        ensures
            e matches RepoErrorKind::Constraints(v) ==> (k matches ErrorKind::Validation(w) && w@ == v@),
            e is Forbidden ==> k is Forbidden,
            e is Internal ==> k is Internal,
            e is NotFound ==> k is NotFound,
    {
        match e {
            RepoErrorKind::Constraints(errors) => ErrorKind::Validation(errors),
            RepoErrorKind::Forbidden => ErrorKind::Forbidden,
            RepoErrorKind::Internal => ErrorKind::Internal,
            RepoErrorKind::NotFound => ErrorKind::NotFound,
        }
    }

    /// The service error kind for an error kind of the payments or card
    /// payment client: only their validation failures stay validation
    /// failures.
    pub fn from_client(e: ClientErrorKind) -> (k: ErrorKind)
        ensures
            e matches ClientErrorKind::Validation(s) ==> {
                &&& k matches ErrorKind::Validation(w)
                &&& w@.len() == 1
                &&& w@[0] matches ValidationIssue::Remote { details }
                &&& details@ == s@
            },
            !(e is Validation) ==> k is Internal,
    {
        match e {
            ClientErrorKind::Internal => ErrorKind::Internal,
            ClientErrorKind::MalformedInput => ErrorKind::Internal,
            ClientErrorKind::Unauthorized => ErrorKind::Internal,
            ClientErrorKind::Validation(details) => {
                let mut w: Vec<ValidationIssue> = Vec::new();
                w.push(ValidationIssue::Remote { details });
                ErrorKind::Validation(w)
            },
        }
    }
}

} // verus!
