//! Errors of the repository layer.

use vstd::prelude::*;
use crate::validation::ValidationIssue;

verus! {

/// What went wrong in a repository.
#[derive(Clone, Debug)]
pub enum ErrorKind {
    /// A constraint of the database was violated.
    Constraints(Vec<ValidationIssue>),
    Internal,
    Forbidden,
    NotFound,
}

/// Which library the error came from.
#[derive(Clone, Copy, Debug, PartialEq, Eq, Structural)]
pub enum ErrorSource {
    Diesel,
    R2d2,
    SerdeJson,
}

/// What the repository was doing.
#[derive(Clone, Copy, Debug, PartialEq, Eq, Structural)]
pub enum ErrorContext {
    Connection,
}

/// An error of the repository layer.
#[derive(Clone, Debug)]
pub struct Error {
    pub kind: ErrorKind,
    pub source: Option<ErrorSource>,
}

/// How a database call failed, as far as the repositories tell failures apart.
#[derive(Clone, Debug)]
pub enum DatabaseFailure {
    /// A unique constraint was violated; the database's message.
    UniqueViolation { message: String },
    /// The row asked for does not exist.
    NotFound,
    /// Any other failure.
    Other,
}

impl ErrorKind {
    /// The repository error kind for a failed database call.
    pub fn from_database(e: DatabaseFailure) -> (k: ErrorKind)
        ensures
            e matches DatabaseFailure::UniqueViolation { message } ==> {
                &&& k matches ErrorKind::Constraints(v)
                &&& v@.len() == 1
                &&& v@[0] matches ValidationIssue::NotUnique { message: m }
                &&& m@ == message@
            },
            e is NotFound ==> k is NotFound,
            e is Other ==> k is Internal,
    {
        match e {
            DatabaseFailure::UniqueViolation { message } => {
                let mut v: Vec<ValidationIssue> = Vec::new();
                v.push(ValidationIssue::NotUnique { message });
                ErrorKind::Constraints(v)
            },
            DatabaseFailure::NotFound => ErrorKind::NotFound,
            DatabaseFailure::Other => ErrorKind::Internal,
        }
    }
}

impl Error {
    /// The error for a failed database call.
    pub fn from_database(e: DatabaseFailure) -> (r: Error)
        ensures
            r.source == Some(ErrorSource::Diesel),
            e matches DatabaseFailure::UniqueViolation { message } ==> {
                &&& r.kind matches ErrorKind::Constraints(v)
                &&& v@.len() == 1
                &&& v@[0] matches ValidationIssue::NotUnique { message: m }
                &&& m@ == message@
            },
            e is NotFound ==> r.kind is NotFound,
            e is Other ==> r.kind is Internal,
    {
        Error { kind: ErrorKind::from_database(e), source: Some(ErrorSource::Diesel) }
    }
}

} // verus!
