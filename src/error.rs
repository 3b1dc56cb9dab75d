use vstd::prelude::*;

verus! {

/// What a repository reports when an operation does not succeed.
#[derive(Debug)]
pub enum DbError {
    /// No stored note has the requested id.
    NotFound,
    /// Any other storage fault, with its cause.
    Storage(String),
}

/// What the service reports when an operation does not succeed.
#[derive(Debug)]
pub enum ServiceError {
    /// The input broke a domain rule; the rule is described.
    Validation(String),
    /// No stored note has the requested id.
    NotFound,
    /// Any other storage fault, with its cause.
    Storage(String),
}

/// The service error kind that a repository error becomes.
pub open spec fn service_error_of(e: DbError) -> ServiceError {
    match e {
        DbError::NotFound => ServiceError::NotFound,
        DbError::Storage(cause) => ServiceError::Storage(cause),
    }
}

impl ServiceError {
    /// Classifies a repository error: not-found stays not-found, the rest is storage.
    pub fn from_db(e: DbError) -> (r: ServiceError)
        ensures
            r == service_error_of(e),
    {
        match e {
            DbError::NotFound => ServiceError::NotFound,
            DbError::Storage(cause) => ServiceError::Storage(cause),
        }
    }
}

} // verus!
