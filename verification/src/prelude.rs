//! The errors that every operation of the registry reports.

use vstd::prelude::*;

verus! {

/// Why an operation was refused.
#[derive(Debug)]
pub enum ServiceError {
    /// An invariant of the registry does not hold, or a total does not fit its type.
    InternalError(String),
    /// No lot has the identifier in the collection that was asked.
    NotFound(String),
    /// A lot with the identifier is already stored.
    AlreadyExists(String),
    /// The request is not legal for the lot as it stands, or is malformed.
    BadRequest(String),
}

/// A `ServiceError` with its message as a sequence of characters.
pub enum ServiceErrorView {
    InternalError(Seq<char>),
    NotFound(Seq<char>),
    AlreadyExists(Seq<char>),
    BadRequest(Seq<char>),
}

impl View for ServiceError {
    type V = ServiceErrorView;

    open spec fn view(&self) -> ServiceErrorView {
        match self {
            ServiceError::InternalError(msg) => ServiceErrorView::InternalError(msg@),
            ServiceError::NotFound(msg) => ServiceErrorView::NotFound(msg@),
            ServiceError::AlreadyExists(msg) => ServiceErrorView::AlreadyExists(msg@),
            ServiceError::BadRequest(msg) => ServiceErrorView::BadRequest(msg@),
        }
    }
}

impl ServiceError {
    /// An internal error with the message `msg`.
    pub fn internal_error(msg: &str) -> (e: Self)
        ensures
            e@ == ServiceErrorView::InternalError(msg@),
    {
        ServiceError::InternalError(msg.to_owned())
    }

    /// A not-found error with the message `msg`.
    pub fn not_found(msg: &str) -> (e: Self)
        ensures
            e@ == ServiceErrorView::NotFound(msg@),
    {
        ServiceError::NotFound(msg.to_owned())
    }

    /// An already-exists error with the message `msg`.
    pub fn already_exist(msg: &str) -> (e: Self)
        ensures
            e@ == ServiceErrorView::AlreadyExists(msg@),
    {
        ServiceError::AlreadyExists(msg.to_owned())
    }

    /// A bad-request error with the message `msg`.
    pub fn bad_request(msg: &str) -> (e: Self)
        ensures
            e@ == ServiceErrorView::BadRequest(msg@),
    {
        ServiceError::BadRequest(msg.to_owned())
    }

    /// The message of the error, whatever its kind.
    pub open spec fn spec_message(self) -> Seq<char> {
        match self {
            ServiceError::InternalError(msg) => msg@,
            ServiceError::NotFound(msg) => msg@,
            ServiceError::AlreadyExists(msg) => msg@,
            ServiceError::BadRequest(msg) => msg@,
        }
    }

    /// The message of the error, whatever its kind.
    pub fn to_string(&self) -> (msg: String)
        ensures
            msg@ == self.spec_message(),
    {
        match self {
            ServiceError::InternalError(msg) => msg.clone(),
            ServiceError::NotFound(msg) => msg.clone(),
            ServiceError::AlreadyExists(msg) => msg.clone(),
            ServiceError::BadRequest(msg) => msg.clone(),
        }
    }
}

/// What an operation of the registry returns.
pub type ServiceResult<T> = Result<T, ServiceError>;

} // verus!
