//! The failures of a request, and the status and text each one is answered with.

use vstd::prelude::*;
use vstd::string::StringExecFns;

verus! {

/// Status sent when the requested object cannot be served.
pub const STATUS_NOT_FOUND: u16 = 404;

/// Status sent when a stored document turns out to be unusable.
pub const STATUS_INTERNAL_ERROR: u16 = 500;

/// What went wrong while serving one request. Each variant but `Rejected`
/// carries the textual description of the underlying failure.
#[derive(Debug, PartialEq, Eq)]
pub enum Error {
    /// The request path has no canonical form inside the site's root.
    Rejected,
    /// The store could not be reached.
    ConnectionError(String),
    /// The store reports that the key does not exist.
    NotFound(String),
    /// The store reported any other failure.
    S3Error(String),
    /// A stored document could not be served as asked.
    InternalError(String),
}

/// The mathematical value of an [`Error`]: its tag and the description it carries.
pub ghost enum ErrorView {
    Rejected,
    ConnectionError(Seq<char>),
    NotFound(Seq<char>),
    S3Error(Seq<char>),
    InternalError(Seq<char>),
}

impl View for Error {
    type V = ErrorView;

    open spec fn view(&self) -> ErrorView {
        match *self {
            Error::Rejected => ErrorView::Rejected,
            Error::ConnectionError(text) => ErrorView::ConnectionError(text@),
            Error::NotFound(text) => ErrorView::NotFound(text@),
            Error::S3Error(text) => ErrorView::S3Error(text@),
            Error::InternalError(text) => ErrorView::InternalError(text@),
        }
    }
}

/// The HTTP status that answers a failure: 500 for an internal error, 404 for
/// every other one. A store that cannot be reached is deliberately reported
/// like a missing object.
pub open spec fn status_of(error: ErrorView) -> u16 {
    match error {
        ErrorView::InternalError(_) => STATUS_INTERNAL_ERROR,
        _ => STATUS_NOT_FOUND,
    }
}

/// The text sent as the body of a failure response: the description of the
/// underlying failure, or a fixed sentence for a rejected path.
pub open spec fn description_of(error: ErrorView) -> Seq<char> {
    match error {
        ErrorView::Rejected => "Path not found"@,
        ErrorView::ConnectionError(text) => text,
        ErrorView::NotFound(text) => text,
        ErrorView::S3Error(text) => text,
        ErrorView::InternalError(text) => text,
    }
}

/// How a fetch from the store failed, as the store's client reports it.
#[derive(Clone, Copy, Debug, PartialEq, Eq, Structural)]
pub enum StoreFailure {
    /// The store answered that the key does not exist.
    NoSuchKey,
    /// The store answered with any other error.
    Service,
    /// The request could not be built and was never sent.
    Construction,
    /// No answer came in time.
    Timeout,
    /// The request could not be delivered, or no answer was received.
    Dispatch,
    /// An answer came that could not be read as one.
    Response,
    /// The object's bytes stopped coming before the end.
    Body,
}

/// The failure that a failed fetch is reported as: a missing key is not found,
/// a failure of transport is a connection error, and whatever else the store
/// or its client reports is a store error. The description is kept as it is.
pub open spec fn fetch_error(failure: StoreFailure, detail: Seq<char>) -> ErrorView {
    match failure {
        StoreFailure::NoSuchKey => ErrorView::NotFound(detail),
        StoreFailure::Timeout => ErrorView::ConnectionError(detail),
        StoreFailure::Dispatch => ErrorView::ConnectionError(detail),
        StoreFailure::Response => ErrorView::ConnectionError(detail),
        StoreFailure::Body => ErrorView::ConnectionError(detail),
        StoreFailure::Service => ErrorView::S3Error(detail),
        StoreFailure::Construction => ErrorView::S3Error(detail),
    }
}

impl Error {
    /// The failure that a failed fetch is reported as, with the description
    /// that the store's client gave of it.
    pub fn from_store(failure: StoreFailure, detail: String) -> (error: Error)
        ensures
            error@ == fetch_error(failure, detail@),
    {
        match failure {
            StoreFailure::NoSuchKey => Error::NotFound(detail),
            StoreFailure::Timeout | StoreFailure::Dispatch | StoreFailure::Response
            | StoreFailure::Body => Error::ConnectionError(detail),
            StoreFailure::Service | StoreFailure::Construction => Error::S3Error(detail),
        }
    }

    /// The HTTP status that answers this failure.
    pub fn status(&self) -> (code: u16)
        ensures
            code == status_of(self@),
    {
        match self {
            Error::InternalError(_) => STATUS_INTERNAL_ERROR,
            _ => STATUS_NOT_FOUND,
        }
    }

    /// The text sent as the body of the response to this failure.
    pub fn description(&self) -> (text: String)
        ensures
            text@ == description_of(self@),
    {
        match self {
            Error::Rejected => String::from_str("Path not found"),
            Error::ConnectionError(text) => text.clone(),
            Error::NotFound(text) => text.clone(),
            Error::S3Error(text) => text.clone(),
            Error::InternalError(text) => text.clone(),
        }
    }
}

} // verus!
