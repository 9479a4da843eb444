//! The services a storage provider offers, the errors they report and the
//! model of what a provider holds.

use axum::http::StatusCode;
use vstd::prelude::*;
use vstd::std_specs::convert::FromSpecImpl;
use vstd::string::to_string_from_display_ensures;

use crate::trusted::{is_row_not_found, row_not_found, status_code, status_number};

pub mod fulfillment;
pub mod lifecycle;
pub mod line_item;
pub mod order;
pub mod product;
pub mod store;

pub use store::{attached, numbered, Request, Store};

verus! {

/// Why a service call failed.
#[derive(Debug, PartialEq, Eq)]
pub enum ServiceError {
    /// The request cannot be met as things stand: an illegal status
    /// transition, a fulfillment that no longer takes line items, an
    /// identifier nothing is stored under. Asking again changes nothing.
    BadInput(String),
    /// No product is stored under the identifier.
    ProductNotFound(String),
    /// The storage itself failed, or answered what it never should.
    ProviderFailure(String),
}

/// A [`ServiceError`] with its text as a sequence of characters.
pub enum ServiceErrorView {
    BadInput(Seq<char>),
    ProductNotFound(Seq<char>),
    ProviderFailure(Seq<char>),
}

impl ServiceErrorView {
    /// The error written out: its kind, then what it says.
    pub open spec fn message(self) -> Seq<char> {
        match self {
            ServiceErrorView::BadInput(detail) => "Bad input - "@ + detail,
            ServiceErrorView::ProductNotFound(detail) => "Product not found - "@ + detail,
            ServiceErrorView::ProviderFailure(detail) => "Provider error - "@ + detail,
        }
    }

    /// The number of the HTTP status that reports the error.
    pub open spec fn status(self) -> u16 {
        match self {
            ServiceErrorView::BadInput(_) => 400,
            ServiceErrorView::ProductNotFound(_) => 404,
            ServiceErrorView::ProviderFailure(_) => 500,
        }
    }
}

impl View for ServiceError {
    type V = ServiceErrorView;

    open spec fn view(&self) -> ServiceErrorView {
        match self {
            ServiceError::BadInput(detail) => ServiceErrorView::BadInput(detail@),
            ServiceError::ProductNotFound(detail) => ServiceErrorView::ProductNotFound(detail@),
            ServiceError::ProviderFailure(detail) => ServiceErrorView::ProviderFailure(detail@),
        }
    }
}

/// What every provider has: a model of what it holds, and whether its
/// storage answers at the moment. A call on a provider whose storage does
/// not answer fails and changes nothing.
pub trait Provider: View<V = Store> {
    /// Whether the storage answers.
    spec fn available(&self) -> bool;
}

/// A result of a service call with the text of its error as a sequence of
/// characters.
pub open spec fn outcome_view<T>(outcome: Result<T, ServiceError>) -> Result<T, ServiceErrorView> {
    match outcome {
        Ok(value) => Ok(value),
        Err(error) => Err(error@),
    }
}

impl ServiceError {
    /// Whether `self` is what a failure of the storage is reported as: a
    /// missing row as bad input, anything else as a failure of the provider
    /// with the failure's own text.
    pub open spec fn reports(self, failure: sqlx::Error) -> bool {
        if row_not_found(failure) {
            self@ == ServiceErrorView::BadInput("sql row not found"@)
        } else {
            &&& self matches ServiceError::ProviderFailure(text)
            &&& to_string_from_display_ensures::<sqlx::Error>(&failure, text)
        }
    }

    /// The error written out: its kind, then what it says.
    pub fn message(&self) -> (text: String)
        ensures
            text@ == self@.message(),
    {
        match self {
            ServiceError::BadInput(detail) => "Bad input - ".to_string().concat(detail.as_str()),
            ServiceError::ProductNotFound(detail) => "Product not found - ".to_string().concat(
                detail.as_str(),
            ),
            ServiceError::ProviderFailure(detail) => "Provider error - ".to_string().concat(
                detail.as_str(),
            ),
        }
    }
}

impl From<sqlx::Error> for ServiceError {
    /// Reports a failure of the storage.
    fn from(value: sqlx::Error) -> (error: ServiceError)
        ensures
            error.reports(value),
    {
        if is_row_not_found(&value) {
            ServiceError::BadInput("sql row not found".to_string())
        } else {
            ServiceError::ProviderFailure(value.to_string())
        }
    }
}

/// The conversion is stated on `from` itself: the text of an error is known
/// by its characters only.
impl FromSpecImpl<sqlx::Error> for ServiceError {
    open spec fn obeys_from_spec() -> bool {
        false
    }

    open spec fn from_spec(value: sqlx::Error) -> ServiceError {
        arbitrary()
    }
}

impl From<ServiceError> for StatusCode {
    /// The HTTP status that reports the error.
    fn from(value: ServiceError) -> (status: StatusCode)
        ensures
            status_number(status) == value@.status(),
    {
        match value {
            ServiceError::BadInput(_) => status_code(400),
            ServiceError::ProductNotFound(_) => status_code(404),
            ServiceError::ProviderFailure(_) => status_code(500),
        }
    }
}

/// The conversion is stated on `from` itself: a status code is known by its
/// number only.
impl FromSpecImpl<ServiceError> for StatusCode {
    open spec fn obeys_from_spec() -> bool {
        false
    }

    open spec fn from_spec(value: ServiceError) -> StatusCode {
        arbitrary()
    }
}

} // verus!
