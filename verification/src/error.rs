//! What can go wrong when one of the remote APIs is asked.

use crate::json::{items_view, Json, JsonView};
use vstd::prelude::*;

verus! {

/// A failed call: the request did not get through, the answer could not be
/// read, or the API turned the request down.
#[derive(Debug, Clone, PartialEq, Eq)]
pub enum ServiceError {
    RequestError(String),
    ParseError(String),
    ApiError(String),
}

/// The mathematical value of a [`ServiceError`].
pub ghost enum ServiceErrorView {
    RequestError(Seq<char>),
    ParseError(Seq<char>),
    ApiError(Seq<char>),
}

impl View for ServiceError {
    type V = ServiceErrorView;

    open spec fn view(&self) -> ServiceErrorView {
        match self {
            ServiceError::RequestError(msg) => ServiceErrorView::RequestError(msg@),
            ServiceError::ParseError(msg) => ServiceErrorView::ParseError(msg@),
            ServiceError::ApiError(msg) => ServiceErrorView::ApiError(msg@),
        }
    }
}

impl ServiceErrorView {
    /// The line that describes the error: its kind, then its message.
    pub open spec fn message(self) -> Seq<char> {
        match self {
            ServiceErrorView::RequestError(msg) => "Request error: "@ + msg,
            ServiceErrorView::ParseError(msg) => "Parse error: "@ + msg,
            ServiceErrorView::ApiError(msg) => "API error: "@ + msg,
        }
    }
}

impl ServiceError {
    /// The line that describes the error: its kind, then its message.
    pub fn message(&self) -> (line: String)
        ensures
            line@ == self@.message(),
    {
        match self {
            ServiceError::RequestError(msg) => String::from_str("Request error: ").concat(
                msg.as_str(),
            ),
            ServiceError::ParseError(msg) => String::from_str("Parse error: ").concat(msg.as_str()),
            ServiceError::ApiError(msg) => String::from_str("API error: ").concat(msg.as_str()),
        }
    }
}

/// The value of a document or of the error in its place.
pub open spec fn outcome_view(outcome: Result<Json, ServiceError>) -> Result<
    JsonView,
    ServiceErrorView,
> {
    match outcome {
        Ok(doc) => Ok(doc@),
        Err(error) => Err(error@),
    }
}

/// The value of a list of items or of the error in its place.
pub open spec fn list_view(outcome: Result<Vec<Json>, ServiceError>) -> Result<
    Seq<JsonView>,
    ServiceErrorView,
> {
    match outcome {
        Ok(items) => Ok(items_view(items@)),
        Err(error) => Err(error@),
    }
}

/// The value of a text or of the error in its place.
pub open spec fn text_view(outcome: Result<String, ServiceError>) -> Result<
    Seq<char>,
    ServiceErrorView,
> {
    match outcome {
        Ok(text) => Ok(text@),
        Err(error) => Err(error@),
    }
}

/// The value of a step without a result or of the error in its place.
pub open spec fn unit_view(outcome: Result<(), ServiceError>) -> Result<(), ServiceErrorView> {
    match outcome {
        Ok(done) => Ok(()),
        Err(error) => Err(error@),
    }
}

} // verus!
