//! The single error channel of the client: every way a request can fail,
//! and the one line of text that the user is shown for it.

use crate::text::{decimal, to_decimal};
use vstd::prelude::*;
use vstd::string::*;

verus! {

/// A failed request as mathematics.
pub enum RequestErrorView {
    Validation(Seq<char>),
    Serialization(Seq<char>),
    Transport(Seq<char>),
    HttpStatus(nat, Seq<char>),
    Deserialization(Seq<char>),
}

/// Why a request failed. Each failure is of exactly one kind.
#[derive(Debug, Clone, PartialEq)]
pub enum RequestError {
    /// The input was turned down before any request was made. Holds the
    /// message for the user.
    Validation(String),
    /// The request could not be put into its wire form. Holds the detail.
    Serialization(String),
    /// The request did not reach the backend, or no response came back.
    /// Holds the detail.
    Transport(String),
    /// The backend answered with a status outside the success range. Holds
    /// the status and the text of the response body.
    HttpStatus(u16, String),
    /// The backend answered with success, but the body was not of the
    /// expected shape. Holds the detail.
    Deserialization(String),
}

impl View for RequestError {
    type V = RequestErrorView;

    open spec fn view(&self) -> RequestErrorView {
        match self {
            RequestError::Validation(message) => RequestErrorView::Validation(message@),
            RequestError::Serialization(detail) => RequestErrorView::Serialization(detail@),
            RequestError::Transport(detail) => RequestErrorView::Transport(detail@),
            RequestError::HttpStatus(status, body) => RequestErrorView::HttpStatus(
                *status as nat,
                body@,
            ),
            RequestError::Deserialization(detail) => RequestErrorView::Deserialization(detail@),
        }
    }
}

/// The line shown for a request that failed before or after the exchange
/// with the backend: `Request failed: ` and the detail.
pub open spec fn request_failed_text(detail: Seq<char>) -> Seq<char> {
    "Request failed: "@ + detail
}

/// The line shown for a response with a failure status: `HTTP `, the status
/// in decimal, `: ` and the body as the backend sent it.
pub open spec fn http_status_text(status: nat, body: Seq<char>) -> Seq<char> {
    "HTTP "@ + decimal(status) + ": "@ + body
}

/// The line shown to the user for a failure.
pub open spec fn human_readable(error: RequestErrorView) -> Seq<char> {
    match error {
        RequestErrorView::Validation(message) => message,
        RequestErrorView::Serialization(detail) => request_failed_text(detail),
        RequestErrorView::Transport(detail) => request_failed_text(detail),
        RequestErrorView::HttpStatus(status, body) => http_status_text(status, body),
        RequestErrorView::Deserialization(detail) => request_failed_text(detail),
    }
}

fn request_failed(detail: &str) -> (line: String)
    ensures
        line@ == request_failed_text(detail@),
{
    let mut line = String::from_str("Request failed: ");
    line.append(detail);
    line
}

impl RequestError {
    /// Renders the failure as the one line that the user is shown.
    pub fn human_readable(&self) -> (line: String)
        ensures
            line@ == human_readable(self@),
    {
        match self {
            RequestError::Validation(message) => message.clone(),
            RequestError::Serialization(detail) => request_failed(detail.as_str()),
            RequestError::Transport(detail) => request_failed(detail.as_str()),
            RequestError::HttpStatus(status, body) => {
                let mut line = String::from_str("HTTP ");
                let numeral = to_decimal(*status as u64);
                line.append(numeral.as_str());
                line.append(": ");
                line.append(body.as_str());
                line
            },
            RequestError::Deserialization(detail) => request_failed(detail.as_str()),
        }
    }
}

} // verus!
