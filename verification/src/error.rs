//! Why an answer is not accepted, and why a request is not built.

use vstd::prelude::*;
use vstd::string::*;
use crate::json::json_error_text;
use crate::ticket::TicketError;

verus! {

/// Why the body of an answer was not accepted.
#[derive(Debug)]
pub enum ResponseError {
    /// The body is not JSON of the expected shape.
    Json(serde_json::Error),
    /// The answer has no `data`.
    MissingData,
    /// The answer names another user than the request.
    UnexpectedUserid,
    /// The answer has no ticket.
    MissingTicket,
    /// The ticket was issued to another user than the request names.
    TicketUserid,
    /// The answer has a ticket but no CSRF prevention token.
    MissingCsrfToken,
    /// The ticket field could not be read.
    Ticket(TicketError),
}

/// A `ResponseError` without what it carries from outside.
pub enum ResponseErrorKind {
    Json,
    MissingData,
    UnexpectedUserid,
    MissingTicket,
    TicketUserid,
    MissingCsrfToken,
    Ticket(TicketError),
}

impl View for ResponseError {
    type V = ResponseErrorKind;

    open spec fn view(&self) -> ResponseErrorKind {
        match self {
            ResponseError::Json(_) => ResponseErrorKind::Json,
            ResponseError::MissingData => ResponseErrorKind::MissingData,
            ResponseError::UnexpectedUserid => ResponseErrorKind::UnexpectedUserid,
            ResponseError::MissingTicket => ResponseErrorKind::MissingTicket,
            ResponseError::TicketUserid => ResponseErrorKind::TicketUserid,
            ResponseError::MissingCsrfToken => ResponseErrorKind::MissingCsrfToken,
            ResponseError::Ticket(e) => ResponseErrorKind::Ticket(*e),
        }
    }
}

impl ResponseErrorKind {
    /// What the error says. For an error that comes from outside, this is only
    /// how the message starts.
    pub open spec fn text(self) -> Seq<char> {
        match self {
            ResponseErrorKind::Json => "bad ticket response: "@,
            ResponseErrorKind::MissingData => "bad ticket response: missing response data"@,
            ResponseErrorKind::UnexpectedUserid =>
                "bad ticket response: ticket response contained unexpected userid"@,
            ResponseErrorKind::MissingTicket => "bad ticket response: missing ticket"@,
            ResponseErrorKind::TicketUserid =>
                "bad ticket response: returned ticket contained unexpected userid"@,
            ResponseErrorKind::MissingCsrfToken =>
                "bad ticket response: missing CSRFPreventionToken in ticket response"@,
            ResponseErrorKind::Ticket(e) => "failed to parse ticket in ticket response: "@
                + e.text(),
        }
    }
}

impl ResponseError {
    /// What the error says.
    pub fn message(&self) -> (r: String)
        ensures
            self@ is Json ==> r@.len() >= self@.text().len() && r@.take(self@.text().len() as int)
                == self@.text(),
            !(self@ is Json) ==> r@ == self@.text(),
    {
        match self {
            ResponseError::Json(e) => {
                let start = "bad ticket response: ".to_owned();
                let text = json_error_text(e);
                let r = start.concat(text.as_str());
                assert(r@.take("bad ticket response: "@.len() as int) =~= "bad ticket response: "@);
                r
            },
            ResponseError::MissingData => "bad ticket response: missing response data".to_owned(),
            ResponseError::UnexpectedUserid =>
                "bad ticket response: ticket response contained unexpected userid".to_owned(),
            ResponseError::MissingTicket => "bad ticket response: missing ticket".to_owned(),
            ResponseError::TicketUserid =>
                "bad ticket response: returned ticket contained unexpected userid".to_owned(),
            ResponseError::MissingCsrfToken =>
                "bad ticket response: missing CSRFPreventionToken in ticket response".to_owned(),
            ResponseError::Ticket(e) => "failed to parse ticket in ticket response: ".to_owned().concat(
                e.message().as_str(),
            ),
        }
    }
}

/// Why no request for a second factor was built.
#[derive(Debug)]
pub enum TfaError {
    /// The server did not offer this second factor.
    Unavailable,
    /// The request body could not be written. The encoder writes every body
    /// that this library hands to it, so no function here gives this error.
    Json(serde_json::Error),
}

impl View for TfaError {
    type V = TfaErrorKind;

    open spec fn view(&self) -> TfaErrorKind {
        match self {
            TfaError::Unavailable => TfaErrorKind::Unavailable,
            TfaError::Json(_) => TfaErrorKind::Json,
        }
    }
}

/// A `TfaError` without what it carries from outside.
pub enum TfaErrorKind {
    Unavailable,
    Json,
}

impl TfaErrorKind {
    /// What the error says. For an error that comes from outside, this is only
    /// how the message starts.
    pub open spec fn text(self) -> Seq<char> {
        match self {
            TfaErrorKind::Unavailable => "the chosen TFA method is not available"@,
            TfaErrorKind::Json => "a serialization error occurred: "@,
        }
    }
}

impl TfaError {
    /// What the error says.
    pub fn message(&self) -> (r: String)
        ensures
            self@ is Unavailable ==> r@ == self@.text(),
            self@ is Json ==> r@.len() >= self@.text().len() && r@.take(self@.text().len() as int)
                == self@.text(),
    {
        match self {
            TfaError::Unavailable => "the chosen TFA method is not available".to_owned(),
            TfaError::Json(e) => {
                let r = "a serialization error occurred: ".to_owned().concat(
                    json_error_text(e).as_str(),
                );
                assert(r@.take("a serialization error occurred: "@.len() as int)
                    =~= "a serialization error occurred: "@);
                r
            },
        }
    }
}

} // verus!
