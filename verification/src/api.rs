//! What goes to the ticket endpoint and what comes back, as JSON.
//!
//! A request is a JSON object with the members `username` and `password`, the
//! member `new-format` where the compatibility flag is set, and the member
//! `tfa-challenge` in the answer to a challenge. An answer is a JSON object whose
//! member `data` holds `username` and, where they are present, `ticket`,
//! `CSRFPreventionToken` and `clustername`.

use vstd::prelude::*;
use vstd::string::*;
use vstd::utf8::encode_utf8;
use crate::error::{ResponseError, ResponseErrorKind};
use crate::json::{
    json_as_str, json_bool, json_decoded, json_encoded, json_error, json_get, json_insert,
    json_is_null, json_is_object, json_model, json_object, json_string, json_to_string,
    parse_json, Json,
};
use crate::json_fields::read_optional_str;
use crate::text::opt_text;

verus! {

/// The JSON object that asks for a ticket. `new-format` is only present when it
/// is true, `tfa-challenge` only in the answer to a challenge.
pub open spec fn ticket_request_json(
    username: Seq<char>,
    password: Seq<char>,
    new_format: bool,
    tfa_challenge: Option<Seq<char>>,
) -> Json {
    let base = Json::empty_object().with_field("username"@, Json::String(username)).with_field(
        "password"@,
        Json::String(password),
    );
    let flagged = if new_format {
        base.with_field("new-format"@, Json::Bool(true))
    } else {
        base
    };
    match tfa_challenge {
        Some(t) => flagged.with_field("tfa-challenge"@, Json::String(t)),
        None => flagged,
    }
}

/// The JSON text of a ticket request: the compact text of the object that asks
/// for the ticket.
pub open spec fn ticket_request_text(
    username: Seq<char>,
    password: Seq<char>,
    new_format: bool,
    tfa_challenge: Option<Seq<char>>,
) -> Seq<char> {
    json_encoded(ticket_request_json(username, password, new_format, tfa_challenge))
}

/// The bytes of the request body: the JSON text in UTF-8.
pub open spec fn ticket_request_body(
    username: Seq<char>,
    password: Seq<char>,
    new_format: bool,
    tfa_challenge: Option<Seq<char>>,
) -> Seq<u8> {
    encode_utf8(ticket_request_text(username, password, new_format, tfa_challenge))
}

/// Writes the JSON text of a ticket request: the object with the user name, the
/// password, the compatibility flag where it is set and the partial ticket where
/// there is one is handed to the encoder, and the encoder's text is handed back.
/// This always succeeds.
pub(crate) fn encode_ticket_request(
    username: &str,
    password: &str,
    new_format: bool,
    tfa_challenge: Option<&str>,
) -> (r: Result<String, serde_json::Error>)
    ensures
        r matches Ok(s) && s@ == ticket_request_text(
            username@,
            password@,
            new_format,
            match tfa_challenge {
                Some(t) => Some(t@),
                None => None,
            },
        ),
{
    let mut obj = json_object();
    json_insert(&mut obj, "username".to_owned(), json_string(username.to_owned()));
    json_insert(&mut obj, "password".to_owned(), json_string(password.to_owned()));
    if new_format {
        json_insert(&mut obj, "new-format".to_owned(), json_bool(true));
    }
    match tfa_challenge {
        Some(t) => {
            json_insert(&mut obj, "tfa-challenge".to_owned(), json_string(t.to_owned()));
        },
        None => {},
    }
    json_to_string(&obj)
}

/// What the `data` of an answer from the ticket endpoint holds.
#[derive(Debug)]
pub struct CreateTicketResponse {
    /// The user id, with its realm.
    pub username: String,
    pub ticket: Option<String>,
    pub csrfprevention_token: Option<String>,
    pub clustername: Option<String>,
}

pub struct CreateTicketResponseView {
    pub username: Seq<char>,
    pub ticket: Option<Seq<char>>,
    pub csrfprevention_token: Option<Seq<char>>,
    pub clustername: Option<Seq<char>>,
}

impl View for CreateTicketResponse {
    type V = CreateTicketResponseView;

    open spec fn view(&self) -> CreateTicketResponseView {
        CreateTicketResponseView {
            username: self.username@,
            ticket: opt_text(self.ticket),
            csrfprevention_token: opt_text(self.csrfprevention_token),
            clustername: opt_text(self.clustername),
        }
    }
}

/// The `data` object of an answer, or `None` if it has another shape: it is an
/// object, `username` is a string, and `ticket`, `CSRFPreventionToken` and
/// `clustername` are strings where they are present.
pub open spec fn ticket_data_of(d: Json) -> Option<CreateTicketResponseView> {
    if !(d is Object) {
        None
    } else {
        match (
            d.field("username"@),
            d.optional_str("ticket"@),
            d.optional_str("CSRFPreventionToken"@),
            d.optional_str("clustername"@),
        ) {
            (Some(Json::String(username)), Some(ticket), Some(csrfprevention_token), Some(clustername)) => Some(
                CreateTicketResponseView { username, ticket, csrfprevention_token, clustername },
            ),
            _ => None,
        }
    }
}

/// The envelope of an answer: an object whose `data`, where it is present and
/// not `null`, is the data object. The outer `None` stands for another shape.
pub open spec fn envelope_of(j: Json) -> Option<Option<CreateTicketResponseView>> {
    if !(j is Object) {
        None
    } else {
        match j.field("data"@) {
            None => Some(None),
            Some(d) => if d is Null {
                Some(None)
            } else {
                match ticket_data_of(d) {
                    Some(data) => Some(Some(data)),
                    None => None,
                }
            },
        }
    }
}

impl CreateTicketResponse {
    /// Reads the `data` object of an answer.
    pub fn from_json(d: &serde_json::Value) -> (r: Option<CreateTicketResponse>)
        ensures
            match r {
                Some(x) => ticket_data_of(json_model(*d)) == Some(x@),
                None => ticket_data_of(json_model(*d)) is None,
            },
    {
        if !json_is_object(d) {
            return None;
        }
        let username = match json_get(d, "username") {
            None => {
                return None;
            },
            Some(x) => match json_as_str(x) {
                Some(s) => s.to_owned(),
                None => {
                    return None;
                },
            },
        };
        let ticket = match read_optional_str(d, "ticket") {
            Some(t) => t,
            None => {
                return None;
            },
        };
        let csrfprevention_token = match read_optional_str(d, "CSRFPreventionToken") {
            Some(t) => t,
            None => {
                return None;
            },
        };
        let clustername = match read_optional_str(d, "clustername") {
            Some(t) => t,
            None => {
                return None;
            },
        };
        Some(CreateTicketResponse { username, ticket, csrfprevention_token, clustername })
    }

    /// Reads the envelope of an answer.
    pub fn from_envelope(j: &serde_json::Value) -> (r: Option<Option<CreateTicketResponse>>)
        ensures
            match r {
                Some(Some(x)) => envelope_of(json_model(*j)) == Some(Some(x@)),
                Some(None) => envelope_of(json_model(*j)) == Some(None::<CreateTicketResponseView>),
                None => envelope_of(json_model(*j)) is None,
            },
    {
        if !json_is_object(j) {
            return None;
        }
        match json_get(j, "data") {
            None => Some(None),
            Some(d) => {
                if json_is_null(d) {
                    Some(None)
                } else {
                    match CreateTicketResponse::from_json(d) {
                        Some(data) => Some(Some(data)),
                        None => None,
                    }
                }
            },
        }
    }
}

/// What the body of an answer holds, as far as its shape goes.
pub open spec fn decoded_answer(body: Seq<u8>) -> Option<Option<CreateTicketResponseView>> {
    match json_decoded(body) {
        Some(j) => envelope_of(j),
        None => None,
    }
}

/// What the parser's result means for an answer. The parser's error is handed
/// on as it is, inside `ResponseError::Json`. A value of another shape than an
/// answer gives an error of the library's own in its place.
pub fn read_answer(parsed: Result<serde_json::Value, serde_json::Error>) -> (r: Result<
    Option<CreateTicketResponse>,
    ResponseError,
>)
    ensures
        match parsed {
            Err(e) => r matches Err(ResponseError::Json(carried)) && carried == e,
            Ok(j) => match r {
                Ok(Some(x)) => envelope_of(json_model(j)) == Some(Some(x@)),
                Ok(None) => envelope_of(json_model(j)) == Some(None::<CreateTicketResponseView>),
                Err(e) => envelope_of(json_model(j)) is None && e@ == ResponseErrorKind::Json,
            },
        },
{
    match parsed {
        Err(e) => Err(ResponseError::Json(e)),
        Ok(j) => match CreateTicketResponse::from_envelope(&j) {
            Some(data) => Ok(data),
            None => Err(ResponseError::Json(json_error("unexpected shape of the ticket response"))),
        },
    }
}

/// Reads the body of an answer from the ticket endpoint. A body that is not
/// JSON, or not of the expected shape, gives `ResponseError::Json`; for a body
/// that is not JSON, it carries the parser's error.
pub fn decode_answer(body: &[u8]) -> (r: Result<Option<CreateTicketResponse>, ResponseError>)
    ensures
        match r {
            Ok(Some(x)) => decoded_answer(body@) == Some(Some(x@)),
            Ok(None) => decoded_answer(body@) == Some(None::<CreateTicketResponseView>),
            Err(e) => decoded_answer(body@) is None && e@ == ResponseErrorKind::Json,
        },
{
    read_answer(parse_json(body))
}

} // verus!
