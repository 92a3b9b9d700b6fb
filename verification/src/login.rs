//! The ticket exchange: requests to the ticket endpoint and what its answers mean.
//!
//! Nothing here talks to a server. A [`Login`] or a [`SecondFactorChallenge`]
//! builds the [`Request`] to send, and reads the body of the answer.

use vstd::prelude::*;
use vstd::string::*;
use vstd::utf8::encode_utf8;
use crate::api::{
    decode_answer, decoded_answer, encode_ticket_request, ticket_request_body,
    CreateTicketResponse, CreateTicketResponseView,
};
use crate::error::{ResponseError, ResponseErrorKind, TfaError, TfaErrorKind};
use crate::text::{chars_of, opt_text, str_eq};
use crate::tfa::{
    parse_ticket_response, TfaChallenge, TfaChallengeView, TicketResponse, TicketResponseView,
};
use crate::ticket::{parse_ticket, Ticket, TicketError, TicketView};

verus! {

/// The name of the header that carries the CSRF prevention token.
pub const CSRF_HEADER_NAME: &'static str = "CSRFPreventionToken";

/// A request for the ticket endpoint. Its body is always JSON.
#[derive(Clone, Debug)]
pub struct Request {
    /// Always `POST`.
    pub method: &'static str,
    pub url: String,
    /// Always `application/json`.
    pub content_type: &'static str,
    /// The value of the `Content-length` header.
    pub content_length: usize,
    pub body: Vec<u8>,
}

pub struct RequestView {
    pub method: Seq<char>,
    pub url: Seq<char>,
    pub content_type: Seq<char>,
    pub content_length: nat,
    pub body: Seq<u8>,
}

impl View for Request {
    type V = RequestView;

    open spec fn view(&self) -> RequestView {
        RequestView {
            method: self.method@,
            url: self.url@,
            content_type: self.content_type@,
            content_length: self.content_length as nat,
            body: self.body@,
        }
    }
}

/// The request that posts `body` to the ticket endpoint of `api_url`.
pub open spec fn ticket_request(api_url: Seq<char>, body: Seq<u8>) -> RequestView {
    RequestView {
        method: "POST"@,
        url: api_url + "/api2/json/access/ticket"@,
        content_type: "application/json"@,
        content_length: body.len(),
        body,
    }
}

impl Request {
    /// The request that posts the JSON text `body` to the ticket endpoint.
    pub fn for_ticket(api_url: &str, body: String) -> (r: Request)
        ensures
            r@ == ticket_request(api_url@, encode_utf8(body@)),
    {
        let bytes = body.as_str().as_bytes_vec();
        Request {
            method: "POST",
            url: api_url.to_owned().concat("/api2/json/access/ticket"),
            content_type: "application/json",
            content_length: bytes.len(),
            body: bytes,
        }
    }
}

/// A URL without the slashes at its end.
pub open spec fn normalized_url(s: Seq<char>) -> Seq<char>
    decreases s.len(),
{
    if s.len() > 0 && s.last() == '/' {
        normalized_url(s.drop_last())
    } else {
        s
    }
}

/// Strips the slashes at the end of a URL.
pub fn normalize_url(api_url: String) -> (r: String)
    ensures
        r@ == normalized_url(api_url@),
{
    let v = chars_of(api_url.as_str());
    let mut n: usize = v.len();
    assert(v@.take(n as int) =~= v@);
    while n > 0 && v[n - 1] == '/'
        invariant
            n <= v.len(),
            normalized_url(v@) == normalized_url(v@.take(n as int)),
        decreases n,
    {
        assert(v@.take(n as int).drop_last() =~= v@.take(n - 1));
        n -= 1;
    }
    api_url.as_str().substring_char(0, n).to_owned()
}

/// A normalized URL does not end in a slash, and normalizing it again changes
/// nothing.
pub proof fn lemma_normalized_url(s: Seq<char>)
    ensures
        normalized_url(s).len() > 0 ==> normalized_url(s).last() != '/',
        normalized_url(normalized_url(s)) == normalized_url(s),
        normalized_url(s).len() <= s.len(),
        normalized_url(s) == s.take(normalized_url(s).len() as int),
    decreases s.len(),
{
    if s.len() > 0 && s.last() == '/' {
        lemma_normalized_url(s.drop_last());
        assert(s.drop_last().take(normalized_url(s).len() as int) =~= s.take(
            normalized_url(s).len() as int,
        ));
    } else {
        assert(s.take(s.len() as int) =~= s);
    }
}

/// A session: the ticket and what goes with it.
#[derive(Debug)]
pub struct Authentication {
    pub api_url: String,
    pub userid: String,
    pub ticket: Ticket,
    pub clustername: Option<String>,
    pub csrfprevention_token: String,
}

pub struct AuthenticationView {
    pub api_url: Seq<char>,
    pub userid: Seq<char>,
    pub ticket: TicketView,
    pub clustername: Option<Seq<char>>,
    pub csrfprevention_token: Seq<char>,
}

impl View for Authentication {
    type V = AuthenticationView;

    open spec fn view(&self) -> AuthenticationView {
        AuthenticationView {
            api_url: self.api_url@,
            userid: self.userid@,
            ticket: self.ticket@,
            clustername: opt_text(self.clustername),
            csrfprevention_token: self.csrfprevention_token@,
        }
    }
}

impl Clone for Authentication {
    fn clone(&self) -> (r: Self)
        ensures
            r@ == self@,
    {
        Authentication {
            api_url: self.api_url.clone(),
            userid: self.userid.clone(),
            ticket: self.ticket.clone(),
            clustername: match &self.clustername {
                Some(s) => Some(s.clone()),
                None => None,
            },
            csrfprevention_token: self.csrfprevention_token.clone(),
        }
    }
}

/// A login that waits for its second factor. One of the `respond_*` methods
/// builds the request that answers the challenge, and [`response`]
/// (SecondFactorChallenge::response) reads the answer to that.
#[derive(Debug)]
pub struct SecondFactorChallenge {
    api_url: String,
    pve_compat: bool,
    userid: String,
    ticket: String,
    pub challenge: TfaChallenge,
}

pub struct SecondFactorChallengeView {
    pub api_url: Seq<char>,
    pub pve_compat: bool,
    pub userid: Seq<char>,
    pub ticket: Seq<char>,
    pub challenge: TfaChallengeView,
}

impl View for SecondFactorChallenge {
    type V = SecondFactorChallengeView;

    closed spec fn view(&self) -> SecondFactorChallengeView {
        SecondFactorChallengeView {
            api_url: self.api_url@,
            pve_compat: self.pve_compat,
            userid: self.userid@,
            ticket: self.ticket@,
            challenge: self.challenge@,
        }
    }
}

impl Clone for SecondFactorChallenge {
    fn clone(&self) -> (r: Self)
        ensures
            r@ == self@,
    {
        SecondFactorChallenge {
            api_url: self.api_url.clone(),
            pve_compat: self.pve_compat,
            userid: self.userid.clone(),
            ticket: self.ticket.clone(),
            challenge: self.challenge.clone(),
        }
    }
}

/// The outcome of a login: a session, or a challenge for a second factor.
#[derive(Debug)]
pub enum TicketResult {
    Full(Authentication),
    TfaRequired(SecondFactorChallenge),
}

pub enum TicketResultView {
    Full(AuthenticationView),
    TfaRequired(SecondFactorChallengeView),
}

impl View for TicketResult {
    type V = TicketResultView;

    open spec fn view(&self) -> TicketResultView {
        match self {
            TicketResult::Full(a) => TicketResultView::Full(a@),
            TicketResult::TfaRequired(c) => TicketResultView::TfaRequired(c@),
        }
    }
}

impl Clone for TicketResult {
    fn clone(&self) -> (r: Self)
        ensures
            r@ == self@,
    {
        match self {
            TicketResult::Full(a) => TicketResult::Full(a.clone()),
            TicketResult::TfaRequired(c) => TicketResult::TfaRequired(c.clone()),
        }
    }
}

/// The session that an answer with a full ticket grants to `userid`, or why it
/// grants none: the answer must name `userid`, hold a ticket issued to `userid`,
/// and hold a CSRF prevention token.
pub open spec fn session_of(
    api_url: Seq<char>,
    userid: Seq<char>,
    data: Option<CreateTicketResponseView>,
) -> Result<AuthenticationView, ResponseErrorKind> {
    match data {
        None => Err(ResponseErrorKind::MissingData),
        Some(d) => if d.username != userid {
            Err(ResponseErrorKind::UnexpectedUserid)
        } else {
            match d.ticket {
                None => Err(ResponseErrorKind::MissingTicket),
                Some(t) => match parse_ticket(t) {
                    Err(e) => Err(ResponseErrorKind::Ticket(e)),
                    Ok(ticket) => full_session(api_url, userid, d, ticket),
                },
            }
        },
    }
}

/// The last two checks on a full ticket: it was issued to `userid`, and the
/// answer holds a CSRF prevention token.
pub open spec fn full_session(
    api_url: Seq<char>,
    userid: Seq<char>,
    d: CreateTicketResponseView,
    ticket: TicketView,
) -> Result<AuthenticationView, ResponseErrorKind> {
    if ticket.userid != userid {
        Err(ResponseErrorKind::TicketUserid)
    } else {
        match d.csrfprevention_token {
            None => Err(ResponseErrorKind::MissingCsrfToken),
            Some(token) => Ok(
                AuthenticationView {
                    api_url,
                    userid: d.username,
                    ticket,
                    clustername: d.clustername,
                    csrfprevention_token: token,
                },
            ),
        }
    }
}

pub struct LoginView {
    pub api_url: Seq<char>,
    pub userid: Seq<char>,
    pub password: Seq<char>,
    pub pve_compat: bool,
}

/// The request of a login: the user id and the password go into the body, with
/// the compatibility flag where it is set.
pub open spec fn login_request(l: LoginView) -> RequestView {
    ticket_request(l.api_url, ticket_request_body(l.userid, l.password, l.pve_compat, None))
}

/// What an answer means to a login.
pub open spec fn login_outcome(l: LoginView, data: Option<CreateTicketResponseView>) -> Result<
    TicketResultView,
    ResponseErrorKind,
> {
    match data {
        None => Err(ResponseErrorKind::MissingData),
        Some(d) => if d.username != l.userid {
            Err(ResponseErrorKind::UnexpectedUserid)
        } else {
            match d.ticket {
                None => Err(ResponseErrorKind::MissingTicket),
                Some(t) => match parse_ticket_response(t) {
                    Err(e) => Err(ResponseErrorKind::Ticket(e)),
                    Ok(TicketResponseView::Full(ticket)) => match full_session(
                        l.api_url,
                        l.userid,
                        d,
                        ticket,
                    ) {
                        Ok(a) => Ok(TicketResultView::Full(a)),
                        Err(e) => Err(e),
                    },
                    Ok(TicketResponseView::Tfa(partial, challenge)) => Ok(
                        TicketResultView::TfaRequired(
                            SecondFactorChallengeView {
                                api_url: l.api_url,
                                pve_compat: l.pve_compat,
                                userid: d.username,
                                ticket: partial,
                                challenge,
                            },
                        ),
                    ),
                },
            }
        },
    }
}

/// The result of reading an answer, by its view.
pub open spec fn outcome_view(r: Result<TicketResult, ResponseError>) -> Result<
    TicketResultView,
    ResponseErrorKind,
> {
    match r {
        Ok(t) => Ok(t@),
        Err(e) => Err(e@),
    }
}

pub open spec fn session_view(r: Result<Authentication, ResponseError>) -> Result<
    AuthenticationView,
    ResponseErrorKind,
> {
    match r {
        Ok(a) => Ok(a@),
        Err(e) => Err(e@),
    }
}

/// Builds the session for a full ticket, after the two last checks.
fn finish_session(
    api_url: &String,
    userid: &String,
    username: String,
    csrfprevention_token: Option<String>,
    clustername: Option<String>,
    ticket: Ticket,
) -> (r: Result<Authentication, ResponseError>)
    ensures
        session_view(r) == full_session(
            api_url@,
            userid@,
            CreateTicketResponseView {
                username: username@,
                ticket: None,
                csrfprevention_token: opt_text(csrfprevention_token),
                clustername: opt_text(clustername),
            },
            ticket@,
        ),
{
    if !str_eq(ticket.userid(), userid.as_str()) {
        return Err(ResponseError::TicketUserid);
    }
    match csrfprevention_token {
        None => Err(ResponseError::MissingCsrfToken),
        Some(token) => Ok(
            Authentication {
                api_url: api_url.clone(),
                userid: username,
                ticket,
                clustername,
                csrfprevention_token: token,
            },
        ),
    }
}

/// Builds the request for a fresh ticket, from a password or from a ticket that
/// is still valid.
///
/// Servers of the product `PVE` up to version 7 need the compatibility flag to
/// answer with a second-factor challenge.
#[derive(Debug)]
pub struct Login {
    api_url: String,
    userid: String,
    password: String,
    pve_compat: bool,
}

impl View for Login {
    type V = LoginView;

    closed spec fn view(&self) -> LoginView {
        LoginView {
            api_url: self.api_url@,
            userid: self.userid@,
            password: self.password@,
            pve_compat: self.pve_compat,
        }
    }
}

impl Login {
    /// A login that renews the ticket given as a string.
    pub fn renew(api_url: String, ticket: String) -> (r: Result<Login, TicketError>)
        ensures
            match r {
                Ok(l) => parse_ticket(ticket@) matches Ok(t) && l@ == (LoginView {
                    api_url: normalized_url(api_url@),
                    userid: t.userid,
                    password: ticket@,
                    pve_compat: t.product == "PVE"@,
                }),
                Err(e) => parse_ticket(ticket@) == Err::<TicketView, TicketError>(e),
            },
    {
        match Ticket::parse(ticket.as_str()) {
            Ok(t) => Ok(Login::renew_ticket(api_url, t)),
            Err(e) => Err(e),
        }
    }

    /// Switches to another URL of the same server. The URL is taken as it is.
    pub fn set_url(&mut self, api_url: String)
        ensures
            final(self)@ == (LoginView { api_url: api_url@, ..old(self)@ }),
    {
        self.api_url = api_url;
    }

    /// A login that renews a parsed ticket.
    pub fn renew_ticket(api_url: String, ticket: Ticket) -> (r: Login)
        ensures
            r@ == (LoginView {
                api_url: normalized_url(api_url@),
                userid: ticket@.userid,
                password: ticket@.raw,
                pve_compat: ticket@.product == "PVE"@,
            }),
    {
        Login {
            api_url: normalize_url(api_url),
            pve_compat: str_eq(ticket.product(), "PVE"),
            userid: ticket.userid().to_owned(),
            password: ticket.into_string(),
        }
    }

    /// A login with a user id and a password.
    pub fn new(api_url: String, userid: String, password: String) -> (r: Login)
        ensures
            r@ == (LoginView {
                api_url: normalized_url(api_url@),
                userid: userid@,
                password: password@,
                pve_compat: false,
            }),
    {
        Login { api_url: normalize_url(api_url), userid, password, pve_compat: false }
    }

    /// Sets the compatibility flag.
    pub fn pve_compatibility(self, compatibility: bool) -> (r: Login)
        ensures
            r@ == (LoginView { pve_compat: compatibility, ..self@ }),
    {
        let mut login = self;
        login.pve_compat = compatibility;
        login
    }

    /// The request to send: it posts the user id and the password, or the
    /// ticket in its place, to the ticket endpoint. It is always built.
    pub fn request(&self) -> (r: Result<Request, serde_json::Error>)
        ensures
            r matches Ok(req) && req@ == login_request(self@),
    {
        match encode_ticket_request(
            self.userid.as_str(),
            self.password.as_str(),
            self.pve_compat,
            None,
        ) {
            Ok(body) => Ok(Request::for_ticket(self.api_url.as_str(), body)),
            Err(e) => Err(e),
        }
    }

    /// Reads the body of the answer: a session, a second-factor challenge, or
    /// the reason why it is neither. An answer that names another user than
    /// this login is always refused.
    pub fn response(&self, body: &[u8]) -> (r: Result<TicketResult, ResponseError>)
        ensures
            outcome_view(r) == match decoded_answer(body@) {
                Some(data) => login_outcome(self@, data),
                None => Err(ResponseErrorKind::Json),
            },
            decoded_answer(body@) matches Some(Some(d)) && d.username != self@.userid ==> (r matches Err(
                e,
            ) && e@ == ResponseErrorKind::UnexpectedUserid),
    {
        match decode_answer(body) {
            Ok(data) => self.check_response(data),
            Err(e) => Err(e),
        }
    }

    /// What the decoded answer means to this login.
    pub fn check_response(&self, data: Option<CreateTicketResponse>) -> (r: Result<
        TicketResult,
        ResponseError,
    >)
        ensures
            outcome_view(r) == login_outcome(
                self@,
                match data {
                    Some(d) => Some(d@),
                    None => None,
                },
            ),
            data matches Some(d) && d.username@ != self@.userid ==> (r matches Err(e) && e@
                == ResponseErrorKind::UnexpectedUserid),
    {
        let d = match data {
            Some(d) => d,
            None => {
                return Err(ResponseError::MissingData);
            },
        };
        if !str_eq(d.username.as_str(), self.userid.as_str()) {
            return Err(ResponseError::UnexpectedUserid);
        }
        let raw = match d.ticket {
            Some(t) => t,
            None => {
                return Err(ResponseError::MissingTicket);
            },
        };
        match TicketResponse::parse(raw.as_str()) {
            Err(e) => Err(ResponseError::Ticket(e)),
            Ok(TicketResponse::Full(ticket)) => {
                match finish_session(
                    &self.api_url,
                    &self.userid,
                    d.username,
                    d.csrfprevention_token,
                    d.clustername,
                    ticket,
                ) {
                    Ok(a) => Ok(TicketResult::Full(a)),
                    Err(e) => Err(e),
                }
            },
            Ok(TicketResponse::Tfa(partial, challenge)) => Ok(
                TicketResult::TfaRequired(
                    SecondFactorChallenge {
                        api_url: self.api_url.clone(),
                        pve_compat: self.pve_compat,
                        userid: d.username,
                        ticket: partial,
                        challenge,
                    },
                ),
            ),
        }
    }
}

/// The request that answers a challenge with `data`: the partial ticket goes
/// into `tfa-challenge`, and `data` stands in place of the password.
pub open spec fn answer_request(c: SecondFactorChallengeView, data: Seq<char>) -> RequestView {
    ticket_request(c.api_url, ticket_request_body(c.userid, data, c.pve_compat, Some(c.ticket)))
}

/// What a `respond_*` method owes: nothing but `Unavailable` where the factor
/// was not offered; where it was, the request that sends `tag` and the code.
pub open spec fn answer_outcome(
    c: SecondFactorChallengeView,
    offered: bool,
    tag: Seq<char>,
    code: Seq<char>,
    r: Result<Request, TfaError>,
) -> bool {
    if offered {
        r matches Ok(req) && req@ == answer_request(c, tag + code)
    } else {
        r matches Err(e) && e@ == TfaErrorKind::Unavailable
    }
}

impl SecondFactorChallenge {
    /// Puts a challenge together from its parts, as they were stored.
    pub fn from_parts(
        api_url: String,
        pve_compat: bool,
        userid: String,
        ticket: String,
        challenge: TfaChallenge,
    ) -> (r: SecondFactorChallenge)
        ensures
            r@ == (SecondFactorChallengeView {
                api_url: api_url@,
                pve_compat,
                userid: userid@,
                ticket: ticket@,
                challenge: challenge@,
            }),
    {
        SecondFactorChallenge { api_url, pve_compat, userid, ticket, challenge }
    }

    /// The URL of the server that sent the challenge.
    pub fn api_url(&self) -> (r: &str)
        ensures
            r@ == self@.api_url,
    {
        self.api_url.as_str()
    }

    /// The user who logs in.
    pub fn userid(&self) -> (r: &str)
        ensures
            r@ == self@.userid,
    {
        self.userid.as_str()
    }

    /// The partial ticket that came with the challenge.
    pub fn ticket(&self) -> (r: &str)
        ensures
            r@ == self@.ticket,
    {
        self.ticket.as_str()
    }

    /// Which second factors the server offers.
    pub fn challenge(&self) -> (r: &TfaChallenge)
        ensures
            r@ == self@.challenge,
    {
        &self.challenge
    }

    /// Whether requests carry the compatibility flag.
    pub fn pve_compat(&self) -> (r: bool)
        ensures
            r == self@.pve_compat,
    {
        self.pve_compat
    }

    /// The request that answers with a Yubico OTP. Refused with
    /// `TfaError::Unavailable` where Yubico OTP was not offered.
    pub fn respond_yubico(&self, code: &str) -> (r: Result<Request, TfaError>)
        ensures
            answer_outcome(self@, self@.challenge.yubico, "yubico:"@, code@, r),
    {
        if !self.challenge.yubico {
            Err(TfaError::Unavailable)
        } else {
            self.respond_raw("yubico:".to_owned().concat(code).as_str())
        }
    }

    /// The request that answers with a TOTP value. Refused with
    /// `TfaError::Unavailable` where TOTP was not offered, whatever the code.
    pub fn respond_totp(&self, code: &str) -> (r: Result<Request, TfaError>)
        ensures
            answer_outcome(self@, self@.challenge.totp, "totp:"@, code@, r),
            !self@.challenge.totp ==> (r matches Err(e) && e@ == TfaErrorKind::Unavailable),
    {
        if !self.challenge.totp {
            Err(TfaError::Unavailable)
        } else {
            self.respond_raw("totp:".to_owned().concat(code).as_str())
        }
    }

    /// The request that answers with a recovery code. Refused with
    /// `TfaError::Unavailable` where no recovery code is available.
    pub fn respond_recovery(&self, code: &str) -> (r: Result<Request, TfaError>)
        ensures
            answer_outcome(
                self@,
                self@.challenge.recovery.spec_is_available(),
                "recovery:"@,
                code@,
                r,
            ),
    {
        if !self.challenge.recovery.is_available() {
            Err(TfaError::Unavailable)
        } else {
            self.respond_raw("recovery:".to_owned().concat(code).as_str())
        }
    }

    /// The request that answers with the JSON text of a WebAuthn result.
    /// Refused with `TfaError::Unavailable` where no WebAuthn challenge came.
    pub fn respond_webauthn(&self, json_string: &str) -> (r: Result<Request, TfaError>)
        ensures
            answer_outcome(
                self@,
                self@.challenge.webauthn is Some,
                "webauthn:"@,
                json_string@,
                r,
            ),
    {
        if self.challenge.webauthn.is_none() {
            Err(TfaError::Unavailable)
        } else {
            self.respond_raw("webauthn:".to_owned().concat(json_string).as_str())
        }
    }

    /// The request that answers with `data` as it is: the kind of the second
    /// factor, a colon, and the code.
    pub fn respond_raw(&self, data: &str) -> (r: Result<Request, TfaError>)
        ensures
            r matches Ok(req) && req@ == answer_request(self@, data@),
    {
        match encode_ticket_request(
            self.userid.as_str(),
            data,
            self.pve_compat,
            Some(self.ticket.as_str()),
        ) {
            Ok(body) => Ok(Request::for_ticket(self.api_url.as_str(), body)),
            Err(e) => Err(TfaError::Json(e)),
        }
    }

    /// Reads the body of the answer to the second factor: a session, or the
    /// reason why there is none. An answer that names another user than the
    /// challenge is always refused.
    pub fn response(&self, body: &[u8]) -> (r: Result<Authentication, ResponseError>)
        ensures
            session_view(r) == match decoded_answer(body@) {
                Some(data) => session_of(self@.api_url, self@.userid, data),
                None => Err(ResponseErrorKind::Json),
            },
            decoded_answer(body@) matches Some(Some(d)) && d.username != self@.userid ==> (r matches Err(
                e,
            ) && e@ == ResponseErrorKind::UnexpectedUserid),
    {
        match decode_answer(body) {
            Ok(data) => self.check_response(data),
            Err(e) => Err(e),
        }
    }

    /// What the decoded answer means to this challenge.
    pub fn check_response(&self, data: Option<CreateTicketResponse>) -> (r: Result<
        Authentication,
        ResponseError,
    >)
        ensures
            session_view(r) == session_of(
                self@.api_url,
                self@.userid,
                match data {
                    Some(d) => Some(d@),
                    None => None,
                },
            ),
            data matches Some(d) && d.username@ != self@.userid ==> (r matches Err(e) && e@
                == ResponseErrorKind::UnexpectedUserid),
    {
        let d = match data {
            Some(d) => d,
            None => {
                return Err(ResponseError::MissingData);
            },
        };
        if !str_eq(d.username.as_str(), self.userid.as_str()) {
            return Err(ResponseError::UnexpectedUserid);
        }
        let raw = match d.ticket {
            Some(t) => t,
            None => {
                return Err(ResponseError::MissingTicket);
            },
        };
        match Ticket::parse(raw.as_str()) {
            Err(e) => Err(ResponseError::Ticket(e)),
            Ok(ticket) => finish_session(
                &self.api_url,
                &self.userid,
                d.username,
                d.csrfprevention_token,
                d.clustername,
                ticket,
            ),
        }
    }
}

} // verus!
