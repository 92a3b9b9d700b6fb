//! Second-factor challenges, and the ticket field that carries them.
//!
//! A login that needs a second factor answers with a partial ticket of the form
//! `<product>:!tfa!<challenge>:<rest>`, where `<challenge>` is a percent-encoded
//! JSON object that says which second factors the user may answer with.

use vstd::prelude::*;
use vstd::string::*;
use vstd::utf8::encode_utf8;
use crate::json::{
    json_as_bool, json_as_str, json_clone, json_decoded, json_get, json_is_null, json_is_object,
    json_model, parse_json, Json,
};
use crate::text::{chars_of, find_char, find_from, has_at, lemma_find_from, starts_with_at, str_eq};
use crate::ticket::{parse_ticket, Ticket, TicketError, TicketView};

verus! {

/// Whether recovery codes can be used.
#[derive(Clone, Copy, Debug, PartialEq, Eq, Structural)]
pub enum RecoveryState {
    /// No recovery codes are left, or none were ever made.
    Unavailable,
    /// Only a few recovery codes are left.
    Low,
    /// Recovery codes are available.
    Available,
}

impl RecoveryState {
    pub open spec fn spec_is_available(&self) -> bool {
        !(*self is Unavailable)
    }

    /// Whether a recovery code can be sent at all.
    #[verifier::when_used_as_spec(spec_is_available)]
    pub fn is_available(&self) -> (r: bool)
        ensures
            r == self.spec_is_available(),
    {
        match self {
            RecoveryState::Unavailable => false,
            _ => true,
        }
    }

    /// Whether no recovery code can be sent.
    pub fn is_unavailable(&self) -> (r: bool)
        ensures
            r == !self.spec_is_available(),
    {
        !self.is_available()
    }
}

/// Which second factors the server offers for a login.
#[derive(Debug)]
pub struct TfaChallenge {
    /// The user has TOTP devices.
    pub totp: bool,
    /// The user has Yubico OTP keys.
    pub yubico: bool,
    /// Whether recovery codes are available.
    pub recovery: RecoveryState,
    /// The WebAuthn challenge, if the user has WebAuthn credentials.
    pub webauthn: Option<serde_json::Value>,
}

pub struct TfaChallengeView {
    pub totp: bool,
    pub yubico: bool,
    pub recovery: RecoveryState,
    pub webauthn: Option<Json>,
}

impl View for TfaChallenge {
    type V = TfaChallengeView;

    open spec fn view(&self) -> TfaChallengeView {
        TfaChallengeView {
            totp: self.totp,
            yubico: self.yubico,
            recovery: self.recovery,
            webauthn: match self.webauthn {
                Some(v) => Some(json_model(v)),
                None => None,
            },
        }
    }
}

impl Clone for TfaChallenge {
    fn clone(&self) -> (r: Self)
        ensures
            r@ == self@,
    {
        TfaChallenge {
            totp: self.totp,
            yubico: self.yubico,
            recovery: self.recovery,
            webauthn: match &self.webauthn {
                Some(v) => Some(json_clone(v)),
                None => None,
            },
        }
    }
}

/// A member that is a boolean when present: absent means `false`, anything but
/// a boolean is an error.
pub open spec fn flag_member(j: Json, key: Seq<char>) -> Option<bool> {
    match j.field(key) {
        None => Some(false),
        Some(x) => x.as_bool(),
    }
}

/// The recovery state that a member's text names.
pub open spec fn recovery_named(s: Seq<char>) -> Option<RecoveryState> {
    if s == "unavailable"@ {
        Some(RecoveryState::Unavailable)
    } else if s == "low"@ {
        Some(RecoveryState::Low)
    } else if s == "available"@ {
        Some(RecoveryState::Available)
    } else {
        None
    }
}

/// The `recovery` member: absent means unavailable, otherwise it must be one of
/// the three names.
pub open spec fn recovery_member(j: Json) -> Option<RecoveryState> {
    match j.field("recovery"@) {
        None => Some(RecoveryState::Unavailable),
        Some(x) => match x.as_str() {
            Some(s) => recovery_named(s),
            None => None,
        },
    }
}

/// The `webauthn` member: absent or `null` means no challenge, anything else is
/// the challenge.
pub open spec fn webauthn_member(j: Json) -> Option<Json> {
    match j.field("webauthn"@) {
        None => None,
        Some(x) => if x is Null {
            None
        } else {
            Some(x)
        },
    }
}

/// The challenge that a JSON value describes, or `None` if it describes none.
pub open spec fn challenge_of_json(j: Json) -> Option<TfaChallengeView> {
    if !(j is Object) {
        None
    } else {
        match (flag_member(j, "totp"@), flag_member(j, "yubico"@), recovery_member(j)) {
            (Some(totp), Some(yubico), Some(recovery)) => Some(
                TfaChallengeView { totp, yubico, recovery, webauthn: webauthn_member(j) },
            ),
            _ => None,
        }
    }
}

fn read_flag(v: &serde_json::Value, key: &str) -> (r: Option<bool>)
    ensures
        r == flag_member(json_model(*v), key@),
{
    match json_get(v, key) {
        None => Some(false),
        Some(x) => json_as_bool(x),
    }
}

fn read_recovery(v: &serde_json::Value) -> (r: Option<RecoveryState>)
    ensures
        r == recovery_member(json_model(*v)),
{
    match json_get(v, "recovery") {
        None => Some(RecoveryState::Unavailable),
        Some(x) => match json_as_str(x) {
            None => None,
            Some(s) => {
                if str_eq(s, "unavailable") {
                    Some(RecoveryState::Unavailable)
                } else if str_eq(s, "low") {
                    Some(RecoveryState::Low)
                } else if str_eq(s, "available") {
                    Some(RecoveryState::Available)
                } else {
                    None
                }
            },
        },
    }
}

impl TfaChallenge {
    /// Reads a challenge from a JSON value. Members other than `totp`, `yubico`,
    /// `recovery` and `webauthn` are ignored.
    pub fn from_json(v: &serde_json::Value) -> (r: Option<TfaChallenge>)
        ensures
            match r {
                Some(c) => challenge_of_json(json_model(*v)) == Some(c@),
                None => challenge_of_json(json_model(*v)) is None,
            },
    {
        if !json_is_object(v) {
            return None;
        }
        let totp = match read_flag(v, "totp") {
            Some(b) => b,
            None => {
                return None;
            },
        };
        let yubico = match read_flag(v, "yubico") {
            Some(b) => b,
            None => {
                return None;
            },
        };
        let recovery = match read_recovery(v) {
            Some(s) => s,
            None => {
                return None;
            },
        };
        let webauthn = match json_get(v, "webauthn") {
            None => None,
            Some(x) => {
                if json_is_null(x) {
                    None
                } else {
                    Some(json_clone(x))
                }
            },
        };
        Some(TfaChallenge { totp, yubico, recovery, webauthn })
    }
}

/// The value of the hexadecimal digit that a byte writes, if it writes one.
pub open spec fn hex_byte(b: u8) -> Option<u8> {
    if 0x30 <= b <= 0x39 {
        Some((b - 0x30) as u8)
    } else if 0x41 <= b <= 0x46 {
        Some((b - 0x41 + 10) as u8)
    } else if 0x61 <= b <= 0x66 {
        Some((b - 0x61 + 10) as u8)
    } else {
        None
    }
}

/// Whether an escape `%XY` stands at position `i`.
pub open spec fn escape_at(b: Seq<u8>, i: int) -> bool {
    &&& 0 <= i
    &&& i + 2 < b.len()
    &&& b[i] == 0x25
    &&& hex_byte(b[i + 1]) is Some
    &&& hex_byte(b[i + 2]) is Some
}

/// The bytes from position `i` on with every escape `%XY` replaced by the byte
/// it names. A `%` that no two hexadecimal digits follow stands for itself.
pub open spec fn percent_decoded_from(b: Seq<u8>, i: int) -> Seq<u8>
    decreases b.len() - i,
{
    if i < 0 || i >= b.len() {
        Seq::empty()
    } else if escape_at(b, i) {
        seq![(hex_byte(b[i + 1])->0 * 16 + hex_byte(b[i + 2])->0) as u8] + percent_decoded_from(
            b,
            i + 3,
        )
    } else {
        seq![b[i]] + percent_decoded_from(b, i + 1)
    }
}

/// Percent-decoding of a whole text.
pub open spec fn percent_decoded(b: Seq<u8>) -> Seq<u8> {
    percent_decoded_from(b, 0)
}

fn hex_of_byte(b: u8) -> (r: Option<u8>)
    ensures
        r == hex_byte(b),
        r matches Some(d) ==> d < 16,
{
    if 0x30 <= b && b <= 0x39 {
        Some(b - 0x30)
    } else if 0x41 <= b && b <= 0x46 {
        Some(b - 0x41 + 10)
    } else if 0x61 <= b && b <= 0x66 {
        Some(b - 0x61 + 10)
    } else {
        None
    }
}

/// Replaces every escape `%XY` by the byte it names.
pub fn percent_decode(text: &[u8]) -> (out: Vec<u8>)
    ensures
        out@ == percent_decoded(text@),
{
    let mut out: Vec<u8> = Vec::new();
    let mut i: usize = 0;
    while i < text.len()
        invariant
            i <= text.len(),
            percent_decoded(text@) == out@ + percent_decoded_from(text@, i as int),
        decreases text.len() - i,
    {
        let mut step: usize = 1;
        let mut byte: u8 = text[i];
        if text[i] == 0x25 && text.len() - i > 2 {
            match (hex_of_byte(text[i + 1]), hex_of_byte(text[i + 2])) {
                (Some(hi), Some(lo)) => {
                    byte = hi * 16 + lo;
                    step = 3;
                },
                _ => {},
            }
        }
        assert(percent_decoded_from(text@, i as int) == seq![byte] + percent_decoded_from(
            text@,
            i + step,
        ));
        assert(out@ + (seq![byte] + percent_decoded_from(text@, i + step)) =~= out@.push(byte)
            + percent_decoded_from(text@, i + step));
        out.push(byte);
        i += step;
    }
    assert(out@ + percent_decoded_from(text@, i as int) =~= out@);
    out
}

/// What the ticket field of a login response holds: a ticket, or a partial
/// ticket together with the challenge it carries.
#[derive(Debug)]
pub enum TicketResponse {
    Full(Ticket),
    Tfa(String, TfaChallenge),
}

pub enum TicketResponseView {
    Full(TicketView),
    Tfa(Seq<char>, TfaChallengeView),
}

impl View for TicketResponse {
    type V = TicketResponseView;

    open spec fn view(&self) -> TicketResponseView {
        match self {
            TicketResponse::Full(t) => TicketResponseView::Full(t@),
            TicketResponse::Tfa(s, c) => TicketResponseView::Tfa(s@, c@),
        }
    }
}

/// The challenge that a challenge field carries: the field is percent-decoded,
/// read as JSON, and the JSON value is read as a challenge.
pub open spec fn challenge_of_field(field: Seq<char>) -> Option<TfaChallengeView> {
    match json_decoded(percent_decoded(encode_utf8(field))) {
        Some(j) => challenge_of_json(j),
        None => None,
    }
}

/// The grammar of the ticket field. A field whose first `:` starts `:!tfa!` is a
/// partial ticket: the challenge runs up to the next `:`. Any other field is a
/// ticket.
pub open spec fn parse_ticket_response(s: Seq<char>) -> Result<TicketResponseView, TicketError> {
    let c1 = find_from(s, ':', 0);
    if c1 >= s.len() {
        Err(TicketError::Invalid)
    } else if has_at(s, ":!tfa!"@, c1) {
        let start = c1 + ":!tfa!"@.len();
        let end = find_from(s, ':', start);
        if end >= s.len() {
            Err(TicketError::Invalid)
        } else {
            match challenge_of_field(s.subrange(start, end)) {
                Some(c) => Ok(TicketResponseView::Tfa(s, c)),
                None => Err(TicketError::Malformed),
            }
        }
    } else {
        match parse_ticket(s) {
            Ok(t) => Ok(TicketResponseView::Full(t)),
            Err(e) => Err(e),
        }
    }
}

impl TicketResponse {
    /// Reads the ticket field of a login response.
    pub fn parse(raw: &str) -> (r: Result<TicketResponse, TicketError>)
        ensures
            match r {
                Ok(t) => parse_ticket_response(raw@) == Ok::<TicketResponseView, TicketError>(t@),
                Err(e) => parse_ticket_response(raw@) == Err::<TicketResponseView, TicketError>(e),
            },
    {
        let v = chars_of(raw);
        let c1 = find_char(&v, ':', 0);
        if c1 >= v.len() {
            return Err(TicketError::Invalid);
        }
        let marker = chars_of(":!tfa!");
        if starts_with_at(&v, &marker, c1) {
            let start = c1 + marker.len();
            let end = find_char(&v, ':', start);
            if end >= v.len() {
                return Err(TicketError::Invalid);
            }
            proof {
                lemma_find_from(v@, ':', start as int);
            }
            let field = raw.substring_char(start, end);
            let decoded = percent_decode(field.as_bytes());
            let value = match parse_json(decoded.as_slice()) {
                Ok(value) => value,
                Err(_) => {
                    return Err(TicketError::Malformed);
                },
            };
            match TfaChallenge::from_json(&value) {
                Some(challenge) => Ok(TicketResponse::Tfa(raw.to_owned(), challenge)),
                None => Err(TicketError::Malformed),
            }
        } else {
            match Ticket::parse(raw) {
                Ok(t) => Ok(TicketResponse::Full(t)),
                Err(e) => Err(e),
            }
        }
    }
}

} // verus!
