use pdm_auth::tfa::{percent_decode, RecoveryState, TfaChallenge, TicketResponse};
use pdm_auth::ticket::TicketError;

fn parse(text: &str) -> serde_json::Value {
    serde_json::from_str(text).unwrap()
}

#[test]
fn percent_decode_replaces_escapes() {
    assert_eq!(percent_decode(b"%7B%22a%22%3A1%7D"), b"{\"a\":1}");
    assert_eq!(percent_decode(b"a%20b"), b"a b");
    assert_eq!(percent_decode(b"%e2%82%ac"), "€".as_bytes());
    assert_eq!(percent_decode(b"%E2%82%AC"), "€".as_bytes());
    assert_eq!(percent_decode(b"%00%ff"), [0u8, 255u8]);
    assert_eq!(percent_decode(b""), b"");
    assert_eq!(percent_decode(b"plain"), b"plain");
}

#[test]
fn percent_decode_leaves_what_is_no_escape() {
    assert_eq!(percent_decode(b"%"), b"%");
    assert_eq!(percent_decode(b"%4"), b"%4");
    assert_eq!(percent_decode(b"%zz"), b"%zz");
    assert_eq!(percent_decode(b"%4g"), b"%4g");
    assert_eq!(percent_decode(b"100%"), b"100%");
    assert_eq!(percent_decode(b"%%41"), b"%A");
    assert_eq!(percent_decode(b"%2541"), b"%41");
}

#[test]
fn recovery_states() {
    assert!(!RecoveryState::Unavailable.is_available());
    assert!(RecoveryState::Low.is_available());
    assert!(RecoveryState::Available.is_available());
    assert!(RecoveryState::Unavailable.is_unavailable());
    assert!(!RecoveryState::Low.is_unavailable());
}

#[test]
fn a_challenge_is_read_from_json() {
    let c = TfaChallenge::from_json(&parse(
        r#"{"totp":true,"yubico":false,"recovery":"available","webauthn":{"x":1},"u2f":null}"#,
    ))
    .unwrap();
    assert!(c.totp);
    assert!(!c.yubico);
    assert_eq!(c.recovery, RecoveryState::Available);
    assert_eq!(c.webauthn, Some(parse(r#"{"x":1}"#)));
    let copy = c.clone();
    assert_eq!(copy.webauthn, c.webauthn);
    assert_eq!(copy.recovery, c.recovery);
    assert!(copy.totp);
}

#[test]
fn missing_members_mean_that_nothing_is_offered() {
    let c = TfaChallenge::from_json(&parse("{}")).unwrap();
    assert!(!c.totp);
    assert!(!c.yubico);
    assert_eq!(c.recovery, RecoveryState::Unavailable);
    assert!(c.webauthn.is_none());
    let c = TfaChallenge::from_json(&parse(r#"{"webauthn":null,"recovery":"unavailable"}"#)).unwrap();
    assert!(c.webauthn.is_none());
    assert_eq!(c.recovery, RecoveryState::Unavailable);
    let c = TfaChallenge::from_json(&parse(r#"{"yubico":true,"recovery":"low"}"#)).unwrap();
    assert!(c.yubico);
    assert_eq!(c.recovery, RecoveryState::Low);
}

#[test]
fn members_of_the_wrong_kind_are_refused() {
    assert!(TfaChallenge::from_json(&parse("[]")).is_none());
    assert!(TfaChallenge::from_json(&parse("null")).is_none());
    assert!(TfaChallenge::from_json(&parse(r#"{"totp":1}"#)).is_none());
    assert!(TfaChallenge::from_json(&parse(r#"{"totp":null}"#)).is_none());
    assert!(TfaChallenge::from_json(&parse(r#"{"yubico":"yes"}"#)).is_none());
    assert!(TfaChallenge::from_json(&parse(r#"{"recovery":true}"#)).is_none());
    assert!(TfaChallenge::from_json(&parse(r#"{"recovery":"some"}"#)).is_none());
    assert!(TfaChallenge::from_json(&parse(r#"{"recovery":"Low"}"#)).is_none());
}

#[test]
fn a_ticket_field_with_a_challenge() {
    let raw = "PVE:!tfa!%7B%22totp%22%3Atrue%7D:65A0F5C2::sig";
    match TicketResponse::parse(raw).unwrap() {
        TicketResponse::Tfa(ticket, challenge) => {
            assert_eq!(ticket, raw);
            assert!(challenge.totp);
            assert!(!challenge.yubico);
        }
        TicketResponse::Full(_) => panic!("a ticket where a challenge was sent"),
    }
}

#[test]
fn a_challenge_that_is_not_escaped_is_read_too() {
    match TicketResponse::parse("PBS:!tfa!{\"yubico\"%3Atrue}:rest").unwrap() {
        TicketResponse::Tfa(_, challenge) => assert!(challenge.yubico),
        TicketResponse::Full(_) => panic!("a ticket where a challenge was sent"),
    }
}

#[test]
fn a_ticket_field_with_a_ticket() {
    match TicketResponse::parse("PVE:root@pam:65A0F5C2::sig").unwrap() {
        TicketResponse::Full(t) => assert_eq!(t.userid(), "root@pam"),
        TicketResponse::Tfa(..) => panic!("a challenge where a ticket was sent"),
    }
}

#[test]
fn ticket_fields_that_are_neither() {
    let invalid = |s: &str| matches!(TicketResponse::parse(s), Err(TicketError::Invalid));
    let malformed = |s: &str| matches!(TicketResponse::parse(s), Err(TicketError::Malformed));
    assert!(invalid(""));
    assert!(invalid("PVE"));
    assert!(invalid("PVE:!tfa!%7B%7D"));
    assert!(invalid("PVE:!tfa"));
    assert!(malformed("PVE:!tfa!:rest"));
    assert!(malformed("PVE:!tfa!%7B:rest"));
    assert!(malformed("PVE:!tfa![]:rest"));
    assert!(malformed("PVE:!tfa!%7B%22totp%22%3A1%7D:rest"));
    assert!(malformed("PVE:!TFA!%7B%7D:65A0F5CX::sig"));
    assert!(invalid("PVE:x!tfa!%7B%7D:65A0F5C2"));
}
