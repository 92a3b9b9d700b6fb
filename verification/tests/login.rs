use pdm_auth::api::{decode_answer, read_answer, CreateTicketResponse};
use pdm_auth::error::{ResponseError, TfaError};
use pdm_auth::login::{
    normalize_url, Login, Request, SecondFactorChallenge, TicketResult, CSRF_HEADER_NAME,
};
use pdm_auth::tfa::{RecoveryState, TfaChallenge};
use pdm_auth::ticket::TicketError;

const TICKET: &str = "PVE:root@pam:65A0F5C2::c2lnbmF0dXJl";
const PBS_TICKET: &str = "PBS:root@pam:65A0F5C2::c2lnbmF0dXJl";
const PARTIAL: &str =
    "PVE:!tfa!%7B%22totp%22%3Atrue%2C%22recovery%22%3A%22low%22%7D:65A0F5C2::c2ln";

fn body_of(request: &Request) -> String {
    String::from_utf8(request.body.clone()).unwrap()
}

fn login() -> Login {
    Login::new("https://pve.example:8006/".to_string(), "root@pam".to_string(), "secret".to_string())
}

fn answer(data: &str) -> Vec<u8> {
    format!("{{\"data\":{data}}}").into_bytes()
}

fn challenge_from(login: &Login) -> SecondFactorChallenge {
    let body = answer(&format!("{{\"username\":\"root@pam\",\"ticket\":\"{PARTIAL}\"}}"));
    match login.response(&body).unwrap() {
        TicketResult::TfaRequired(c) => c,
        TicketResult::Full(_) => panic!("a session where a challenge was sent"),
    }
}

#[test]
fn the_header_name_is_fixed() {
    assert_eq!(CSRF_HEADER_NAME, "CSRFPreventionToken");
}

#[test]
fn normalize_url_strips_every_trailing_slash() {
    assert_eq!(normalize_url("https://a/".to_string()), "https://a");
    assert_eq!(normalize_url("https://a///".to_string()), "https://a");
    assert_eq!(normalize_url("https://a/b".to_string()), "https://a/b");
    assert_eq!(normalize_url("///".to_string()), "");
    assert_eq!(normalize_url(String::new()), "");
    assert_eq!(normalize_url("https://ü/é/".to_string()), "https://ü/é");
}

#[test]
fn a_password_login_posts_user_and_password() {
    let request = login().request().unwrap();
    assert_eq!(request.method, "POST");
    assert_eq!(request.content_type, "application/json");
    assert_eq!(request.url, "https://pve.example:8006/api2/json/access/ticket");
    assert_eq!(body_of(&request), r#"{"password":"secret","username":"root@pam"}"#);
    assert_eq!(request.content_length, request.body.len());
}

#[test]
fn the_compatibility_flag_is_sent_only_when_set() {
    let request = login().pve_compatibility(true).request().unwrap();
    assert_eq!(
        body_of(&request),
        r#"{"new-format":true,"password":"secret","username":"root@pam"}"#
    );
    let request = login().pve_compatibility(true).pve_compatibility(false).request().unwrap();
    assert_eq!(body_of(&request), r#"{"password":"secret","username":"root@pam"}"#);
}

#[test]
fn the_body_is_escaped_as_json() {
    let login = Login::new("u".to_string(), "a\"b@pam".to_string(), "p\\w\n€".to_string());
    let request = login.request().unwrap();
    assert_eq!(body_of(&request), "{\"password\":\"p\\\\w\\n€\",\"username\":\"a\\\"b@pam\"}");
    assert_eq!(request.content_length, request.body.len());
}

#[test]
fn set_url_takes_the_url_as_it_is() {
    let mut login = login();
    login.set_url("https://other/".to_string());
    assert_eq!(login.request().unwrap().url, "https://other//api2/json/access/ticket");
}

#[test]
fn renewal_sends_the_ticket_as_password() {
    let login = Login::renew("https://pve/".to_string(), TICKET.to_string()).unwrap();
    let request = login.request().unwrap();
    assert_eq!(request.url, "https://pve/api2/json/access/ticket");
    assert_eq!(
        body_of(&request),
        format!("{{\"new-format\":true,\"password\":\"{TICKET}\",\"username\":\"root@pam\"}}")
    );
}

#[test]
fn renewal_of_another_products_ticket_sets_no_flag() {
    let login = Login::renew("https://pbs".to_string(), PBS_TICKET.to_string()).unwrap();
    assert_eq!(
        body_of(&login.request().unwrap()),
        format!("{{\"password\":\"{PBS_TICKET}\",\"username\":\"root@pam\"}}")
    );
}

#[test]
fn renewal_refuses_what_is_no_ticket() {
    assert_eq!(
        Login::renew("https://pve".to_string(), "nonsense".to_string()).unwrap_err(),
        TicketError::Invalid
    );
    assert_eq!(
        Login::renew("https://pve".to_string(), "PVE:root@pam:xyz::sig".to_string()).unwrap_err(),
        TicketError::Malformed
    );
}

#[test]
fn a_full_ticket_gives_a_session() {
    let body = answer(&format!(
        "{{\"username\":\"root@pam\",\"ticket\":\"{TICKET}\",\"CSRFPreventionToken\":\"tok\",\"clustername\":\"c1\",\"cap\":{{}}}}"
    ));
    match login().response(&body).unwrap() {
        TicketResult::Full(auth) => {
            assert_eq!(auth.api_url, "https://pve.example:8006");
            assert_eq!(auth.userid, "root@pam");
            assert_eq!(auth.csrfprevention_token, "tok");
            assert_eq!(auth.clustername.as_deref(), Some("c1"));
            assert_eq!(auth.ticket.format(), TICKET);
            assert_eq!(auth.ticket.userid(), "root@pam");
            let copy = auth.clone();
            assert_eq!(copy.ticket, auth.ticket);
            assert_eq!(copy.csrfprevention_token, "tok");
        }
        TicketResult::TfaRequired(_) => panic!("a challenge where a ticket was sent"),
    }
}

#[test]
fn a_session_needs_no_cluster_name() {
    let body = answer(&format!(
        "{{\"username\":\"root@pam\",\"ticket\":\"{TICKET}\",\"CSRFPreventionToken\":\"tok\",\"clustername\":null}}"
    ));
    match login().response(&body).unwrap() {
        TicketResult::Full(auth) => assert_eq!(auth.clustername, None),
        TicketResult::TfaRequired(_) => panic!("a challenge where a ticket was sent"),
    }
}

#[test]
fn an_answer_without_data_is_refused() {
    assert!(matches!(login().response(b"{}"), Err(ResponseError::MissingData)));
    assert!(matches!(login().response(b"{\"data\":null}"), Err(ResponseError::MissingData)));
    assert!(matches!(login().response(b"{\"errors\":3}"), Err(ResponseError::MissingData)));
}

#[test]
fn an_answer_for_another_user_is_refused() {
    let body = answer(&format!(
        "{{\"username\":\"admin@pam\",\"ticket\":\"{TICKET}\",\"CSRFPreventionToken\":\"tok\"}}"
    ));
    assert!(matches!(login().response(&body), Err(ResponseError::UnexpectedUserid)));
    let other = "PVE:admin@pam:65A0F5C2::c2ln";
    let body = answer(&format!(
        "{{\"username\":\"admin@pam\",\"ticket\":\"{other}\",\"CSRFPreventionToken\":\"tok\"}}"
    ));
    assert!(matches!(login().response(&body), Err(ResponseError::UnexpectedUserid)));
    let body = answer("{\"username\":\"admin@pam\"}");
    assert!(matches!(login().response(&body), Err(ResponseError::UnexpectedUserid)));
    let body = answer(&format!("{{\"username\":\"admin@pam\",\"ticket\":\"{PARTIAL}\"}}"));
    assert!(matches!(login().response(&body), Err(ResponseError::UnexpectedUserid)));
}

#[test]
fn an_answer_without_ticket_is_refused() {
    let body = answer("{\"username\":\"root@pam\",\"CSRFPreventionToken\":\"tok\"}");
    assert!(matches!(login().response(&body), Err(ResponseError::MissingTicket)));
}

#[test]
fn a_ticket_for_another_user_is_refused() {
    let other = "PVE:admin@pam:65A0F5C2::c2ln";
    let body = answer(&format!(
        "{{\"username\":\"root@pam\",\"ticket\":\"{other}\",\"CSRFPreventionToken\":\"tok\"}}"
    ));
    assert!(matches!(login().response(&body), Err(ResponseError::TicketUserid)));
}

#[test]
fn a_session_needs_a_csrf_token() {
    let body = answer(&format!("{{\"username\":\"root@pam\",\"ticket\":\"{TICKET}\"}}"));
    assert!(matches!(login().response(&body), Err(ResponseError::MissingCsrfToken)));
}

#[test]
fn a_bad_ticket_is_refused_with_its_reason() {
    let body = answer("{\"username\":\"root@pam\",\"ticket\":\"nonsense\"}");
    assert!(matches!(
        login().response(&body),
        Err(ResponseError::Ticket(TicketError::Invalid))
    ));
    let body = answer("{\"username\":\"root@pam\",\"ticket\":\"PVE:root@pam:zz::s\"}");
    assert!(matches!(
        login().response(&body),
        Err(ResponseError::Ticket(TicketError::Malformed))
    ));
}

#[test]
fn what_is_not_json_of_the_right_shape_is_refused() {
    assert!(matches!(login().response(b"not json"), Err(ResponseError::Json(_))));
    assert!(matches!(login().response(b""), Err(ResponseError::Json(_))));
    assert!(matches!(login().response(b"[]"), Err(ResponseError::Json(_))));
    assert!(matches!(login().response(b"{\"data\":[]}"), Err(ResponseError::Json(_))));
    assert!(matches!(login().response(b"{\"data\":{}}"), Err(ResponseError::Json(_))));
    assert!(matches!(
        login().response(b"{\"data\":{\"username\":7}}"),
        Err(ResponseError::Json(_))
    ));
    assert!(matches!(
        login().response(b"{\"data\":{\"username\":\"root@pam\",\"ticket\":7}}"),
        Err(ResponseError::Json(_))
    ));
}

#[test]
fn decode_answer_reads_the_four_members() {
    let body = answer("{\"username\":\"u\",\"ticket\":\"t\",\"CSRFPreventionToken\":\"c\"}");
    let data = decode_answer(&body).unwrap().unwrap();
    assert_eq!(data.username, "u");
    assert_eq!(data.ticket.as_deref(), Some("t"));
    assert_eq!(data.csrfprevention_token.as_deref(), Some("c"));
    assert_eq!(data.clustername, None);
    assert!(decode_answer(b"{}").unwrap().is_none());
}

#[test]
fn check_response_takes_plain_values() {
    let data = CreateTicketResponse {
        username: "root@pam".to_string(),
        ticket: Some(TICKET.to_string()),
        csrfprevention_token: Some("tok".to_string()),
        clustername: None,
    };
    assert!(matches!(login().check_response(Some(data)), Ok(TicketResult::Full(_))));
    assert!(matches!(login().check_response(None), Err(ResponseError::MissingData)));
}

#[test]
fn a_partial_ticket_gives_a_challenge() {
    let login = login().pve_compatibility(true);
    let challenge = challenge_from(&login);
    assert_eq!(challenge.api_url(), "https://pve.example:8006");
    assert_eq!(challenge.userid(), "root@pam");
    assert_eq!(challenge.ticket(), PARTIAL);
    assert!(challenge.pve_compat());
    assert!(challenge.challenge.totp);
    assert!(!challenge.challenge.yubico);
    assert_eq!(challenge.challenge.recovery, RecoveryState::Low);
    assert!(challenge.challenge.webauthn.is_none());
    assert!(challenge.challenge().totp);
}

#[test]
fn a_totp_answer_sends_the_code_with_the_partial_ticket() {
    let challenge = challenge_from(&login().pve_compatibility(true));
    let request = challenge.respond_totp("123456").unwrap();
    assert_eq!(request.method, "POST");
    assert_eq!(request.content_type, "application/json");
    assert_eq!(request.url, "https://pve.example:8006/api2/json/access/ticket");
    assert_eq!(
        body_of(&request),
        format!(
            "{{\"new-format\":true,\"password\":\"totp:123456\",\"tfa-challenge\":\"{PARTIAL}\",\"username\":\"root@pam\"}}"
        )
    );
    assert_eq!(request.content_length, request.body.len());
}

#[test]
fn a_recovery_answer_is_tagged_as_such() {
    let challenge = challenge_from(&login());
    let request = challenge.respond_recovery("abcd-efgh").unwrap();
    assert_eq!(
        body_of(&request),
        format!(
            "{{\"password\":\"recovery:abcd-efgh\",\"tfa-challenge\":\"{PARTIAL}\",\"username\":\"root@pam\"}}"
        )
    );
}

#[test]
fn a_raw_answer_is_sent_as_it_is() {
    let challenge = challenge_from(&login());
    let request = challenge.respond_raw("u2f:xyz").unwrap();
    assert_eq!(
        body_of(&request),
        format!(
            "{{\"password\":\"u2f:xyz\",\"tfa-challenge\":\"{PARTIAL}\",\"username\":\"root@pam\"}}"
        )
    );
}

#[test]
fn a_factor_that_was_not_offered_is_unavailable() {
    let challenge = challenge_from(&login());
    assert!(matches!(challenge.respond_yubico("cccc"), Err(TfaError::Unavailable)));
    assert!(matches!(challenge.respond_webauthn("{}"), Err(TfaError::Unavailable)));
}

fn challenge_with(challenge: TfaChallenge) -> SecondFactorChallenge {
    SecondFactorChallenge::from_parts(
        "https://pve".to_string(),
        false,
        "root@pam".to_string(),
        PARTIAL.to_string(),
        challenge,
    )
}

fn nothing_offered() -> TfaChallenge {
    TfaChallenge { totp: false, yubico: false, recovery: RecoveryState::Unavailable, webauthn: None }
}

#[test]
fn totp_is_refused_for_any_code_when_it_was_not_offered() {
    let challenge = challenge_with(nothing_offered());
    for code in ["", "0", "123456", "totp:1", "\"", "€"] {
        assert!(matches!(challenge.respond_totp(code), Err(TfaError::Unavailable)));
    }
    assert!(matches!(challenge.respond_recovery("x"), Err(TfaError::Unavailable)));
    assert!(matches!(challenge.respond_yubico("x"), Err(TfaError::Unavailable)));
    assert!(matches!(challenge.respond_webauthn("x"), Err(TfaError::Unavailable)));
    assert!(challenge.respond_raw("totp:1").is_ok());
}

#[test]
fn each_offered_factor_builds_its_request() {
    let challenge = challenge_with(TfaChallenge {
        totp: true,
        yubico: true,
        recovery: RecoveryState::Available,
        webauthn: Some(serde_json::from_str("{\"challenge\":\"abc\"}").unwrap()),
    });
    let password = |request: Request| {
        let value: serde_json::Value = serde_json::from_slice(&request.body).unwrap();
        value["password"].as_str().unwrap().to_string()
    };
    assert_eq!(password(challenge.respond_totp("1").unwrap()), "totp:1");
    assert_eq!(password(challenge.respond_yubico("2").unwrap()), "yubico:2");
    assert_eq!(password(challenge.respond_recovery("3").unwrap()), "recovery:3");
    assert_eq!(password(challenge.respond_webauthn("{\"a\":1}").unwrap()), "webauthn:{\"a\":1}");
}

#[test]
fn the_answer_to_a_second_factor_gives_a_session() {
    let challenge = challenge_from(&login());
    let body = answer(&format!(
        "{{\"username\":\"root@pam\",\"ticket\":\"{TICKET}\",\"CSRFPreventionToken\":\"tok\"}}"
    ));
    let auth = challenge.response(&body).unwrap();
    assert_eq!(auth.api_url, "https://pve.example:8006");
    assert_eq!(auth.userid, "root@pam");
    assert_eq!(auth.csrfprevention_token, "tok");
    assert_eq!(auth.clustername, None);
    assert_eq!(auth.ticket.format(), TICKET);
}

#[test]
fn the_answer_to_a_second_factor_is_checked_like_a_login() {
    let challenge = challenge_from(&login());
    assert!(matches!(challenge.response(b"{}"), Err(ResponseError::MissingData)));
    assert!(matches!(challenge.response(b"x"), Err(ResponseError::Json(_))));
    let body = answer(&format!(
        "{{\"username\":\"admin@pam\",\"ticket\":\"{TICKET}\",\"CSRFPreventionToken\":\"tok\"}}"
    ));
    assert!(matches!(challenge.response(&body), Err(ResponseError::UnexpectedUserid)));
    let body = answer("{\"username\":\"root@pam\"}");
    assert!(matches!(challenge.response(&body), Err(ResponseError::MissingTicket)));
    let body = answer(&format!("{{\"username\":\"root@pam\",\"ticket\":\"{TICKET}\"}}"));
    assert!(matches!(challenge.response(&body), Err(ResponseError::MissingCsrfToken)));
    let body = answer(
        "{\"username\":\"root@pam\",\"ticket\":\"PVE:a@b:1::s\",\"CSRFPreventionToken\":\"t\"}",
    );
    assert!(matches!(challenge.response(&body), Err(ResponseError::TicketUserid)));
    let body = answer("{\"username\":\"root@pam\",\"ticket\":\"PVE:root@pam:65A0F5C2:sig\"}");
    assert!(matches!(
        challenge.response(&body),
        Err(ResponseError::Ticket(TicketError::Invalid))
    ));
    let body = answer("{\"username\":\"root@pam\",\"ticket\":\"PVE:root@pam:6x::sig\"}");
    assert!(matches!(
        challenge.response(&body),
        Err(ResponseError::Ticket(TicketError::Malformed))
    ));
    assert!(matches!(challenge.check_response(None), Err(ResponseError::MissingData)));
}

#[test]
fn errors_say_what_went_wrong() {
    assert_eq!(
        ResponseError::MissingData.message(),
        "bad ticket response: missing response data"
    );
    assert_eq!(
        ResponseError::UnexpectedUserid.message(),
        "bad ticket response: ticket response contained unexpected userid"
    );
    assert_eq!(ResponseError::MissingTicket.message(), "bad ticket response: missing ticket");
    assert_eq!(
        ResponseError::TicketUserid.message(),
        "bad ticket response: returned ticket contained unexpected userid"
    );
    assert_eq!(
        ResponseError::MissingCsrfToken.message(),
        "bad ticket response: missing CSRFPreventionToken in ticket response"
    );
    assert_eq!(
        ResponseError::Ticket(TicketError::Invalid).message(),
        "failed to parse ticket in ticket response: invalid ticket"
    );
    assert_eq!(
        ResponseError::Ticket(TicketError::Malformed).message(),
        "failed to parse ticket in ticket response: malformed ticket"
    );
    assert_eq!(TfaError::Unavailable.message(), "the chosen TFA method is not available");
    let json = login().response(b"{").unwrap_err();
    assert!(json.message().starts_with("bad ticket response: "));
    assert!(json.message().len() > "bad ticket response: ".len());
}

#[test]
fn the_parsers_error_is_handed_on_as_it_is() {
    let parsed: Result<serde_json::Value, serde_json::Error> = serde_json::from_slice(b"{\"a\":");
    let text = parsed.as_ref().unwrap_err().to_string();
    match read_answer(parsed) {
        Err(ResponseError::Json(e)) => assert_eq!(e.to_string(), text),
        _ => panic!("a broken body was read"),
    }
    let body = b"[1, 2";
    let text = serde_json::from_slice::<serde_json::Value>(body).unwrap_err().to_string();
    match decode_answer(body) {
        Err(ResponseError::Json(e)) => {
            assert_eq!(e.to_string(), text);
            assert_eq!(
                ResponseError::Json(e).message(),
                format!("bad ticket response: {text}")
            );
        }
        _ => panic!("a broken body was read"),
    }
    let parsed = serde_json::from_slice(b"{\"data\":{\"username\":\"u\"}}");
    assert_eq!(read_answer(parsed).unwrap().unwrap().username, "u");
    assert!(matches!(read_answer(serde_json::from_slice(b"7")), Err(ResponseError::Json(_))));
}

#[test]
fn results_and_challenges_can_be_copied() {
    let challenge = challenge_from(&login());
    let copy = challenge.clone();
    assert_eq!(copy.ticket(), challenge.ticket());
    assert_eq!(copy.userid(), "root@pam");
    assert_eq!(copy.api_url(), challenge.api_url());
    assert_eq!(copy.pve_compat(), challenge.pve_compat());
    assert_eq!(copy.challenge.recovery, RecoveryState::Low);
    assert!(copy.challenge.totp);
    let result = TicketResult::TfaRequired(challenge);
    assert!(matches!(result.clone(), TicketResult::TfaRequired(c) if c.ticket() == PARTIAL));
    let body = answer(&format!(
        "{{\"username\":\"root@pam\",\"ticket\":\"{TICKET}\",\"CSRFPreventionToken\":\"tok\"}}"
    ));
    let result = login().response(&body).unwrap();
    assert!(matches!(result.clone(), TicketResult::Full(a) if a.ticket.format() == TICKET));
}
