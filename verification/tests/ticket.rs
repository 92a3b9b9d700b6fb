use pdm_auth::ticket::{Ticket, TicketError};

const TOKEN: &str = "PVE:root@pam:65A0F5C2::c2lnbmF0dXJl";

#[test]
fn parse_takes_a_token_apart() {
    let t = Ticket::parse(TOKEN).unwrap();
    assert_eq!(t.product(), "PVE");
    assert_eq!(t.userid(), "root@pam");
    assert_eq!(t.timestamp(), 0x65A0F5C2);
}

#[test]
fn format_gives_the_token_back() {
    let t = Ticket::parse(TOKEN).unwrap();
    assert_eq!(t.format(), TOKEN);
    assert_eq!(Ticket::parse(&t.format()).unwrap(), t);
}

#[test]
fn too_few_fields_are_invalid() {
    assert_eq!(Ticket::parse("").unwrap_err(), TicketError::Invalid);
    assert_eq!(Ticket::parse("PVE").unwrap_err(), TicketError::Invalid);
    assert_eq!(Ticket::parse("PVE:root@pam").unwrap_err(), TicketError::Invalid);
    assert_eq!(Ticket::parse("PVE:root@pam:65A0F5C2").unwrap_err(), TicketError::Invalid);
    assert_eq!(Ticket::parse("PVE:root@pam:65A0F5C2:sig").unwrap_err(), TicketError::Invalid);
}

#[test]
fn a_bad_field_is_malformed() {
    assert_eq!(Ticket::parse(":root@pam:65A0F5C2::sig").unwrap_err(), TicketError::Malformed);
    assert_eq!(Ticket::parse("PVE::65A0F5C2::sig").unwrap_err(), TicketError::Malformed);
    assert_eq!(Ticket::parse("PVE:root@pam:::sig").unwrap_err(), TicketError::Malformed);
    assert_eq!(Ticket::parse("PVE:root@pam:12G4::sig").unwrap_err(), TicketError::Malformed);
    assert_eq!(
        Ticket::parse("PVE:root@pam:8000000000000000::sig").unwrap_err(),
        TicketError::Malformed
    );
}

#[test]
fn the_largest_timestamp_is_accepted() {
    let t = Ticket::parse("PBS:a@b:7fffffffffffffff::").unwrap();
    assert_eq!(t.timestamp(), i64::MAX);
    assert_eq!(t.product(), "PBS");
}

#[test]
fn the_signature_may_hold_anything() {
    let t = Ticket::parse("PVE:root@pam:0::a:b::c").unwrap();
    assert_eq!(t.timestamp(), 0);
    assert_eq!(t.format(), "PVE:root@pam:0::a:b::c");
    let t = Ticket::parse("P:ü@é:aBcD::").unwrap();
    assert_eq!(t.userid(), "ü@é");
    assert_eq!(t.timestamp(), 0xabcd);
    assert_eq!(t.clone(), t);
    assert_eq!(t.into_string(), "P:ü@é:aBcD::");
}

#[test]
fn ticket_errors_say_what_went_wrong() {
    assert_eq!(TicketError::Invalid.message(), "invalid ticket");
    assert_eq!(TicketError::Malformed.message(), "malformed ticket");
}

#[test]
fn a_string_parses_into_a_ticket() {
    let t: Ticket = TOKEN.parse().unwrap();
    assert_eq!(t, Ticket::parse(TOKEN).unwrap());
    assert_eq!("nonsense".parse::<Ticket>().unwrap_err(), TicketError::Invalid);
}
