use pdm_auth::dashboard::RemoteType;
use pdm_auth::pbs::{body_kind, is_pbs, BodyKind};

#[test]
fn only_a_backup_server_is_one() {
    assert!(is_pbs(RemoteType::Pbs));
    assert!(!is_pbs(RemoteType::Pve));
}

#[test]
fn the_status_decides_first() {
    assert_eq!(body_kind(404, Some("application/json-seq")), BodyKind::Error);
    assert_eq!(body_kind(500, None), BodyKind::Error);
    assert_eq!(body_kind(201, Some("application/json")), BodyKind::Error);
}

#[test]
fn the_content_type_tells_records_from_a_document() {
    assert_eq!(body_kind(200, Some("application/json-seq")), BodyKind::Records);
    assert_eq!(body_kind(200, Some("application/json-seq; charset=utf-8")), BodyKind::Records);
    assert_eq!(body_kind(200, Some("application/json")), BodyKind::Document);
    assert_eq!(body_kind(200, Some(" application/json-seq")), BodyKind::Document);
    assert_eq!(body_kind(200, Some("")), BodyKind::Document);
    assert_eq!(body_kind(200, None), BodyKind::Document);
}
