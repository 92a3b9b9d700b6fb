use pdm_auth::digest::{ConfigDigest, DigestError};

#[test]
fn the_digest_is_the_sha256_of_the_content() {
    assert_eq!(
        ConfigDigest::of(b"").to_hex(),
        "e3b0c44298fc1c149afbf4c8996fb92427ae41e4649b934ca495991b7852b855"
    );
    assert_eq!(
        ConfigDigest::of(b"abc").to_hex(),
        "ba7816bf8f01cfea414140de5dae2223b00361a396177a9cb410ff61f20015ad"
    );
}

#[test]
fn to_hex_writes_two_lowercase_digits_for_each_byte() {
    let mut bytes = [0u8; 32];
    bytes[0] = 0x0f;
    bytes[1] = 0xf0;
    bytes[2] = 0xab;
    bytes[31] = 0x9c;
    let hex = ConfigDigest::from_bytes(bytes).to_hex();
    assert_eq!(hex.len(), 64);
    assert_eq!(&hex[..6], "0ff0ab");
    assert_eq!(&hex[6..62], "0".repeat(56));
    assert_eq!(&hex[62..], "9c");
}

#[test]
fn bytes_go_in_and_out() {
    let mut bytes = [7u8; 32];
    bytes[5] = 9;
    assert_eq!(ConfigDigest::from_bytes(bytes).to_bytes(), bytes);
}

#[test]
fn digests_compare_by_their_bytes() {
    let a = ConfigDigest::of(b"a");
    let b = ConfigDigest::of(b"b");
    assert!(a.same_as(&ConfigDigest::of(b"a")));
    assert!(!a.same_as(&b));
    let mut bytes = a.to_bytes();
    bytes[31] ^= 1;
    assert!(!a.same_as(&ConfigDigest::from_bytes(bytes)));
}

#[test]
fn a_change_is_detected_only_against_a_digest() {
    let now = ConfigDigest::of(b"now");
    let then = ConfigDigest::of(b"then");
    assert_eq!(now.detect_modification(None), Ok(()));
    assert_eq!(now.detect_modification(Some(&ConfigDigest::of(b"now"))), Ok(()));
    assert_eq!(now.detect_modification(Some(&then)), Err(DigestError::Modified));
}

#[test]
fn a_digest_is_read_from_its_hex_text() {
    let d = ConfigDigest::of(b"abc");
    assert_eq!(ConfigDigest::from_hex(&d.to_hex()), Some(d));
    assert_eq!(ConfigDigest::from_hex(&d.to_hex().to_uppercase()), Some(d));
    let mut bytes = [0u8; 32];
    bytes[0] = 0xde;
    bytes[1] = 0xad;
    bytes[31] = 0x01;
    let text = format!("DEad{}01", "0".repeat(58));
    assert_eq!(ConfigDigest::from_hex(&text), Some(ConfigDigest::from_bytes(bytes)));
}

#[test]
fn what_is_no_digest_is_not_read() {
    let hex = ConfigDigest::of(b"abc").to_hex();
    assert_eq!(ConfigDigest::from_hex(""), None);
    assert_eq!(ConfigDigest::from_hex(&hex[1..]), None);
    assert_eq!(ConfigDigest::from_hex(&format!("{hex}0")), None);
    assert_eq!(ConfigDigest::from_hex(&format!("g{}", &hex[1..])), None);
    assert_eq!(ConfigDigest::from_hex(&format!("{}-", &hex[..63])), None);
    assert_eq!(ConfigDigest::from_hex(&"é".repeat(64)), None);
}
