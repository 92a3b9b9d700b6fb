use pdm_auth::digest::ConfigDigest;
use pdm_auth::domains::{
    complete_openid_realm_name, complete_realm_name, create_ldap_realm, decode_realms,
    delete_ldap_realm, encode_realms, list_ldap_realms, plan_update, read_ldap_realm,
    realm_exists, store_realm, unset_default_realm, update_ldap_realm, RealmError, Realms,
};
use pdm_auth::realm::{
    DeletableProperty, LdapRealmConfig, LdapRealmConfigUpdater, OpenIdRealmConfig, RealmConfig,
};
use pdm_auth::section_config::SectionConfigData;
use pdm_auth::section_entry::ApiSectionDataEntry;

fn ldap(realm: &str, default: Option<bool>) -> LdapRealmConfig {
    LdapRealmConfig {
        realm: realm.to_string(),
        server1: "ldap.example".to_string(),
        server2: None,
        port: None,
        base_dn: "dc=example".to_string(),
        user_attr: "uid".to_string(),
        comment: Some("old text".to_string()),
        default,
        mode: None,
        verify: None,
        capath: None,
        bind_dn: None,
        filter: None,
        sync_defaults_options: None,
        sync_attributes: None,
        user_classes: None,
    }
}

fn openid(realm: &str, default: Option<bool>) -> OpenIdRealmConfig {
    OpenIdRealmConfig {
        realm: realm.to_string(),
        issuer_url: "https://issuer".to_string(),
        client_id: "id".to_string(),
        client_key: None,
        scopes: None,
        acr_values: None,
        prompt: None,
        comment: None,
        autocreate: None,
        username_claim: None,
        default,
    }
}

fn default_of(domains: &Realms, realm: &str) -> Option<bool> {
    match domains.get(realm).unwrap() {
        RealmConfig::Ldap(c) => c.default,
        RealmConfig::OpenId(c) => c.default,
    }
}

fn store() -> Realms {
    let mut domains: Realms = SectionConfigData::new();
    domains.insert("sso".to_string(), RealmConfig::OpenId(openid("sso", Some(true))));
    create_ldap_realm(&mut domains, ldap("ldap1", None)).unwrap();
    domains
}

fn digest() -> ConfigDigest {
    ConfigDigest::of(b"the file")
}

fn snapshot(domains: &Realms) -> Vec<(String, String, Option<bool>, Option<String>)> {
    let mut out = Vec::new();
    let mut it = domains.iter();
    while let Some((id, realm)) = it.next() {
        let comment = match realm {
            RealmConfig::Ldap(c) => c.comment.clone(),
            RealmConfig::OpenId(c) => c.comment.clone(),
        };
        out.push((id.to_string(), realm.section_type().to_string(), default_of(domains, id), comment));
    }
    out
}

#[test]
fn a_second_default_realm_clears_the_first() {
    let mut domains: Realms = SectionConfigData::new();
    create_ldap_realm(&mut domains, ldap("ldap1", Some(true))).unwrap();
    assert_eq!(default_of(&domains, "ldap1"), Some(true));
    create_ldap_realm(&mut domains, ldap("ldap2", Some(true))).unwrap();
    let list = list_ldap_realms(&domains);
    assert_eq!(list.len(), 2);
    assert_eq!(list[0].realm, "ldap1");
    assert_eq!(list[0].default, None);
    assert_eq!(list[1].realm, "ldap2");
    assert_eq!(list[1].default, Some(true));
}

#[test]
fn a_new_default_realm_is_the_only_one_among_all_kinds() {
    let mut domains = store();
    create_ldap_realm(&mut domains, ldap("ldap2", Some(true))).unwrap();
    assert_eq!(default_of(&domains, "sso"), None);
    assert_eq!(default_of(&domains, "ldap1"), None);
    assert_eq!(default_of(&domains, "ldap2"), Some(true));
    let defaults = ["sso", "ldap1", "ldap2"]
        .iter()
        .filter(|id| domains.get(id).unwrap().is_default())
        .count();
    assert_eq!(defaults, 1);
}

#[test]
fn a_realm_that_is_not_the_default_leaves_the_default_alone() {
    let mut domains = store();
    create_ldap_realm(&mut domains, ldap("ldap2", None)).unwrap();
    create_ldap_realm(&mut domains, ldap("ldap3", Some(false))).unwrap();
    assert_eq!(default_of(&domains, "sso"), Some(true));
    assert_eq!(default_of(&domains, "ldap3"), Some(false));
    assert_eq!(domains.order, vec!["sso", "ldap1", "ldap2", "ldap3"]);
}

#[test]
fn an_id_can_be_created_only_once() {
    let mut domains = store();
    let before = snapshot(&domains);
    assert_eq!(
        create_ldap_realm(&mut domains, ldap("ldap1", Some(true))),
        Err(RealmError::AlreadyExists)
    );
    assert_eq!(
        create_ldap_realm(&mut domains, ldap("sso", None)),
        Err(RealmError::AlreadyExists)
    );
    assert_eq!(snapshot(&domains), before);
}

#[test]
fn updating_to_default_clears_every_other_default() {
    let mut domains = store();
    let mut update = LdapRealmConfigUpdater::new();
    update.default = Some(true);
    assert_eq!(
        update_ldap_realm(&mut domains, &digest(), "ldap1", update, None, Some(&digest())),
        Ok(false)
    );
    assert_eq!(default_of(&domains, "ldap1"), Some(true));
    assert_eq!(default_of(&domains, "sso"), None);
    assert_eq!(domains.order, vec!["sso", "ldap1"]);
}

#[test]
fn an_update_that_does_not_name_the_default_flag_keeps_it() {
    let mut domains: Realms = SectionConfigData::new();
    create_ldap_realm(&mut domains, ldap("ldap1", Some(true))).unwrap();
    let update = LdapRealmConfigUpdater::new();
    update_ldap_realm(&mut domains, &digest(), "ldap1", update, None, None).unwrap();
    assert_eq!(default_of(&domains, "ldap1"), Some(true));
}

#[test]
fn an_update_of_the_server_changes_nothing_else() {
    let mut domains: Realms = SectionConfigData::new();
    domains.insert("sso".to_string(), RealmConfig::OpenId(openid("sso", Some(false))));
    create_ldap_realm(&mut domains, ldap("other", None)).unwrap();
    create_ldap_realm(&mut domains, ldap("ldap1", Some(true))).unwrap();
    let before = read_ldap_realm(&domains, "ldap1").unwrap();
    let others = snapshot(&domains);
    let mut update = LdapRealmConfigUpdater::new();
    update.server1 = Some("new.example".to_string());
    assert_eq!(update_ldap_realm(&mut domains, &digest(), "ldap1", update, None, None), Ok(false));
    let after = read_ldap_realm(&domains, "ldap1").unwrap();
    assert_eq!(after.server1, "new.example");
    assert_eq!(after.default, Some(true));
    let mut expected = before.clone();
    expected.server1 = "new.example".to_string();
    assert_eq!(after.to_json(), expected.to_json());
    assert_eq!(snapshot(&domains), others);
    assert_eq!(default_of(&domains, "sso"), Some(false));
    assert_eq!(default_of(&domains, "other"), None);
}

#[test]
fn the_default_flag_is_cleared_through_the_delete_list() {
    let mut domains: Realms = SectionConfigData::new();
    create_ldap_realm(&mut domains, ldap("ldap1", Some(true))).unwrap();
    update_ldap_realm(
        &mut domains,
        &digest(),
        "ldap1",
        LdapRealmConfigUpdater::new(),
        Some(vec![DeletableProperty::Default]),
        None,
    )
    .unwrap();
    assert_eq!(default_of(&domains, "ldap1"), None);
}

#[test]
fn a_default_flag_of_false_leaves_the_default_realm_alone() {
    let mut domains = store();
    let mut update = LdapRealmConfigUpdater::new();
    update.default = Some(false);
    update_ldap_realm(&mut domains, &digest(), "ldap1", update, None, None).unwrap();
    assert_eq!(default_of(&domains, "ldap1"), Some(false));
    assert_eq!(default_of(&domains, "sso"), Some(true));
}

#[test]
fn updating_a_default_realm_keeps_it_the_only_one() {
    let mut domains: Realms = SectionConfigData::new();
    create_ldap_realm(&mut domains, ldap("ldap1", Some(true))).unwrap();
    domains.insert("sso".to_string(), RealmConfig::OpenId(openid("sso", Some(true))));
    let mut update = LdapRealmConfigUpdater::new();
    update.port = Some(389);
    update_ldap_realm(&mut domains, &digest(), "ldap1", update, None, None).unwrap();
    assert_eq!(default_of(&domains, "ldap1"), Some(true));
    assert_eq!(default_of(&domains, "sso"), None);
}

#[test]
fn a_plan_tells_which_password_the_check_binds_with() {
    let domains = store();
    let plan = |delete| {
        plan_update(&domains, &digest(), "ldap1", LdapRealmConfigUpdater::new(), delete, None)
            .unwrap()
    };
    assert!(plan(None).uses_stored_password(false));
    assert!(!plan(None).uses_stored_password(true));
    assert!(!plan(Some(vec![DeletableProperty::Password])).uses_stored_password(false));
    assert!(!plan(Some(vec![DeletableProperty::Password])).uses_stored_password(true));
}

#[test]
fn a_copy_of_the_realms_is_its_own() {
    let mut domains = store();
    let copy = domains.clone();
    delete_ldap_realm(&mut domains, &digest(), "ldap1", None).unwrap();
    assert_eq!(copy.order, vec!["sso", "ldap1"]);
    assert_eq!(copy.len(), 2);
    assert_eq!(read_ldap_realm(&copy, "ldap1").unwrap().base_dn, "dc=example");
    assert_eq!(domains.order, vec!["sso"]);
}

#[test]
fn an_update_with_a_stale_digest_is_a_conflict() {
    let mut domains = store();
    let before = snapshot(&domains);
    let stale = ConfigDigest::of(b"an older file");
    let mut update = LdapRealmConfigUpdater::new();
    update.comment = Some("new text".to_string());
    update.default = Some(true);
    assert_eq!(
        update_ldap_realm(
            &mut domains,
            &digest(),
            "ldap1",
            update,
            Some(vec![DeletableProperty::Password]),
            Some(&stale)
        ),
        Err(RealmError::Modified)
    );
    assert_eq!(snapshot(&domains), before);
    let update = LdapRealmConfigUpdater::new();
    assert_eq!(
        update_ldap_realm(&mut domains, &digest(), "nope", update, None, Some(&stale)),
        Err(RealmError::Modified)
    );
    assert_eq!(snapshot(&domains), before);
}

#[test]
fn an_update_needs_an_ldap_realm_of_that_id() {
    let mut domains = store();
    let before = snapshot(&domains);
    assert_eq!(
        update_ldap_realm(&mut domains, &digest(), "nope", LdapRealmConfigUpdater::new(), None, None),
        Err(RealmError::NotFound)
    );
    assert_eq!(
        update_ldap_realm(&mut domains, &digest(), "sso", LdapRealmConfigUpdater::new(), None, None),
        Err(RealmError::WrongType)
    );
    assert_eq!(snapshot(&domains), before);
}

#[test]
fn a_comment_that_is_both_deleted_and_set_is_set() {
    let mut domains = store();
    let mut update = LdapRealmConfigUpdater::new();
    update.comment = Some("new text".to_string());
    update_ldap_realm(
        &mut domains,
        &digest(),
        "ldap1",
        update,
        Some(vec![DeletableProperty::Comment]),
        None,
    )
    .unwrap();
    let stored = read_ldap_realm(&domains, "ldap1").unwrap();
    assert_eq!(stored.comment, Some("new text".to_string()));
}

#[test]
fn a_comment_that_is_only_deleted_is_gone() {
    let mut domains = store();
    update_ldap_realm(
        &mut domains,
        &digest(),
        "ldap1",
        LdapRealmConfigUpdater::new(),
        Some(vec![DeletableProperty::Comment]),
        None,
    )
    .unwrap();
    assert_eq!(read_ldap_realm(&domains, "ldap1").unwrap().comment, None);
}

#[test]
fn an_update_tells_when_the_password_is_to_be_removed() {
    let mut domains = store();
    let delete = Some(vec![DeletableProperty::Port, DeletableProperty::Password]);
    assert_eq!(
        update_ldap_realm(&mut domains, &digest(), "ldap1", LdapRealmConfigUpdater::new(), delete, None),
        Ok(true)
    );
    let plan = plan_update(
        &domains,
        &digest(),
        "ldap1",
        LdapRealmConfigUpdater::new(),
        Some(vec![DeletableProperty::Port]),
        None,
    )
    .unwrap();
    assert!(!plan.remove_password);
    assert_eq!(plan.config.realm, "ldap1");
}

#[test]
fn a_plan_changes_nothing() {
    let domains = store();
    let before = snapshot(&domains);
    let mut update = LdapRealmConfigUpdater::new();
    update.default = Some(true);
    update.server1 = Some("other".to_string());
    let plan = plan_update(&domains, &digest(), "ldap1", update, None, None).unwrap();
    assert_eq!(plan.config.server1, "other");
    assert_eq!(plan.config.default, Some(true));
    assert_eq!(snapshot(&domains), before);
    assert_eq!(read_ldap_realm(&domains, "ldap1").unwrap().server1, "ldap.example");
}

#[test]
fn deleting_what_is_not_there_is_not_found() {
    let mut domains = store();
    let before = snapshot(&domains);
    assert_eq!(delete_ldap_realm(&mut domains, &digest(), "nope", None), Err(RealmError::NotFound));
    assert_eq!(
        delete_ldap_realm(&mut domains, &digest(), "nope", Some(&digest())),
        Err(RealmError::NotFound)
    );
    assert_eq!(snapshot(&domains), before);
    assert_eq!(domains.order, vec!["sso", "ldap1"]);
}

#[test]
fn deleting_with_a_stale_digest_is_a_conflict() {
    let mut domains = store();
    let before = snapshot(&domains);
    let stale = ConfigDigest::of(b"an older file");
    assert_eq!(
        delete_ldap_realm(&mut domains, &digest(), "ldap1", Some(&stale)),
        Err(RealmError::Modified)
    );
    assert_eq!(
        delete_ldap_realm(&mut domains, &digest(), "nope", Some(&stale)),
        Err(RealmError::Modified)
    );
    assert_eq!(snapshot(&domains), before);
}

#[test]
fn deleting_removes_the_realm_and_its_place() {
    let mut domains = store();
    create_ldap_realm(&mut domains, ldap("ldap2", None)).unwrap();
    assert_eq!(delete_ldap_realm(&mut domains, &digest(), "ldap1", Some(&digest())), Ok(()));
    assert!(!realm_exists(&domains, "ldap1"));
    assert!(realm_exists(&domains, "ldap2"));
    assert_eq!(domains.order, vec!["sso", "ldap2"]);
    assert_eq!(read_ldap_realm(&domains, "ldap1").unwrap_err(), RealmError::NotFound);
    assert_eq!(delete_ldap_realm(&mut domains, &digest(), "sso", None), Ok(()));
    assert_eq!(domains.order, vec!["ldap2"]);
}

#[test]
fn reading_tells_missing_from_wrong_kind() {
    let domains = store();
    assert_eq!(read_ldap_realm(&domains, "ldap1").unwrap().base_dn, "dc=example");
    assert_eq!(read_ldap_realm(&domains, "sso").unwrap_err(), RealmError::WrongType);
    assert_eq!(read_ldap_realm(&domains, "nope").unwrap_err(), RealmError::NotFound);
}

#[test]
fn the_list_is_in_the_order_of_the_store() {
    let mut domains: Realms = SectionConfigData::new();
    for id in ["zz", "aa", "mm"] {
        create_ldap_realm(&mut domains, ldap(id, None)).unwrap();
    }
    domains.insert("oo".to_string(), RealmConfig::OpenId(openid("oo", None)));
    create_ldap_realm(&mut domains, ldap("bb", None)).unwrap();
    let ids: Vec<String> = list_ldap_realms(&domains).into_iter().map(|c| c.realm).collect();
    assert_eq!(ids, vec!["zz", "aa", "mm", "bb"]);
}

#[test]
fn unset_default_realm_spares_no_kind() {
    let mut domains = store();
    store_realm(&mut domains, "ldap1".to_string(), ldap("ldap1", Some(false)));
    store_realm(&mut domains, "ldap2".to_string(), ldap("ldap2", None));
    domains.insert("ldap3".to_string(), RealmConfig::Ldap(ldap("ldap3", Some(true))));
    assert_eq!(default_of(&domains, "ldap1"), Some(false));
    assert_eq!(default_of(&domains, "sso"), Some(true));
    unset_default_realm(&mut domains);
    assert_eq!(default_of(&domains, "sso"), None);
    assert_eq!(default_of(&domains, "ldap3"), None);
    assert_eq!(default_of(&domains, "ldap1"), Some(false));
    assert_eq!(default_of(&domains, "ldap2"), None);
    assert_eq!(domains.order, vec!["sso", "ldap1", "ldap2", "ldap3"]);
}

#[test]
fn completion_offers_the_ids() {
    let mut domains = store();
    domains.insert("sso2".to_string(), RealmConfig::OpenId(openid("sso2", None)));
    let mut all = complete_realm_name(&domains);
    all.sort();
    assert_eq!(all, vec!["ldap1", "sso", "sso2"]);
    let mut some = complete_openid_realm_name(&domains);
    some.sort();
    assert_eq!(some, vec!["sso", "sso2"]);
    let empty: Realms = SectionConfigData::new();
    assert!(complete_realm_name(&empty).is_empty());
    assert!(complete_openid_realm_name(&empty).is_empty());
}

#[test]
fn realms_are_written_as_kind_and_plain_object() {
    let mut domains = store();
    create_ldap_realm(&mut domains, ldap("a-first", Some(true))).unwrap();
    let raw = encode_realms(&domains);
    assert_eq!(raw.order, vec!["sso", "ldap1", "a-first"]);
    let (kind, plain) = raw.get("ldap1").unwrap();
    assert_eq!(kind, "ldap");
    let expected: serde_json::Value = serde_json::from_str(
        r#"{"realm":"ldap1","server1":"ldap.example","base-dn":"dc=example","user-attr":"uid","comment":"old text"}"#,
    )
    .unwrap();
    assert_eq!(plain, &expected);
    let (kind, plain) = raw.get("sso").unwrap();
    assert_eq!(kind, "openid");
    let expected: serde_json::Value = serde_json::from_str(
        r#"{"realm":"sso","issuer-url":"https://issuer","client-id":"id"}"#,
    )
    .unwrap();
    assert_eq!(plain, &expected);
}

#[test]
fn realms_written_and_read_again_are_the_same() {
    let mut domains = store();
    create_ldap_realm(&mut domains, ldap("a-first", Some(true))).unwrap();
    let back = decode_realms(encode_realms(&domains)).unwrap();
    assert_eq!(back.order, domains.order);
    assert_eq!(snapshot(&back), snapshot(&domains));
    for id in ["sso", "ldap1", "a-first"] {
        assert_eq!(
            back.get(id).unwrap().to_json(),
            domains.get(id).unwrap().to_json()
        );
    }
}

#[test]
fn a_record_of_an_unknown_kind_fails_the_whole() {
    let mut raw = encode_realms(&store());
    raw.insert(
        "ad1".to_string(),
        ("ad".to_string(), serde_json::from_str(r#"{"realm":"ad1"}"#).unwrap()),
    );
    assert!(decode_realms(raw).is_err());
    let mut raw = encode_realms(&store());
    raw.insert(
        "l2".to_string(),
        ("ldap".to_string(), serde_json::from_str(r#"{"realm":"l2"}"#).unwrap()),
    );
    assert!(decode_realms(raw).is_err());
}

#[test]
fn refusals_say_what_went_wrong() {
    assert_eq!(
        RealmError::Modified.message("r"),
        "detected modified configuration - file changed by other user? Try again."
    );
    assert_eq!(RealmError::AlreadyExists.message("ldap1"), "realm 'ldap1' already exists.");
    assert_eq!(RealmError::NotFound.message("ldap1"), "realm 'ldap1' does not exist.");
    assert_eq!(RealmError::WrongType.message("sso"), "realm 'sso' is not an LDAP realm.");
}
