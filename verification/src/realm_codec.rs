//! The JSON form of a realm record.
//!
//! A realm is written as one JSON object. Its member `type` names the kind of
//! the realm. Every property has a member of its own, under its name in
//! kebab-case; a property that is not set has none.

use vstd::prelude::*;
use vstd::string::*;
use crate::json::{
    json_bool, json_error, json_is_object, json_model, json_string, json_u64, Json, JsonNumber,
};
use crate::json_fields::{
    build_object, distinct_names, lemma_object_of, members_of, object_of, read_optional_bool,
    read_optional_str, read_optional_u64, read_required_str, Members,
};
use crate::realm::{
    LdapMode, LdapRealmConfig, LdapRealmConfigView, OpenIdRealmConfig, OpenIdRealmConfigView,
    RealmConfig, RealmConfigView,
};
use crate::section_entry::{ApiSectionDataEntry, TaggingMode};
use crate::text::{opt_text, str_eq};

verus! {

/// The name of a connection mode.
pub open spec fn mode_name(mode: LdapMode) -> Seq<char> {
    match mode {
        LdapMode::Ldap => "ldap"@,
        LdapMode::StartTls => "ldap+starttls"@,
        LdapMode::Ldaps => "ldaps"@,
    }
}

/// The connection mode that a name stands for.
pub open spec fn mode_named(name: Seq<char>) -> Option<LdapMode> {
    if name == "ldap"@ {
        Some(LdapMode::Ldap)
    } else if name == "ldap+starttls"@ {
        Some(LdapMode::StartTls)
    } else if name == "ldaps"@ {
        Some(LdapMode::Ldaps)
    } else {
        None
    }
}

pub open spec fn text_json(v: Option<Seq<char>>) -> Option<Json> {
    match v {
        Some(s) => Some(Json::String(s)),
        None => None,
    }
}

pub open spec fn flag_json(v: Option<bool>) -> Option<Json> {
    match v {
        Some(b) => Some(Json::Bool(b)),
        None => None,
    }
}

pub open spec fn port_json(v: Option<u16>) -> Option<Json> {
    match v {
        Some(p) => Some(Json::Number(JsonNumber::PosInt(p as u64))),
        None => None,
    }
}

pub open spec fn mode_json(v: Option<LdapMode>) -> Option<Json> {
    match v {
        Some(m) => Some(Json::String(mode_name(m))),
        None => None,
    }
}

/// A port where the member is present: an integer from 0 to 65535.
pub open spec fn optional_port(j: Json, key: Seq<char>) -> Option<Option<u16>> {
    match j.optional_u64(key) {
        Some(Some(n)) => if n <= u16::MAX {
            Some(Some(n as u16))
        } else {
            None
        },
        Some(None) => Some(None),
        None => None,
    }
}

/// A connection mode where the member is present: one of the three names.
pub open spec fn optional_mode(j: Json, key: Seq<char>) -> Option<Option<LdapMode>> {
    match j.optional_str(key) {
        Some(Some(name)) => match mode_named(name) {
            Some(m) => Some(Some(m)),
            None => None,
        },
        Some(None) => Some(None),
        None => None,
    }
}

fn text_member(s: &String) -> (r: Option<serde_json::Value>)
    ensures
        r matches Some(v) && json_model(v) == Json::String(s@),
{
    Some(json_string(s.clone()))
}

fn optional_text_member(s: &Option<String>) -> (r: Option<serde_json::Value>)
    ensures
        match r {
            Some(v) => text_json(opt_text(*s)) == Some(json_model(v)),
            None => text_json(opt_text(*s)) is None,
        },
{
    match s {
        Some(s) => Some(json_string(s.clone())),
        None => None,
    }
}

fn optional_flag_member(b: Option<bool>) -> (r: Option<serde_json::Value>)
    ensures
        match r {
            Some(v) => flag_json(b) == Some(json_model(v)),
            None => flag_json(b) is None,
        },
{
    match b {
        Some(b) => Some(json_bool(b)),
        None => None,
    }
}

fn optional_port_member(p: Option<u16>) -> (r: Option<serde_json::Value>)
    ensures
        match r {
            Some(v) => port_json(p) == Some(json_model(v)),
            None => port_json(p) is None,
        },
{
    match p {
        Some(p) => Some(json_u64(p as u64)),
        None => None,
    }
}

fn optional_mode_member(m: Option<LdapMode>) -> (r: Option<serde_json::Value>)
    ensures
        match r {
            Some(v) => mode_json(m) == Some(json_model(v)),
            None => mode_json(m) is None,
        },
{
    match m {
        Some(LdapMode::Ldap) => Some(json_string("ldap".to_owned())),
        Some(LdapMode::StartTls) => Some(json_string("ldap+starttls".to_owned())),
        Some(LdapMode::Ldaps) => Some(json_string("ldaps".to_owned())),
        None => None,
    }
}

/// The members of the JSON form of an LDAP realm.
pub open spec fn ldap_members(c: LdapRealmConfigView) -> Members {
    seq![
        ("type"@, Some(Json::String("ldap"@))),
        ("realm"@, Some(Json::String(c.realm))),
        ("server1"@, Some(Json::String(c.server1))),
        ("server2"@, text_json(c.server2)),
        ("port"@, port_json(c.port)),
        ("base-dn"@, Some(Json::String(c.base_dn))),
        ("user-attr"@, Some(Json::String(c.user_attr))),
        ("comment"@, text_json(c.comment)),
        ("default"@, flag_json(c.default)),
        ("mode"@, mode_json(c.mode)),
        ("verify"@, flag_json(c.verify)),
        ("capath"@, text_json(c.capath)),
        ("bind-dn"@, text_json(c.bind_dn)),
        ("filter"@, text_json(c.filter)),
        ("sync-defaults-options"@, text_json(c.sync_defaults_options)),
        ("sync-attributes"@, text_json(c.sync_attributes)),
        ("user-classes"@, text_json(c.user_classes)),
    ]
}

/// The JSON form of an LDAP realm.
pub open spec fn ldap_json(c: LdapRealmConfigView) -> Json {
    object_of(ldap_members(c))
}

/// Whether a JSON object has every member of an LDAP realm in its kind.
pub open spec fn is_ldap_json(j: Json) -> bool {
    &&& j is Object
    &&& j.required_str("realm"@) is Some
    &&& j.required_str("server1"@) is Some
    &&& j.optional_str("server2"@) is Some
    &&& optional_port(j, "port"@) is Some
    &&& j.required_str("base-dn"@) is Some
    &&& j.required_str("user-attr"@) is Some
    &&& j.optional_str("comment"@) is Some
    &&& j.optional_bool("default"@) is Some
    &&& optional_mode(j, "mode"@) is Some
    &&& j.optional_bool("verify"@) is Some
    &&& j.optional_str("capath"@) is Some
    &&& j.optional_str("bind-dn"@) is Some
    &&& j.optional_str("filter"@) is Some
    &&& j.optional_str("sync-defaults-options"@) is Some
    &&& j.optional_str("sync-attributes"@) is Some
    &&& j.optional_str("user-classes"@) is Some
}

/// The LDAP realm that a JSON object stands for. Members that are no
/// properties of an LDAP realm are passed over.
pub open spec fn ldap_of_json(j: Json) -> Option<LdapRealmConfigView> {
    if is_ldap_json(j) {
        Some(
            LdapRealmConfigView {
                realm: j.required_str("realm"@)->0,
                server1: j.required_str("server1"@)->0,
                server2: j.optional_str("server2"@)->0,
                port: optional_port(j, "port"@)->0,
                base_dn: j.required_str("base-dn"@)->0,
                user_attr: j.required_str("user-attr"@)->0,
                comment: j.optional_str("comment"@)->0,
                default: j.optional_bool("default"@)->0,
                mode: optional_mode(j, "mode"@)->0,
                verify: j.optional_bool("verify"@)->0,
                capath: j.optional_str("capath"@)->0,
                bind_dn: j.optional_str("bind-dn"@)->0,
                filter: j.optional_str("filter"@)->0,
                sync_defaults_options: j.optional_str("sync-defaults-options"@)->0,
                sync_attributes: j.optional_str("sync-attributes"@)->0,
                user_classes: j.optional_str("user-classes"@)->0,
            },
        )
    } else {
        None
    }
}

/// The members of the JSON form of an OpenID Connect realm.
pub open spec fn openid_members(c: OpenIdRealmConfigView) -> Members {
    seq![
        ("type"@, Some(Json::String("openid"@))),
        ("realm"@, Some(Json::String(c.realm))),
        ("issuer-url"@, Some(Json::String(c.issuer_url))),
        ("client-id"@, Some(Json::String(c.client_id))),
        ("client-key"@, text_json(c.client_key)),
        ("scopes"@, text_json(c.scopes)),
        ("acr-values"@, text_json(c.acr_values)),
        ("prompt"@, text_json(c.prompt)),
        ("comment"@, text_json(c.comment)),
        ("autocreate"@, flag_json(c.autocreate)),
        ("username-claim"@, text_json(c.username_claim)),
        ("default"@, flag_json(c.default)),
    ]
}

/// The JSON form of an OpenID Connect realm.
pub open spec fn openid_json(c: OpenIdRealmConfigView) -> Json {
    object_of(openid_members(c))
}

/// Whether a JSON object has every member of an OpenID Connect realm in its
/// kind.
pub open spec fn is_openid_json(j: Json) -> bool {
    &&& j is Object
    &&& j.required_str("realm"@) is Some
    &&& j.required_str("issuer-url"@) is Some
    &&& j.required_str("client-id"@) is Some
    &&& j.optional_str("client-key"@) is Some
    &&& j.optional_str("scopes"@) is Some
    &&& j.optional_str("acr-values"@) is Some
    &&& j.optional_str("prompt"@) is Some
    &&& j.optional_str("comment"@) is Some
    &&& j.optional_bool("autocreate"@) is Some
    &&& j.optional_str("username-claim"@) is Some
    &&& j.optional_bool("default"@) is Some
}

/// The OpenID Connect realm that a JSON object stands for.
pub open spec fn openid_of_json(j: Json) -> Option<OpenIdRealmConfigView> {
    if is_openid_json(j) {
        Some(
            OpenIdRealmConfigView {
                realm: j.required_str("realm"@)->0,
                issuer_url: j.required_str("issuer-url"@)->0,
                client_id: j.required_str("client-id"@)->0,
                client_key: j.optional_str("client-key"@)->0,
                scopes: j.optional_str("scopes"@)->0,
                acr_values: j.optional_str("acr-values"@)->0,
                prompt: j.optional_str("prompt"@)->0,
                comment: j.optional_str("comment"@)->0,
                autocreate: j.optional_bool("autocreate"@)->0,
                username_claim: j.optional_str("username-claim"@)->0,
                default: j.optional_bool("default"@)->0,
            },
        )
    } else {
        None
    }
}

/// The JSON form of a realm.
pub open spec fn realm_json(r: RealmConfigView) -> Json {
    match r {
        RealmConfigView::Ldap(c) => ldap_json(c),
        RealmConfigView::OpenId(c) => openid_json(c),
    }
}

/// The realm that a JSON form stands for: its member `type` names the kind.
pub open spec fn realm_of_json(j: Json) -> Option<RealmConfigView> {
    match j.required_str("type"@) {
        Some(kind) => if kind == "ldap"@ {
            match ldap_of_json(j) {
                Some(c) => Some(RealmConfigView::Ldap(c)),
                None => None,
            }
        } else if kind == "openid"@ {
            match openid_of_json(j) {
                Some(c) => Some(RealmConfigView::OpenId(c)),
                None => None,
            }
        } else {
            None
        },
        None => None,
    }
}

/// What the names of the members hold, as far as it tells them apart.
proof fn reveal_member_names()
    ensures
        "type"@.len() == 4 && "type"@[0] == 't',
        "realm"@.len() == 5,
        "server1"@.len() == 7 && "server1"@[6] == '1',
        "server2"@.len() == 7 && "server2"@[6] == '2',
        "port"@.len() == 4 && "port"@[0] == 'p',
        "base-dn"@.len() == 7 && "base-dn"@[6] == 'n' && "base-dn"@[1] == 'a',
        "user-attr"@.len() == 9 && "user-attr"@[0] == 'u',
        "comment"@.len() == 7 && "comment"@[6] == 't' && "comment"@[0] == 'c',
        "default"@.len() == 7 && "default"@[6] == 't' && "default"@[0] == 'd',
        "mode"@.len() == 4 && "mode"@[0] == 'm',
        "verify"@.len() == 6 && "verify"@[0] == 'v',
        "capath"@.len() == 6 && "capath"@[0] == 'c',
        "bind-dn"@.len() == 7 && "bind-dn"@[6] == 'n' && "bind-dn"@[1] == 'i',
        "filter"@.len() == 6 && "filter"@[0] == 'f',
        "sync-defaults-options"@.len() == 21,
        "sync-attributes"@.len() == 15,
        "user-classes"@.len() == 12,
        "issuer-url"@.len() == 10 && "issuer-url"@[0] == 'i',
        "client-id"@.len() == 9 && "client-id"@[0] == 'c',
        "client-key"@.len() == 10 && "client-key"@[0] == 'c',
        "scopes"@.len() == 6 && "scopes"@[0] == 's',
        "acr-values"@.len() == 10 && "acr-values"@[0] == 'a' && "acr-values"@[1] == 'c',
        "prompt"@.len() == 6 && "prompt"@[0] == 'p',
        "autocreate"@.len() == 10 && "autocreate"@[0] == 'a' && "autocreate"@[1] == 'u',
        "username-claim"@.len() == 14,
        "ldap"@.len() == 4,
        "ldaps"@.len() == 5,
        "ldap+starttls"@.len() == 13,
        "openid"@.len() == 6,
{
    reveal_strlit("type");
    reveal_strlit("realm");
    reveal_strlit("server1");
    reveal_strlit("server2");
    reveal_strlit("port");
    reveal_strlit("base-dn");
    reveal_strlit("user-attr");
    reveal_strlit("comment");
    reveal_strlit("default");
    reveal_strlit("mode");
    reveal_strlit("verify");
    reveal_strlit("capath");
    reveal_strlit("bind-dn");
    reveal_strlit("filter");
    reveal_strlit("sync-defaults-options");
    reveal_strlit("sync-attributes");
    reveal_strlit("user-classes");
    reveal_strlit("issuer-url");
    reveal_strlit("client-id");
    reveal_strlit("client-key");
    reveal_strlit("scopes");
    reveal_strlit("acr-values");
    reveal_strlit("prompt");
    reveal_strlit("autocreate");
    reveal_strlit("username-claim");
    reveal_strlit("ldap");
    reveal_strlit("ldaps");
    reveal_strlit("ldap+starttls");
    reveal_strlit("openid");
}

/// The name of a connection mode stands for that mode.
pub proof fn lemma_mode_roundtrip(mode: LdapMode)
    ensures
        mode_named(mode_name(mode)) == Some(mode),
{
    reveal_member_names();
}

/// No two members of an LDAP realm have the same name.
proof fn lemma_ldap_names(c: LdapRealmConfigView)
    ensures
        distinct_names(ldap_members(c)),
        ldap_members(c).len() == 17,
{
    reveal_member_names();
}

/// What the JSON form of an LDAP realm holds under each name.
proof fn lemma_ldap_fields(c: LdapRealmConfigView)
    ensures
        ldap_json(c) is Object,
        ldap_json(c).field("type"@) == Some(Json::String("ldap"@)),
        ldap_json(c).field("realm"@) == Some(Json::String(c.realm)),
        ldap_json(c).field("server1"@) == Some(Json::String(c.server1)),
        ldap_json(c).field("server2"@) == text_json(c.server2),
        ldap_json(c).field("port"@) == port_json(c.port),
        ldap_json(c).field("base-dn"@) == Some(Json::String(c.base_dn)),
        ldap_json(c).field("user-attr"@) == Some(Json::String(c.user_attr)),
        ldap_json(c).field("comment"@) == text_json(c.comment),
        ldap_json(c).field("default"@) == flag_json(c.default),
        ldap_json(c).field("mode"@) == mode_json(c.mode),
        ldap_json(c).field("verify"@) == flag_json(c.verify),
        ldap_json(c).field("capath"@) == text_json(c.capath),
        ldap_json(c).field("bind-dn"@) == text_json(c.bind_dn),
        ldap_json(c).field("filter"@) == text_json(c.filter),
        ldap_json(c).field("sync-defaults-options"@) == text_json(c.sync_defaults_options),
        ldap_json(c).field("sync-attributes"@) == text_json(c.sync_attributes),
        ldap_json(c).field("user-classes"@) == text_json(c.user_classes),
{
    let m = ldap_members(c);
    lemma_ldap_names(c);
    lemma_object_of(m, 0);
    lemma_object_of(m, 1);
    lemma_object_of(m, 2);
    lemma_object_of(m, 3);
    lemma_object_of(m, 4);
    lemma_object_of(m, 5);
    lemma_object_of(m, 6);
    lemma_object_of(m, 7);
    lemma_object_of(m, 8);
    lemma_object_of(m, 9);
    lemma_object_of(m, 10);
    lemma_object_of(m, 11);
    lemma_object_of(m, 12);
    lemma_object_of(m, 13);
    lemma_object_of(m, 14);
    lemma_object_of(m, 15);
    lemma_object_of(m, 16);
}

/// An object that holds each property of an LDAP realm under its name stands
/// for that realm.
proof fn lemma_ldap_of_fields(j: Json, c: LdapRealmConfigView)
    requires
        j is Object,
        j.field("realm"@) == Some(Json::String(c.realm)),
        j.field("server1"@) == Some(Json::String(c.server1)),
        j.field("server2"@) == text_json(c.server2),
        j.field("port"@) == port_json(c.port),
        j.field("base-dn"@) == Some(Json::String(c.base_dn)),
        j.field("user-attr"@) == Some(Json::String(c.user_attr)),
        j.field("comment"@) == text_json(c.comment),
        j.field("default"@) == flag_json(c.default),
        j.field("mode"@) == mode_json(c.mode),
        j.field("verify"@) == flag_json(c.verify),
        j.field("capath"@) == text_json(c.capath),
        j.field("bind-dn"@) == text_json(c.bind_dn),
        j.field("filter"@) == text_json(c.filter),
        j.field("sync-defaults-options"@) == text_json(c.sync_defaults_options),
        j.field("sync-attributes"@) == text_json(c.sync_attributes),
        j.field("user-classes"@) == text_json(c.user_classes),
    ensures
        ldap_of_json(j) == Some(c),
{
    if c.mode is Some {
        lemma_mode_roundtrip(c.mode->0);
    }
    assert(j.optional_str("server2"@) == Some(c.server2));
    assert(optional_port(j, "port"@) == Some(c.port));
    assert(j.optional_str("comment"@) == Some(c.comment));
    assert(j.optional_bool("default"@) == Some(c.default));
    assert(optional_mode(j, "mode"@) == Some(c.mode));
    assert(j.optional_bool("verify"@) == Some(c.verify));
    assert(j.optional_str("capath"@) == Some(c.capath));
    assert(j.optional_str("bind-dn"@) == Some(c.bind_dn));
    assert(j.optional_str("filter"@) == Some(c.filter));
    assert(j.optional_str("sync-defaults-options"@) == Some(c.sync_defaults_options));
    assert(j.optional_str("sync-attributes"@) == Some(c.sync_attributes));
    assert(j.optional_str("user-classes"@) == Some(c.user_classes));
}

/// The JSON form of an LDAP realm stands for that realm.
pub proof fn lemma_ldap_roundtrip(c: LdapRealmConfigView)
    ensures
        ldap_json(c).required_str("type"@) == Some("ldap"@),
        ldap_of_json(ldap_json(c)) == Some(c),
{
    lemma_ldap_fields(c);
    lemma_ldap_of_fields(ldap_json(c), c);
}

/// No two members of an OpenID Connect realm have the same name.
proof fn lemma_openid_names(c: OpenIdRealmConfigView)
    ensures
        distinct_names(openid_members(c)),
        openid_members(c).len() == 12,
{
    reveal_member_names();
}

/// What the JSON form of an OpenID Connect realm holds under each name.
proof fn lemma_openid_fields(c: OpenIdRealmConfigView)
    ensures
        openid_json(c) is Object,
        openid_json(c).field("type"@) == Some(Json::String("openid"@)),
        openid_json(c).field("realm"@) == Some(Json::String(c.realm)),
        openid_json(c).field("issuer-url"@) == Some(Json::String(c.issuer_url)),
        openid_json(c).field("client-id"@) == Some(Json::String(c.client_id)),
        openid_json(c).field("client-key"@) == text_json(c.client_key),
        openid_json(c).field("scopes"@) == text_json(c.scopes),
        openid_json(c).field("acr-values"@) == text_json(c.acr_values),
        openid_json(c).field("prompt"@) == text_json(c.prompt),
        openid_json(c).field("comment"@) == text_json(c.comment),
        openid_json(c).field("autocreate"@) == flag_json(c.autocreate),
        openid_json(c).field("username-claim"@) == text_json(c.username_claim),
        openid_json(c).field("default"@) == flag_json(c.default),
{
    let m = openid_members(c);
    lemma_openid_names(c);
    lemma_object_of(m, 0);
    lemma_object_of(m, 1);
    lemma_object_of(m, 2);
    lemma_object_of(m, 3);
    lemma_object_of(m, 4);
    lemma_object_of(m, 5);
    lemma_object_of(m, 6);
    lemma_object_of(m, 7);
    lemma_object_of(m, 8);
    lemma_object_of(m, 9);
    lemma_object_of(m, 10);
    lemma_object_of(m, 11);
}

/// An object that holds each property of an OpenID Connect realm under its
/// name stands for that realm.
proof fn lemma_openid_of_fields(j: Json, c: OpenIdRealmConfigView)
    requires
        j is Object,
        j.field("realm"@) == Some(Json::String(c.realm)),
        j.field("issuer-url"@) == Some(Json::String(c.issuer_url)),
        j.field("client-id"@) == Some(Json::String(c.client_id)),
        j.field("client-key"@) == text_json(c.client_key),
        j.field("scopes"@) == text_json(c.scopes),
        j.field("acr-values"@) == text_json(c.acr_values),
        j.field("prompt"@) == text_json(c.prompt),
        j.field("comment"@) == text_json(c.comment),
        j.field("autocreate"@) == flag_json(c.autocreate),
        j.field("username-claim"@) == text_json(c.username_claim),
        j.field("default"@) == flag_json(c.default),
    ensures
        openid_of_json(j) == Some(c),
{
    assert(j.optional_str("client-key"@) == Some(c.client_key));
    assert(j.optional_str("scopes"@) == Some(c.scopes));
    assert(j.optional_str("acr-values"@) == Some(c.acr_values));
    assert(j.optional_str("prompt"@) == Some(c.prompt));
    assert(j.optional_str("comment"@) == Some(c.comment));
    assert(j.optional_bool("autocreate"@) == Some(c.autocreate));
    assert(j.optional_str("username-claim"@) == Some(c.username_claim));
    assert(j.optional_bool("default"@) == Some(c.default));
}

/// The JSON form of an OpenID Connect realm stands for that realm.
pub proof fn lemma_openid_roundtrip(c: OpenIdRealmConfigView)
    ensures
        openid_json(c).required_str("type"@) == Some("openid"@),
        openid_of_json(openid_json(c)) == Some(c),
{
    lemma_openid_fields(c);
    lemma_openid_of_fields(openid_json(c), c);
}

/// The JSON form of a realm stands for that realm.
pub proof fn lemma_realm_roundtrip(r: RealmConfigView)
    ensures
        realm_of_json(realm_json(r)) == Some(r),
{
    reveal_member_names();
    match r {
        RealmConfigView::Ldap(c) => {
            lemma_ldap_roundtrip(c);
        },
        RealmConfigView::OpenId(c) => {
            lemma_openid_roundtrip(c);
        },
    }
}

fn read_optional_port(v: &serde_json::Value, key: &str) -> (r: Option<Option<u16>>)
    ensures
        r == optional_port(json_model(*v), key@),
{
    match read_optional_u64(v, key) {
        Some(Some(n)) => {
            if n <= 65535 {
                Some(Some(n as u16))
            } else {
                None
            }
        },
        Some(None) => Some(None),
        None => None,
    }
}

fn read_optional_mode(v: &serde_json::Value, key: &str) -> (r: Option<Option<LdapMode>>)
    ensures
        r == optional_mode(json_model(*v), key@),
{
    match read_optional_str(v, key) {
        Some(Some(name)) => {
            if str_eq(name.as_str(), "ldap") {
                Some(Some(LdapMode::Ldap))
            } else if str_eq(name.as_str(), "ldap+starttls") {
                Some(Some(LdapMode::StartTls))
            } else if str_eq(name.as_str(), "ldaps") {
                Some(Some(LdapMode::Ldaps))
            } else {
                None
            }
        },
        Some(None) => Some(None),
        None => None,
    }
}

impl LdapRealmConfig {
    /// Writes the realm in its JSON form.
    pub fn to_json(&self) -> (r: serde_json::Value)
        ensures
            json_model(r) == ldap_json(self@),
    {
        let list = vec![
            ("type", Some(json_string("ldap".to_owned()))),
            ("realm", text_member(&self.realm)),
            ("server1", text_member(&self.server1)),
            ("server2", optional_text_member(&self.server2)),
            ("port", optional_port_member(self.port)),
            ("base-dn", text_member(&self.base_dn)),
            ("user-attr", text_member(&self.user_attr)),
            ("comment", optional_text_member(&self.comment)),
            ("default", optional_flag_member(self.default)),
            ("mode", optional_mode_member(self.mode)),
            ("verify", optional_flag_member(self.verify)),
            ("capath", optional_text_member(&self.capath)),
            ("bind-dn", optional_text_member(&self.bind_dn)),
            ("filter", optional_text_member(&self.filter)),
            ("sync-defaults-options", optional_text_member(&self.sync_defaults_options)),
            ("sync-attributes", optional_text_member(&self.sync_attributes)),
            ("user-classes", optional_text_member(&self.user_classes)),
        ];
        assert(members_of(list@) =~= ldap_members(self@));
        build_object(list)
    }

    /// Reads a realm from its JSON form.
    pub fn from_json(v: &serde_json::Value) -> (r: Option<LdapRealmConfig>)
        ensures
            match r {
                Some(c) => ldap_of_json(json_model(*v)) == Some(c@),
                None => ldap_of_json(json_model(*v)) is None,
            },
    {
        if !json_is_object(v) {
            return None;
        }
        let realm = match read_required_str(v, "realm") {
            Some(x) => x,
            None => {
                return None;
            },
        };
        let server1 = match read_required_str(v, "server1") {
            Some(x) => x,
            None => {
                return None;
            },
        };
        let server2 = match read_optional_str(v, "server2") {
            Some(x) => x,
            None => {
                return None;
            },
        };
        let port = match read_optional_port(v, "port") {
            Some(x) => x,
            None => {
                return None;
            },
        };
        let base_dn = match read_required_str(v, "base-dn") {
            Some(x) => x,
            None => {
                return None;
            },
        };
        let user_attr = match read_required_str(v, "user-attr") {
            Some(x) => x,
            None => {
                return None;
            },
        };
        let comment = match read_optional_str(v, "comment") {
            Some(x) => x,
            None => {
                return None;
            },
        };
        let default = match read_optional_bool(v, "default") {
            Some(x) => x,
            None => {
                return None;
            },
        };
        let mode = match read_optional_mode(v, "mode") {
            Some(x) => x,
            None => {
                return None;
            },
        };
        let verify = match read_optional_bool(v, "verify") {
            Some(x) => x,
            None => {
                return None;
            },
        };
        let capath = match read_optional_str(v, "capath") {
            Some(x) => x,
            None => {
                return None;
            },
        };
        let bind_dn = match read_optional_str(v, "bind-dn") {
            Some(x) => x,
            None => {
                return None;
            },
        };
        let filter = match read_optional_str(v, "filter") {
            Some(x) => x,
            None => {
                return None;
            },
        };
        let sync_defaults_options = match read_optional_str(v, "sync-defaults-options") {
            Some(x) => x,
            None => {
                return None;
            },
        };
        let sync_attributes = match read_optional_str(v, "sync-attributes") {
            Some(x) => x,
            None => {
                return None;
            },
        };
        let user_classes = match read_optional_str(v, "user-classes") {
            Some(x) => x,
            None => {
                return None;
            },
        };
        Some(
            LdapRealmConfig {
                realm,
                server1,
                server2,
                port,
                base_dn,
                user_attr,
                comment,
                default,
                mode,
                verify,
                capath,
                bind_dn,
                filter,
                sync_defaults_options,
                sync_attributes,
                user_classes,
            },
        )
    }
}

impl OpenIdRealmConfig {
    /// Writes the realm in its JSON form.
    pub fn to_json(&self) -> (r: serde_json::Value)
        ensures
            json_model(r) == openid_json(self@),
    {
        let list = vec![
            ("type", Some(json_string("openid".to_owned()))),
            ("realm", text_member(&self.realm)),
            ("issuer-url", text_member(&self.issuer_url)),
            ("client-id", text_member(&self.client_id)),
            ("client-key", optional_text_member(&self.client_key)),
            ("scopes", optional_text_member(&self.scopes)),
            ("acr-values", optional_text_member(&self.acr_values)),
            ("prompt", optional_text_member(&self.prompt)),
            ("comment", optional_text_member(&self.comment)),
            ("autocreate", optional_flag_member(self.autocreate)),
            ("username-claim", optional_text_member(&self.username_claim)),
            ("default", optional_flag_member(self.default)),
        ];
        assert(members_of(list@) =~= openid_members(self@));
        build_object(list)
    }

    /// Reads a realm from its JSON form.
    pub fn from_json(v: &serde_json::Value) -> (r: Option<OpenIdRealmConfig>)
        ensures
            match r {
                Some(c) => openid_of_json(json_model(*v)) == Some(c@),
                None => openid_of_json(json_model(*v)) is None,
            },
    {
        if !json_is_object(v) {
            return None;
        }
        let realm = match read_required_str(v, "realm") {
            Some(x) => x,
            None => {
                return None;
            },
        };
        let issuer_url = match read_required_str(v, "issuer-url") {
            Some(x) => x,
            None => {
                return None;
            },
        };
        let client_id = match read_required_str(v, "client-id") {
            Some(x) => x,
            None => {
                return None;
            },
        };
        let client_key = match read_optional_str(v, "client-key") {
            Some(x) => x,
            None => {
                return None;
            },
        };
        let scopes = match read_optional_str(v, "scopes") {
            Some(x) => x,
            None => {
                return None;
            },
        };
        let acr_values = match read_optional_str(v, "acr-values") {
            Some(x) => x,
            None => {
                return None;
            },
        };
        let prompt = match read_optional_str(v, "prompt") {
            Some(x) => x,
            None => {
                return None;
            },
        };
        let comment = match read_optional_str(v, "comment") {
            Some(x) => x,
            None => {
                return None;
            },
        };
        let autocreate = match read_optional_bool(v, "autocreate") {
            Some(x) => x,
            None => {
                return None;
            },
        };
        let username_claim = match read_optional_str(v, "username-claim") {
            Some(x) => x,
            None => {
                return None;
            },
        };
        let default = match read_optional_bool(v, "default") {
            Some(x) => x,
            None => {
                return None;
            },
        };
        Some(
            OpenIdRealmConfig {
                realm,
                issuer_url,
                client_id,
                client_key,
                scopes,
                acr_values,
                prompt,
                comment,
                autocreate,
                username_claim,
                default,
            },
        )
    }
}

impl RealmConfig {
    /// Writes the realm in its JSON form.
    pub fn to_json(&self) -> (r: serde_json::Value)
        ensures
            json_model(r) == realm_json(self@),
    {
        match self {
            RealmConfig::Ldap(c) => c.to_json(),
            RealmConfig::OpenId(c) => c.to_json(),
        }
    }

    /// Reads a realm from its JSON form.
    pub fn from_json(v: &serde_json::Value) -> (r: Option<RealmConfig>)
        ensures
            match r {
                Some(c) => realm_of_json(json_model(*v)) == Some(c@),
                None => realm_of_json(json_model(*v)) is None,
            },
    {
        let kind = match read_required_str(v, "type") {
            Some(kind) => kind,
            None => {
                return None;
            },
        };
        if str_eq(kind.as_str(), "ldap") {
            match LdapRealmConfig::from_json(v) {
                Some(c) => Some(RealmConfig::Ldap(c)),
                None => None,
            }
        } else if str_eq(kind.as_str(), "openid") {
            match OpenIdRealmConfig::from_json(v) {
                Some(c) => Some(RealmConfig::OpenId(c)),
                None => None,
            }
        } else {
            None
        }
    }
}

impl ApiSectionDataEntry for RealmConfig {
    type Model = RealmConfigView;

    open spec fn model(&self) -> RealmConfigView {
        self@
    }

    open spec fn tagging() -> TaggingMode {
        TaggingMode::Internal("type")
    }

    fn tagging_mode() -> (r: TaggingMode) {
        TaggingMode::Internal("type")
    }

    open spec fn section_type_spec(value: RealmConfigView) -> Seq<char> {
        value.section_type()
    }

    fn section_type(&self) -> (r: &'static str) {
        match self {
            RealmConfig::Ldap(_) => "ldap",
            RealmConfig::OpenId(_) => "openid",
        }
    }

    open spec fn decoded(tagged: Json) -> Option<RealmConfigView> {
        realm_of_json(tagged)
    }

    fn deserialize(tagged: serde_json::Value) -> (r: Result<Self, serde_json::Error>) {
        match RealmConfig::from_json(&tagged) {
            Some(c) => Ok(c),
            None => Err(json_error("not a realm of a known kind")),
        }
    }

    open spec fn encoded(value: RealmConfigView) -> Option<Json> {
        Some(realm_json(value))
    }

    fn serialize(&self) -> (r: Result<serde_json::Value, serde_json::Error>) {
        Ok(self.to_json())
    }
}

} // verus!
