//! Realm records, and how an update changes one.

use vstd::prelude::*;
use vstd::string::*;
use crate::text::{clone_text, opt_text, trim, trimmed};

verus! {

/// How the connection to an LDAP server is secured.
#[derive(Clone, Copy, Debug, PartialEq, Eq, Structural)]
pub enum LdapMode {
    /// Plain LDAP.
    Ldap,
    /// LDAP with StartTLS.
    StartTls,
    /// LDAP over TLS.
    Ldaps,
}

/// An LDAP realm.
#[derive(Debug)]
pub struct LdapRealmConfig {
    /// The id of the realm.
    pub realm: String,
    /// The address of the server.
    pub server1: String,
    /// The address of the fallback server.
    pub server2: Option<String>,
    pub port: Option<u16>,
    /// Users are searched below this domain name.
    pub base_dn: String,
    /// The attribute that holds the user name.
    pub user_attr: String,
    pub comment: Option<String>,
    /// Whether this is the default realm.
    pub default: Option<bool>,
    pub mode: Option<LdapMode>,
    /// Whether the certificate of the server is verified.
    pub verify: Option<bool>,
    /// The CA certificate to verify the server with.
    pub capath: Option<String>,
    /// The domain name to bind with when users are looked up.
    pub bind_dn: Option<String>,
    /// The search filter for the user sync.
    pub filter: Option<String>,
    pub sync_defaults_options: Option<String>,
    pub sync_attributes: Option<String>,
    pub user_classes: Option<String>,
}

pub struct LdapRealmConfigView {
    pub realm: Seq<char>,
    pub server1: Seq<char>,
    pub server2: Option<Seq<char>>,
    pub port: Option<u16>,
    pub base_dn: Seq<char>,
    pub user_attr: Seq<char>,
    pub comment: Option<Seq<char>>,
    pub default: Option<bool>,
    pub mode: Option<LdapMode>,
    pub verify: Option<bool>,
    pub capath: Option<Seq<char>>,
    pub bind_dn: Option<Seq<char>>,
    pub filter: Option<Seq<char>>,
    pub sync_defaults_options: Option<Seq<char>>,
    pub sync_attributes: Option<Seq<char>>,
    pub user_classes: Option<Seq<char>>,
}

impl View for LdapRealmConfig {
    type V = LdapRealmConfigView;

    open spec fn view(&self) -> LdapRealmConfigView {
        LdapRealmConfigView {
            realm: self.realm@,
            server1: self.server1@,
            server2: opt_text(self.server2),
            port: self.port,
            base_dn: self.base_dn@,
            user_attr: self.user_attr@,
            comment: opt_text(self.comment),
            default: self.default,
            mode: self.mode,
            verify: self.verify,
            capath: opt_text(self.capath),
            bind_dn: opt_text(self.bind_dn),
            filter: opt_text(self.filter),
            sync_defaults_options: opt_text(self.sync_defaults_options),
            sync_attributes: opt_text(self.sync_attributes),
            user_classes: opt_text(self.user_classes),
        }
    }
}

impl Clone for LdapRealmConfig {
    fn clone(&self) -> (r: Self)
        ensures
            r@ == self@,
    {
        LdapRealmConfig {
            realm: self.realm.clone(),
            server1: self.server1.clone(),
            server2: clone_text(&self.server2),
            port: self.port,
            base_dn: self.base_dn.clone(),
            user_attr: self.user_attr.clone(),
            comment: clone_text(&self.comment),
            default: self.default,
            mode: self.mode,
            verify: self.verify,
            capath: clone_text(&self.capath),
            bind_dn: clone_text(&self.bind_dn),
            filter: clone_text(&self.filter),
            sync_defaults_options: clone_text(&self.sync_defaults_options),
            sync_attributes: clone_text(&self.sync_attributes),
            user_classes: clone_text(&self.user_classes),
        }
    }
}

/// The changes to an LDAP realm: each property that is present replaces the
/// one of the realm.
#[derive(Debug)]
pub struct LdapRealmConfigUpdater {
    pub server1: Option<String>,
    pub server2: Option<String>,
    pub port: Option<u16>,
    pub base_dn: Option<String>,
    pub user_attr: Option<String>,
    pub comment: Option<String>,
    pub default: Option<bool>,
    pub mode: Option<LdapMode>,
    pub verify: Option<bool>,
    pub bind_dn: Option<String>,
    pub filter: Option<String>,
    pub sync_defaults_options: Option<String>,
    pub sync_attributes: Option<String>,
    pub user_classes: Option<String>,
}

pub struct LdapRealmConfigUpdaterView {
    pub server1: Option<Seq<char>>,
    pub server2: Option<Seq<char>>,
    pub port: Option<u16>,
    pub base_dn: Option<Seq<char>>,
    pub user_attr: Option<Seq<char>>,
    pub comment: Option<Seq<char>>,
    pub default: Option<bool>,
    pub mode: Option<LdapMode>,
    pub verify: Option<bool>,
    pub bind_dn: Option<Seq<char>>,
    pub filter: Option<Seq<char>>,
    pub sync_defaults_options: Option<Seq<char>>,
    pub sync_attributes: Option<Seq<char>>,
    pub user_classes: Option<Seq<char>>,
}

impl View for LdapRealmConfigUpdater {
    type V = LdapRealmConfigUpdaterView;

    open spec fn view(&self) -> LdapRealmConfigUpdaterView {
        LdapRealmConfigUpdaterView {
            server1: opt_text(self.server1),
            server2: opt_text(self.server2),
            port: self.port,
            base_dn: opt_text(self.base_dn),
            user_attr: opt_text(self.user_attr),
            comment: opt_text(self.comment),
            default: self.default,
            mode: self.mode,
            verify: self.verify,
            bind_dn: opt_text(self.bind_dn),
            filter: opt_text(self.filter),
            sync_defaults_options: opt_text(self.sync_defaults_options),
            sync_attributes: opt_text(self.sync_attributes),
            user_classes: opt_text(self.user_classes),
        }
    }
}

impl LdapRealmConfigUpdater {
    /// The update that changes nothing.
    pub fn new() -> (r: Self)
        ensures
            r@ == (LdapRealmConfigUpdaterView {
                server1: None,
                server2: None,
                port: None,
                base_dn: None,
                user_attr: None,
                comment: None,
                default: None,
                mode: None,
                verify: None,
                bind_dn: None,
                filter: None,
                sync_defaults_options: None,
                sync_attributes: None,
                user_classes: None,
            }),
    {
        LdapRealmConfigUpdater {
            server1: None,
            server2: None,
            port: None,
            base_dn: None,
            user_attr: None,
            comment: None,
            default: None,
            mode: None,
            verify: None,
            bind_dn: None,
            filter: None,
            sync_defaults_options: None,
            sync_attributes: None,
            user_classes: None,
        }
    }
}

/// A property of an LDAP realm that an update can reset.
#[derive(Clone, Copy, Debug, PartialEq, Eq, Structural)]
pub enum DeletableProperty {
    /// The address of the fallback server.
    Server2,
    Port,
    Comment,
    /// The default flag.
    Default,
    Verify,
    Mode,
    BindDn,
    /// The bind password, which is kept outside the realm record.
    Password,
    Filter,
    SyncDefaultsOptions,
    SyncAttributes,
    UserClasses,
}

/// The realm without one property. The password is no part of the record.
pub open spec fn without_property(
    c: LdapRealmConfigView,
    p: DeletableProperty,
) -> LdapRealmConfigView {
    match p {
        DeletableProperty::Server2 => LdapRealmConfigView { server2: None, ..c },
        DeletableProperty::Port => LdapRealmConfigView { port: None, ..c },
        DeletableProperty::Comment => LdapRealmConfigView { comment: None, ..c },
        DeletableProperty::Default => LdapRealmConfigView { default: None, ..c },
        DeletableProperty::Verify => LdapRealmConfigView { verify: None, ..c },
        DeletableProperty::Mode => LdapRealmConfigView { mode: None, ..c },
        DeletableProperty::BindDn => LdapRealmConfigView { bind_dn: None, ..c },
        DeletableProperty::Password => c,
        DeletableProperty::Filter => LdapRealmConfigView { filter: None, ..c },
        DeletableProperty::SyncDefaultsOptions => LdapRealmConfigView {
            sync_defaults_options: None,
            ..c
        },
        DeletableProperty::SyncAttributes => LdapRealmConfigView { sync_attributes: None, ..c },
        DeletableProperty::UserClasses => LdapRealmConfigView { user_classes: None, ..c },
    }
}

/// The realm without the listed properties.
pub open spec fn without_properties(
    c: LdapRealmConfigView,
    delete: Seq<DeletableProperty>,
) -> LdapRealmConfigView
    decreases delete.len(),
{
    if delete.len() == 0 {
        c
    } else {
        without_property(without_properties(c, delete.drop_last()), delete.last())
    }
}

/// The new value or, where there is none, the value as it is.
pub open spec fn replaced<A>(new: Option<A>, now: A) -> A {
    match new {
        Some(v) => v,
        None => now,
    }
}

/// The new value or, where there is none, the value as it is.
pub open spec fn replaced_opt<A>(new: Option<A>, now: Option<A>) -> Option<A> {
    match new {
        Some(v) => Some(v),
        None => now,
    }
}

/// The comment after an update: a new comment is trimmed, and an empty one
/// means no comment.
pub open spec fn updated_comment(new: Option<Seq<char>>, now: Option<Seq<char>>) -> Option<
    Seq<char>,
> {
    match new {
        Some(text) => if trimmed(text).len() == 0 {
            None
        } else {
            Some(trimmed(text))
        },
        None => now,
    }
}

/// The realm with the changes of an update applied: each property that the
/// update names gets its new value, every other property keeps the value it
/// has.
pub open spec fn with_changes(
    c: LdapRealmConfigView,
    u: LdapRealmConfigUpdaterView,
) -> LdapRealmConfigView {
    LdapRealmConfigView {
        realm: c.realm,
        server1: replaced(u.server1, c.server1),
        server2: replaced_opt(u.server2, c.server2),
        port: replaced_opt(u.port, c.port),
        base_dn: replaced(u.base_dn, c.base_dn),
        user_attr: replaced(u.user_attr, c.user_attr),
        comment: updated_comment(u.comment, c.comment),
        default: replaced_opt(u.default, c.default),
        mode: replaced_opt(u.mode, c.mode),
        verify: replaced_opt(u.verify, c.verify),
        capath: c.capath,
        bind_dn: replaced_opt(u.bind_dn, c.bind_dn),
        filter: replaced_opt(u.filter, c.filter),
        sync_defaults_options: replaced_opt(u.sync_defaults_options, c.sync_defaults_options),
        sync_attributes: replaced_opt(u.sync_attributes, c.sync_attributes),
        user_classes: replaced_opt(u.user_classes, c.user_classes),
    }
}

/// The realm after an update: first the listed properties are reset, then the
/// changes are applied. A property that is both listed and changed ends up
/// with its new value.
pub open spec fn updated_realm(
    c: LdapRealmConfigView,
    delete: Seq<DeletableProperty>,
    u: LdapRealmConfigUpdaterView,
) -> LdapRealmConfigView {
    with_changes(without_properties(c, delete), u)
}

/// Whether the list leaves the property `p` alone.
pub open spec fn property_kept(delete: Seq<DeletableProperty>, p: DeletableProperty) -> bool {
    !delete.contains(p)
}

/// Resetting the listed properties leaves every other property as it is.
pub proof fn lemma_without_properties_keeps(c: LdapRealmConfigView, delete: Seq<DeletableProperty>)
    ensures
        ({
            let r = without_properties(c, delete);
            &&& r.realm == c.realm
            &&& r.server1 == c.server1
            &&& r.base_dn == c.base_dn
            &&& r.user_attr == c.user_attr
            &&& r.capath == c.capath
            &&& property_kept(delete, DeletableProperty::Server2) ==> r.server2 == c.server2
            &&& property_kept(delete, DeletableProperty::Port) ==> r.port == c.port
            &&& property_kept(delete, DeletableProperty::Comment) ==> r.comment == c.comment
            &&& property_kept(delete, DeletableProperty::Default) ==> r.default == c.default
            &&& property_kept(delete, DeletableProperty::Verify) ==> r.verify == c.verify
            &&& property_kept(delete, DeletableProperty::Mode) ==> r.mode == c.mode
            &&& property_kept(delete, DeletableProperty::BindDn) ==> r.bind_dn == c.bind_dn
            &&& property_kept(delete, DeletableProperty::Filter) ==> r.filter == c.filter
            &&& property_kept(delete, DeletableProperty::SyncDefaultsOptions)
                ==> r.sync_defaults_options == c.sync_defaults_options
            &&& property_kept(delete, DeletableProperty::SyncAttributes) ==> r.sync_attributes
                == c.sync_attributes
            &&& property_kept(delete, DeletableProperty::UserClasses) ==> r.user_classes
                == c.user_classes
        }),
    decreases delete.len(),
{
    if delete.len() > 0 {
        let shorter = delete.drop_last();
        lemma_without_properties_keeps(c, shorter);
        assert forall|p: DeletableProperty| property_kept(delete, p) implies property_kept(
            shorter,
            p,
        ) && delete.last() != p by {
            if shorter.contains(p) {
                let i = choose|i: int| 0 <= i < shorter.len() && shorter[i] == p;
                assert(delete[i] == p);
            }
            assert(delete[delete.len() - 1] == delete.last());
        }
    }
}

/// An update is partial: a property that it neither resets nor names keeps its
/// value.
pub proof fn lemma_update_keeps_untouched(
    c: LdapRealmConfigView,
    delete: Seq<DeletableProperty>,
    u: LdapRealmConfigUpdaterView,
)
    ensures
        ({
            let r = updated_realm(c, delete, u);
            &&& r.realm == c.realm
            &&& r.capath == c.capath
            &&& u.server1 is None ==> r.server1 == c.server1
            &&& u.base_dn is None ==> r.base_dn == c.base_dn
            &&& u.user_attr is None ==> r.user_attr == c.user_attr
            &&& u.server2 is None && property_kept(delete, DeletableProperty::Server2)
                ==> r.server2 == c.server2
            &&& u.port is None && property_kept(delete, DeletableProperty::Port) ==> r.port
                == c.port
            &&& u.comment is None && property_kept(delete, DeletableProperty::Comment)
                ==> r.comment == c.comment
            &&& u.default is None && property_kept(delete, DeletableProperty::Default)
                ==> r.default == c.default
            &&& u.verify is None && property_kept(delete, DeletableProperty::Verify) ==> r.verify
                == c.verify
            &&& u.mode is None && property_kept(delete, DeletableProperty::Mode) ==> r.mode
                == c.mode
            &&& u.bind_dn is None && property_kept(delete, DeletableProperty::BindDn)
                ==> r.bind_dn == c.bind_dn
            &&& u.filter is None && property_kept(delete, DeletableProperty::Filter) ==> r.filter
                == c.filter
            &&& u.sync_defaults_options is None && property_kept(
                delete,
                DeletableProperty::SyncDefaultsOptions,
            ) ==> r.sync_defaults_options == c.sync_defaults_options
            &&& u.sync_attributes is None && property_kept(
                delete,
                DeletableProperty::SyncAttributes,
            ) ==> r.sync_attributes == c.sync_attributes
            &&& u.user_classes is None && property_kept(delete, DeletableProperty::UserClasses)
                ==> r.user_classes == c.user_classes
        }),
{
    lemma_without_properties_keeps(c, delete);
}

/// A property that an update both resets and names ends up with its new
/// value: the comment of the update, trimmed, is the comment of the realm,
/// whatever the list of properties to reset holds.
pub proof fn lemma_new_value_wins(
    c: LdapRealmConfigView,
    delete: Seq<DeletableProperty>,
    u: LdapRealmConfigUpdaterView,
)
    ensures
        u.comment is Some ==> updated_realm(c, delete, u).comment == updated_comment(
            u.comment,
            None,
        ),
        u.comment is Some && trimmed(u.comment->0).len() > 0 ==> updated_realm(
            c,
            delete,
            u,
        ).comment == Some(trimmed(u.comment->0)),
        u.default is Some ==> updated_realm(c, delete, u).default == u.default,
        u.port is Some ==> updated_realm(c, delete, u).port == u.port,
{
}

impl LdapRealmConfig {
    /// Resets one property.
    pub fn delete_property(&mut self, p: DeletableProperty)
        ensures
            final(self)@ == without_property(old(self)@, p),
    {
        match p {
            DeletableProperty::Server2 => {
                self.server2 = None;
            },
            DeletableProperty::Port => {
                self.port = None;
            },
            DeletableProperty::Comment => {
                self.comment = None;
            },
            DeletableProperty::Default => {
                self.default = None;
            },
            DeletableProperty::Verify => {
                self.verify = None;
            },
            DeletableProperty::Mode => {
                self.mode = None;
            },
            DeletableProperty::BindDn => {
                self.bind_dn = None;
            },
            DeletableProperty::Password => {},
            DeletableProperty::Filter => {
                self.filter = None;
            },
            DeletableProperty::SyncDefaultsOptions => {
                self.sync_defaults_options = None;
            },
            DeletableProperty::SyncAttributes => {
                self.sync_attributes = None;
            },
            DeletableProperty::UserClasses => {
                self.user_classes = None;
            },
        }
    }

    /// Resets the listed properties, in the order of the list.
    pub fn delete_properties(&mut self, delete: &Vec<DeletableProperty>)
        ensures
            final(self)@ == without_properties(old(self)@, delete@),
    {
        let mut i: usize = 0;
        assert(delete@.take(0) =~= Seq::<DeletableProperty>::empty());
        while i < delete.len()
            invariant
                i <= delete@.len(),
                self@ == without_properties(old(self)@, delete@.take(i as int)),
            decreases delete@.len() - i,
        {
            assert(delete@.take(i + 1).drop_last() =~= delete@.take(i as int));
            self.delete_property(delete[i]);
            i += 1;
        }
        assert(delete@.take(delete@.len() as int) =~= delete@);
    }

    /// The realm with the changes of an update applied.
    pub fn updated(self, update: LdapRealmConfigUpdater) -> (r: Self)
        ensures
            r@ == with_changes(self@, update@),
    {
        LdapRealmConfig {
            realm: self.realm,
            server1: pick_text(update.server1, self.server1),
            server2: pick_optional_text(update.server2, self.server2),
            port: pick(update.port, self.port),
            base_dn: pick_text(update.base_dn, self.base_dn),
            user_attr: pick_text(update.user_attr, self.user_attr),
            comment: pick_comment(update.comment, self.comment),
            default: pick(update.default, self.default),
            mode: pick(update.mode, self.mode),
            verify: pick(update.verify, self.verify),
            capath: self.capath,
            bind_dn: pick_optional_text(update.bind_dn, self.bind_dn),
            filter: pick_optional_text(update.filter, self.filter),
            sync_defaults_options: pick_optional_text(
                update.sync_defaults_options,
                self.sync_defaults_options,
            ),
            sync_attributes: pick_optional_text(update.sync_attributes, self.sync_attributes),
            user_classes: pick_optional_text(update.user_classes, self.user_classes),
        }
    }
}

fn pick_text(new: Option<String>, now: String) -> (r: String)
    ensures
        r@ == replaced(opt_text(new), now@),
{
    match new {
        Some(v) => v,
        None => now,
    }
}

fn pick_optional_text(new: Option<String>, now: Option<String>) -> (r: Option<String>)
    ensures
        opt_text(r) == replaced_opt(opt_text(new), opt_text(now)),
{
    match new {
        Some(v) => Some(v),
        None => now,
    }
}

fn pick<A>(new: Option<A>, now: Option<A>) -> (r: Option<A>)
    ensures
        r == replaced_opt(new, now),
{
    match new {
        Some(v) => Some(v),
        None => now,
    }
}

fn pick_comment(new: Option<String>, now: Option<String>) -> (r: Option<String>)
    ensures
        opt_text(r) == updated_comment(opt_text(new), opt_text(now)),
{
    match new {
        Some(text) => {
            let text = trim(text.as_str());
            if text.as_str().unicode_len() == 0 {
                None
            } else {
                Some(text)
            }
        },
        None => now,
    }
}

/// Whether the list asks to remove the bind password.
pub fn deletes_password(delete: &Vec<DeletableProperty>) -> (r: bool)
    ensures
        r == delete@.contains(DeletableProperty::Password),
{
    let mut i: usize = 0;
    while i < delete.len()
        invariant
            i <= delete@.len(),
            forall|j: int| 0 <= j < i ==> delete@[j] != DeletableProperty::Password,
        decreases delete@.len() - i,
    {
        match delete[i] {
            DeletableProperty::Password => {
                return true;
            },
            _ => {},
        }
        i += 1;
    }
    false
}

/// An OpenID Connect realm.
#[derive(Debug)]
pub struct OpenIdRealmConfig {
    /// The id of the realm.
    pub realm: String,
    pub issuer_url: String,
    pub client_id: String,
    pub client_key: Option<String>,
    pub scopes: Option<String>,
    pub acr_values: Option<String>,
    pub prompt: Option<String>,
    pub comment: Option<String>,
    /// Whether users are created when they first log in.
    pub autocreate: Option<bool>,
    /// The claim that holds the user name.
    pub username_claim: Option<String>,
    /// Whether this is the default realm.
    pub default: Option<bool>,
}

pub struct OpenIdRealmConfigView {
    pub realm: Seq<char>,
    pub issuer_url: Seq<char>,
    pub client_id: Seq<char>,
    pub client_key: Option<Seq<char>>,
    pub scopes: Option<Seq<char>>,
    pub acr_values: Option<Seq<char>>,
    pub prompt: Option<Seq<char>>,
    pub comment: Option<Seq<char>>,
    pub autocreate: Option<bool>,
    pub username_claim: Option<Seq<char>>,
    pub default: Option<bool>,
}

impl View for OpenIdRealmConfig {
    type V = OpenIdRealmConfigView;

    open spec fn view(&self) -> OpenIdRealmConfigView {
        OpenIdRealmConfigView {
            realm: self.realm@,
            issuer_url: self.issuer_url@,
            client_id: self.client_id@,
            client_key: opt_text(self.client_key),
            scopes: opt_text(self.scopes),
            acr_values: opt_text(self.acr_values),
            prompt: opt_text(self.prompt),
            comment: opt_text(self.comment),
            autocreate: self.autocreate,
            username_claim: opt_text(self.username_claim),
            default: self.default,
        }
    }
}

impl Clone for OpenIdRealmConfig {
    fn clone(&self) -> (r: Self)
        ensures
            r@ == self@,
    {
        OpenIdRealmConfig {
            realm: self.realm.clone(),
            issuer_url: self.issuer_url.clone(),
            client_id: self.client_id.clone(),
            client_key: clone_text(&self.client_key),
            scopes: clone_text(&self.scopes),
            acr_values: clone_text(&self.acr_values),
            prompt: clone_text(&self.prompt),
            comment: clone_text(&self.comment),
            autocreate: self.autocreate,
            username_claim: clone_text(&self.username_claim),
            default: self.default,
        }
    }
}

/// A realm of any kind.
#[derive(Debug)]
pub enum RealmConfig {
    Ldap(LdapRealmConfig),
    OpenId(OpenIdRealmConfig),
}

pub enum RealmConfigView {
    Ldap(LdapRealmConfigView),
    OpenId(OpenIdRealmConfigView),
}

impl RealmConfigView {
    /// Whether the realm is marked as the default realm.
    pub open spec fn is_default(self) -> bool {
        match self {
            RealmConfigView::Ldap(c) => c.default == Some(true),
            RealmConfigView::OpenId(c) => c.default == Some(true),
        }
    }

    /// The realm as a realm that is not the default realm: a default realm
    /// loses its flag, any other realm is as it is.
    pub open spec fn without_default(self) -> RealmConfigView {
        if !self.is_default() {
            self
        } else {
            match self {
                RealmConfigView::Ldap(c) => RealmConfigView::Ldap(
                    LdapRealmConfigView { default: None, ..c },
                ),
                RealmConfigView::OpenId(c) => RealmConfigView::OpenId(
                    OpenIdRealmConfigView { default: None, ..c },
                ),
            }
        }
    }

    /// The name of the realm's kind in a section file.
    pub open spec fn section_type(self) -> Seq<char> {
        match self {
            RealmConfigView::Ldap(_) => "ldap"@,
            RealmConfigView::OpenId(_) => "openid"@,
        }
    }
}

impl View for RealmConfig {
    type V = RealmConfigView;

    open spec fn view(&self) -> RealmConfigView {
        match self {
            RealmConfig::Ldap(c) => RealmConfigView::Ldap(c@),
            RealmConfig::OpenId(c) => RealmConfigView::OpenId(c@),
        }
    }
}

impl Clone for RealmConfig {
    fn clone(&self) -> (r: Self)
        ensures
            r@ == self@,
    {
        match self {
            RealmConfig::Ldap(c) => RealmConfig::Ldap(c.clone()),
            RealmConfig::OpenId(c) => RealmConfig::OpenId(c.clone()),
        }
    }
}

impl RealmConfig {
    /// Whether the realm is marked as the default realm.
    pub fn is_default(&self) -> (r: bool)
        ensures
            r == self@.is_default(),
    {
        let flag = match self {
            RealmConfig::Ldap(c) => c.default,
            RealmConfig::OpenId(c) => c.default,
        };
        match flag {
            Some(true) => true,
            _ => false,
        }
    }

    /// The realm as a realm that is not the default realm: a default realm
    /// loses its flag, any other realm is as it is.
    pub fn without_default(self) -> (r: Self)
        ensures
            r@ == self@.without_default(),
    {
        if !self.is_default() {
            return self;
        }
        match self {
            RealmConfig::Ldap(c) => {
                let mut c = c;
                c.default = None;
                RealmConfig::Ldap(c)
            },
            RealmConfig::OpenId(c) => {
                let mut c = c;
                c.default = None;
                RealmConfig::OpenId(c)
            },
        }
    }
}

} // verus!
