//! The rules of the realm store.
//!
//! The store is a section file with one record for each realm. Reading and
//! writing the file, the lock that a writer holds meanwhile, the connection
//! check of an LDAP realm and the bind passwords are the caller's business.
//! Here are the decisions in between: what a request does to the realms that
//! were read, and when it is refused.

use vstd::prelude::*;
use vstd::string::*;
use crate::digest::ConfigDigest;
use crate::json::json_model;
use crate::realm::{
    deletes_password, updated_realm, DeletableProperty, LdapRealmConfig, LdapRealmConfigUpdater,
    LdapRealmConfigView, RealmConfig, RealmConfigView,
};
use crate::realm_codec::{lemma_ldap_roundtrip, lemma_openid_roundtrip, lemma_realm_roundtrip};
use crate::section_config::{with_id, without_first, SectionConfigData};
use crate::section_entry::{
    codec_is_lossless, entry_decoded, entry_encoded, lemma_entry_roundtrip,
    lemma_section_data_roundtrip, lemma_written_data_reads, read_as, to_raw, try_from_raw,
    written_as,
    RawSectionConfigData,
};

verus! {

/// The realms of the store.
pub type Realms = SectionConfigData<RealmConfig>;

/// Why a request to the realm store was refused.
#[derive(Clone, Copy, Debug, PartialEq, Eq, Structural)]
pub enum RealmError {
    /// The file is not what the caller has read: someone else changed it.
    Modified,
    /// There is a realm with this id already.
    AlreadyExists,
    /// There is no realm with this id.
    NotFound,
    /// The realm with this id is of another kind.
    WrongType,
}

impl RealmError {
    /// What the error says of the realm `realm`.
    pub open spec fn text(self, realm: Seq<char>) -> Seq<char> {
        match self {
            RealmError::Modified =>
                "detected modified configuration - file changed by other user? Try again."@,
            RealmError::AlreadyExists => "realm '"@ + realm + "' already exists."@,
            RealmError::NotFound => "realm '"@ + realm + "' does not exist."@,
            RealmError::WrongType => "realm '"@ + realm + "' is not an LDAP realm."@,
        }
    }

    /// What the error says of the realm `realm`.
    pub fn message(&self, realm: &str) -> (r: String)
        ensures
            r@ == self.text(realm@),
    {
        match self {
            RealmError::Modified =>
                "detected modified configuration - file changed by other user? Try again.".to_owned(),
            RealmError::AlreadyExists => "realm '".to_owned().concat(realm).concat(
                "' already exists.",
            ),
            RealmError::NotFound => "realm '".to_owned().concat(realm).concat("' does not exist."),
            RealmError::WrongType => "realm '".to_owned().concat(realm).concat(
                "' is not an LDAP realm.",
            ),
        }
    }
}

/// Whether the caller's digest, if there is one, differs from the file's.
pub open spec fn is_stale(current: Seq<u8>, digest: Option<&ConfigDigest>) -> bool {
    digest matches Some(d) && d@ != current
}

/// Whether there is a realm with this id.
pub fn realm_exists(domains: &Realms, realm: &str) -> (r: bool)
    ensures
        r == domains.sections@.contains_key(realm@),
{
    domains.sections.contains_key(realm)
}

/// Every realm is as it was, but that none is the default realm: a realm that
/// was has lost its flag.
pub open spec fn defaults_cleared(
    before: Map<Seq<char>, RealmConfig>,
    after: Map<Seq<char>, RealmConfig>,
) -> bool {
    &&& after.dom() == before.dom()
    &&& forall|k: Seq<char>| #[trigger]
        before.contains_key(k) ==> after[k]@ == before[k]@.without_default()
}

/// Takes the default flag from the realm that has it, and from every realm
/// that has it where there are several.
pub fn unset_default_realm(domains: &mut Realms)
    ensures
        final(domains).order == old(domains).order,
        defaults_cleared(old(domains).sections@, final(domains).sections@),
        old(domains).wf() ==> final(domains).wf(),
{
    let keys = domains.sections.keys();
    let ghost before = domains.sections@;
    let mut i: usize = 0;
    while i < keys.len()
        invariant
            i <= keys@.len(),
            domains.order == old(domains).order,
            before == old(domains).sections@,
            domains.sections@.dom() == before.dom(),
            forall|a: int, b: int| 0 <= a < b < keys@.len() ==> keys@[a]@ != keys@[b]@,
            forall|k: Seq<char>|
                before.contains_key(k) <==> exists|j: int|
                    0 <= j < keys@.len() && #[trigger] keys@[j]@ == k,
            forall|j: int|
                0 <= j < i ==> domains.sections@[#[trigger] keys@[j]@]@
                    == before[keys@[j]@]@.without_default(),
            forall|j: int|
                i <= j < keys@.len() ==> domains.sections@[#[trigger] keys@[j]@] == before[keys@[j]@],
        decreases keys@.len() - i,
    {
        let key = &keys[i];
        assert(keys@[i as int]@ == key@);
        let ghost now = domains.sections@;
        match domains.sections.remove(key.as_str()) {
            Some(realm) => {
                domains.sections.insert(key.clone(), realm.without_default());
                assert(domains.sections@.dom() =~= before.dom());
                assert forall|j: int| 0 <= j < keys@.len() && j != i implies domains.sections@[keys@[j]@]
                    == now[keys@[j]@] by {
                    assert(keys@[j]@ != keys@[i as int]@);
                }
            },
            None => {
                assert(false);
            },
        }
        i += 1;
    }
    proof {
        assert forall|k: Seq<char>| #[trigger] before.contains_key(k) implies domains.sections@[k]@
            == before[k]@.without_default() by {
            let j = choose|j: int| 0 <= j < keys@.len() && #[trigger] keys@[j]@ == k;
            assert(domains.sections@[keys@[j]@]@ == before[keys@[j]@]@.without_default());
        }
    }
}

/// The realms after `config` was stored under `realm`: the realm holds
/// `config`; where `config` is the default realm, no other realm is; every
/// other realm is as it was otherwise.
pub open spec fn realm_stored(
    before: Map<Seq<char>, RealmConfig>,
    realm: Seq<char>,
    config: LdapRealmConfigView,
    after: Map<Seq<char>, RealmConfig>,
) -> bool {
    &&& after.dom() == before.dom().insert(realm)
    &&& after[realm]@ == RealmConfigView::Ldap(config)
    &&& forall|k: Seq<char>| #[trigger]
        before.contains_key(k) && k != realm ==> after[k]@ == (if config.default == Some(true) {
            before[k]@.without_default()
        } else {
            before[k]@
        })
}

/// Where an LDAP realm that is the default realm was stored, it is the only
/// default realm.
pub proof fn lemma_single_default(
    before: Map<Seq<char>, RealmConfig>,
    realm: Seq<char>,
    config: LdapRealmConfigView,
    after: Map<Seq<char>, RealmConfig>,
)
    requires
        realm_stored(before, realm, config, after),
        config.default == Some(true),
    ensures
        forall|k: Seq<char>| #[trigger] after.contains_key(k) ==> (after[k]@.is_default() <==> k == realm),
{
    assert forall|k: Seq<char>| #[trigger] after.contains_key(k) implies (after[k]@.is_default()
        <==> k == realm) by {
        if k != realm {
            assert(before.contains_key(k));
        }
    }
}

/// Storing a realm leaves every other realm as it is, unless it takes the
/// default flag from it.
pub proof fn lemma_store_leaves_others(
    before: Map<Seq<char>, RealmConfig>,
    realm: Seq<char>,
    config: LdapRealmConfigView,
    after: Map<Seq<char>, RealmConfig>,
)
    requires
        realm_stored(before, realm, config, after),
    ensures
        forall|k: Seq<char>| #[trigger]
            before.contains_key(k) && k != realm && !before[k]@.is_default() ==> after[k]@
                == before[k]@,
        forall|k: Seq<char>| #[trigger]
            before.contains_key(k) && k != realm && config.default != Some(true) ==> after[k]@
                == before[k]@,
{
}

/// Stores `config` under `realm`. Where `config` is the default realm, the
/// default flag is taken from every other realm. A new id goes to the end of
/// the order.
pub fn store_realm(domains: &mut Realms, realm: String, config: LdapRealmConfig)
    ensures
        realm_stored(old(domains).sections@, realm@, config@, final(domains).sections@),
        final(domains).order_ids() == with_id(old(domains).order_ids(), realm@),
        old(domains).wf() ==> final(domains).wf(),
        config@.default == Some(true) ==> forall|k: Seq<char>| #[trigger]
            final(domains).sections@.contains_key(k) ==> (final(domains).sections@[k]@.is_default()
                <==> k == realm@),
{
    let is_default = match config.default {
        Some(true) => true,
        _ => false,
    };
    if is_default {
        unset_default_realm(domains);
    }
    domains.insert(realm, RealmConfig::Ldap(config));
    proof {
        assert(domains.sections@.dom() =~= old(domains).sections@.dom().insert(realm@));
        if config@.default == Some(true) {
            lemma_single_default(old(domains).sections@, realm@, config@, domains.sections@);
        }
    }
}

/// Adds an LDAP realm under the id that it names. Refused, with the realms as
/// they are, where there is a realm with this id already.
pub fn create_ldap_realm(domains: &mut Realms, config: LdapRealmConfig) -> (r: Result<
    (),
    RealmError,
>)
    ensures
        r is Err <==> old(domains).sections@.contains_key(config.realm@),
        r matches Err(e) ==> e == RealmError::AlreadyExists && *final(domains) == *old(domains),
        r is Ok ==> realm_stored(
            old(domains).sections@,
            config.realm@,
            config@,
            final(domains).sections@,
        ) && final(domains).order_ids() == with_id(old(domains).order_ids(), config.realm@),
        old(domains).wf() ==> final(domains).wf(),
        r is Ok && config.default == Some(true) ==> forall|k: Seq<char>| #[trigger]
            final(domains).sections@.contains_key(k) ==> (final(domains).sections@[k]@.is_default()
                <==> k == config.realm@),
{
    if realm_exists(domains, config.realm.as_str()) {
        return Err(RealmError::AlreadyExists);
    }
    let realm = config.realm.clone();
    store_realm(domains, realm, config);
    Ok(())
}

/// The LDAP realm with this id, or why there is none.
pub open spec fn ldap_realm_of(
    m: Map<Seq<char>, RealmConfig>,
    realm: Seq<char>,
) -> Result<LdapRealmConfigView, RealmError> {
    if !m.contains_key(realm) {
        Err(RealmError::NotFound)
    } else {
        match m[realm] {
            RealmConfig::Ldap(c) => Ok(c@),
            _ => Err(RealmError::WrongType),
        }
    }
}

/// Reads the LDAP realm with this id.
pub fn read_ldap_realm(domains: &Realms, realm: &str) -> (r: Result<LdapRealmConfig, RealmError>)
    ensures
        match r {
            Ok(c) => ldap_realm_of(domains.sections@, realm@) == Ok::<
                LdapRealmConfigView,
                RealmError,
            >(c@),
            Err(e) => ldap_realm_of(domains.sections@, realm@) == Err::<
                LdapRealmConfigView,
                RealmError,
            >(e),
        },
{
    match domains.sections.get(realm) {
        None => Err(RealmError::NotFound),
        Some(RealmConfig::Ldap(c)) => Ok(c.clone()),
        Some(_) => Err(RealmError::WrongType),
    }
}

/// The LDAP realms among the ids of `order`, in that order.
pub open spec fn ldap_realms_in(
    order: Seq<Seq<char>>,
    m: Map<Seq<char>, RealmConfig>,
) -> Seq<LdapRealmConfigView>
    decreases order.len(),
{
    if order.len() == 0 {
        Seq::empty()
    } else {
        let rest = ldap_realms_in(order.drop_last(), m);
        match ldap_realm_of(m, order.last()) {
            Ok(c) => rest.push(c),
            Err(_) => rest,
        }
    }
}

/// The views of a list of LDAP realms.
pub open spec fn ldap_views(list: Seq<LdapRealmConfig>) -> Seq<LdapRealmConfigView> {
    Seq::new(list.len(), |i: int| list[i]@)
}

/// Lists the LDAP realms, in the order of the store.
pub fn list_ldap_realms(domains: &Realms) -> (r: Vec<LdapRealmConfig>)
    ensures
        ldap_views(r@) == ldap_realms_in(domains.order_ids(), domains.sections@),
{
    let mut out: Vec<LdapRealmConfig> = Vec::new();
    let mut i: usize = 0;
    let ghost order = domains.order_ids();
    assert(order.take(0) =~= Seq::<Seq<char>>::empty());
    assert(ldap_views(out@) =~= Seq::<LdapRealmConfigView>::empty());
    while i < domains.order.len()
        invariant
            i <= domains.order@.len(),
            order == domains.order_ids(),
            ldap_views(out@) == ldap_realms_in(order.take(i as int), domains.sections@),
        decreases domains.order@.len() - i,
    {
        let ghost before = out@;
        assert(order.take(i + 1).drop_last() =~= order.take(i as int));
        assert(order.take(i + 1).last() == domains.order@[i as int]@);
        match read_ldap_realm(domains, domains.order[i].as_str()) {
            Ok(c) => {
                out.push(c);
                assert(ldap_views(out@) =~= ldap_views(before).push(c@));
            },
            Err(_) => {},
        }
        i += 1;
    }
    assert(order.take(order.len() as int) =~= order);
    out
}

impl UpdatePlan {
    /// Whether the connection check binds with the password that is stored: only
    /// where the request brings no new password and does not remove the stored
    /// one.
    pub fn uses_stored_password(&self, new_password: bool) -> (r: bool)
        ensures
            r == (!new_password && !self.remove_password),
    {
        !new_password && !self.remove_password
    }
}

/// What an update has decided, before anything is stored.
#[derive(Debug)]
pub struct UpdatePlan {
    /// The realm as it will be stored.
    pub config: LdapRealmConfig,
    /// Whether the stored bind password is to be removed.
    pub remove_password: bool,
}

/// What an update makes of the realms that were read: the realm as it will be
/// stored, or why the update is refused. A stale digest is found first.
pub open spec fn planned_update(
    m: Map<Seq<char>, RealmConfig>,
    current: Seq<u8>,
    realm: Seq<char>,
    update: LdapRealmConfigUpdater,
    delete: Option<Vec<DeletableProperty>>,
    digest: Option<&ConfigDigest>,
) -> Result<LdapRealmConfigView, RealmError> {
    if is_stale(current, digest) {
        Err(RealmError::Modified)
    } else {
        match ldap_realm_of(m, realm) {
            Err(e) => Err(e),
            Ok(c) => Ok(updated_realm(c, deleted_list(delete), update@)),
        }
    }
}

/// The properties that an update resets.
pub open spec fn deleted_list(delete: Option<Vec<DeletableProperty>>) -> Seq<DeletableProperty> {
    match delete {
        Some(list) => list@,
        None => Seq::empty(),
    }
}

/// Decides an update of the LDAP realm `realm`, and changes nothing.
pub fn plan_update(
    domains: &Realms,
    current: &ConfigDigest,
    realm: &str,
    update: LdapRealmConfigUpdater,
    delete: Option<Vec<DeletableProperty>>,
    digest: Option<&ConfigDigest>,
) -> (r: Result<UpdatePlan, RealmError>)
    ensures
        match r {
            Ok(plan) => planned_update(domains.sections@, current@, realm@, update, delete, digest)
                == Ok::<LdapRealmConfigView, RealmError>(plan.config@) && plan.remove_password
                == deleted_list(delete).contains(DeletableProperty::Password),
            Err(e) => planned_update(domains.sections@, current@, realm@, update, delete, digest)
                == Err::<LdapRealmConfigView, RealmError>(e),
        },
        is_stale(current@, digest) ==> r matches Err(RealmError::Modified),
{
    if current.detect_modification(digest).is_err() {
        return Err(RealmError::Modified);
    }
    let mut config = match read_ldap_realm(domains, realm) {
        Ok(c) => c,
        Err(e) => {
            return Err(e);
        },
    };
    let mut remove_password = false;
    match &delete {
        Some(list) => {
            config.delete_properties(list);
            remove_password = deletes_password(list);
        },
        None => {},
    }
    Ok(UpdatePlan { config: config.updated(update), remove_password })
}

/// Updates the LDAP realm `realm`: the listed properties are reset, then the
/// changes are applied, and the realm is stored. Tells whether the stored bind
/// password is to be removed. Where the update is refused, the realms are as
/// they were: with a digest that is not the file's, whatever else is asked.
pub fn update_ldap_realm(
    domains: &mut Realms,
    current: &ConfigDigest,
    realm: &str,
    update: LdapRealmConfigUpdater,
    delete: Option<Vec<DeletableProperty>>,
    digest: Option<&ConfigDigest>,
) -> (r: Result<bool, RealmError>)
    ensures
        match r {
            Ok(remove_password) => planned_update(
                old(domains).sections@,
                current@,
                realm@,
                update,
                delete,
                digest,
            ) matches Ok(c) && realm_stored(
                old(domains).sections@,
                realm@,
                c,
                final(domains).sections@,
            ) && final(domains).order_ids() == with_id(old(domains).order_ids(), realm@)
                && remove_password == deleted_list(delete).contains(DeletableProperty::Password),
            Err(e) => planned_update(
                old(domains).sections@,
                current@,
                realm@,
                update,
                delete,
                digest,
            ) == Err::<LdapRealmConfigView, RealmError>(e) && *final(domains) == *old(domains),
        },
        is_stale(current@, digest) ==> (r matches Err(RealmError::Modified)) && *final(domains)
            == *old(domains),
        old(domains).wf() ==> final(domains).wf(),
        r is Ok && final(domains).sections@[realm@]@.is_default() ==> forall|k: Seq<char>| #[trigger]
            final(domains).sections@.contains_key(k) ==> (final(domains).sections@[k]@.is_default()
                <==> k == realm@),
{
    let plan = match plan_update(domains, current, realm, update, delete, digest) {
        Ok(plan) => plan,
        Err(e) => {
            return Err(e);
        },
    };
    store_realm(domains, realm.to_owned(), plan.config);
    Ok(plan.remove_password)
}

/// Removes the realm with this id, of whatever kind. Refused, with the realms
/// as they were, where the caller's digest is not the file's, and where there is
/// no realm with this id.
pub fn delete_ldap_realm(
    domains: &mut Realms,
    current: &ConfigDigest,
    realm: &str,
    digest: Option<&ConfigDigest>,
) -> (r: Result<(), RealmError>)
    ensures
        r == (if is_stale(current@, digest) {
            Err::<(), RealmError>(RealmError::Modified)
        } else if !old(domains).sections@.contains_key(realm@) {
            Err::<(), RealmError>(RealmError::NotFound)
        } else {
            Ok::<(), RealmError>(())
        }),
        r is Err ==> *final(domains) == *old(domains),
        r is Ok ==> final(domains).sections@ == old(domains).sections@.remove(realm@)
            && final(domains).order_ids() == without_first(old(domains).order_ids(), realm@),
        old(domains).wf() ==> final(domains).wf(),
{
    if current.detect_modification(digest).is_err() {
        return Err(RealmError::Modified);
    }
    if !realm_exists(domains, realm) {
        return Err(RealmError::NotFound);
    }
    domains.remove(realm);
    Ok(())
}

/// The ids of all realms, each once.
pub fn complete_realm_name(domains: &Realms) -> (r: Vec<String>)
    ensures
        forall|i: int, j: int| 0 <= i < j < r@.len() ==> r@[i]@ != r@[j]@,
        forall|k: Seq<char>|
            domains.sections@.contains_key(k) <==> exists|i: int|
                0 <= i < r@.len() && #[trigger] r@[i]@ == k,
{
    domains.sections.keys()
}

/// Whether there is an OpenID Connect realm with this id.
pub open spec fn is_openid(m: Map<Seq<char>, RealmConfig>, realm: Seq<char>) -> bool {
    m.contains_key(realm) && m[realm] is OpenId
}

/// The ids of the OpenID Connect realms, each once.
pub fn complete_openid_realm_name(domains: &Realms) -> (r: Vec<String>)
    ensures
        forall|i: int, j: int| 0 <= i < j < r@.len() ==> r@[i]@ != r@[j]@,
        forall|k: Seq<char>|
            is_openid(domains.sections@, k) <==> exists|i: int|
                0 <= i < r@.len() && #[trigger] r@[i]@ == k,
{
    let keys = domains.sections.keys();
    let mut out: Vec<String> = Vec::new();
    let ghost mut from: Seq<int> = Seq::empty();
    let mut i: usize = 0;
    while i < keys.len()
        invariant
            i <= keys@.len(),
            from.len() == out@.len(),
            forall|a: int| 0 <= a < from.len() ==> 0 <= #[trigger] from[a] < i && out@[a]@ == keys@[from[a]]@,
            forall|a: int, b: int| 0 <= a < b < from.len() ==> from[a] < from[b],
            forall|j: int|
                0 <= j < i && is_openid(domains.sections@, #[trigger] keys@[j]@) ==> exists|a: int|
                    0 <= a < from.len() && from[a] == j,
            forall|a: int|
                0 <= a < from.len() ==> is_openid(domains.sections@, keys@[#[trigger] from[a]]@),
        decreases keys@.len() - i,
    {
        let key = &keys[i];
        let found = match domains.sections.get(key.as_str()) {
            Some(RealmConfig::OpenId(_)) => true,
            _ => false,
        };
        assert(found == is_openid(domains.sections@, keys@[i as int]@));
        let ghost before = from;
        if found {
            out.push(key.clone());
            proof {
                from = from.push(i as int);
            }
        }
        proof {
            assert forall|j: int|
                0 <= j < i + 1 && is_openid(domains.sections@, #[trigger] keys@[j]@) implies exists|
                a: int,
            | 0 <= a < from.len() && from[a] == j by {
                if j < i {
                    let a = choose|a: int| 0 <= a < before.len() && before[a] == j;
                    assert(from[a] == j);
                } else {
                    assert(from[before.len() as int] == j);
                }
            }
        }
        i += 1;
    }
    proof {
        assert forall|a: int, b: int| 0 <= a < b < out@.len() implies out@[a]@ != out@[b]@ by {
            assert(from[a] < from[b]);
        }
        assert forall|k: Seq<char>| is_openid(domains.sections@, k) implies exists|i: int|
            0 <= i < out@.len() && #[trigger] out@[i]@ == k by {
            let j = choose|j: int| 0 <= j < keys@.len() && #[trigger] keys@[j]@ == k;
            assert(is_openid(domains.sections@, keys@[j]@));
            let a = choose|a: int| 0 <= a < from.len() && from[a] == j;
            assert(out@[a]@ == k);
        }
        assert forall|k: Seq<char>|
            (exists|i: int| 0 <= i < out@.len() && #[trigger] out@[i]@ == k) implies is_openid(
            domains.sections@,
            k,
        ) by {
            let a = choose|a: int| 0 <= a < out@.len() && #[trigger] out@[a]@ == k;
            assert(0 <= from[a] < keys@.len() && keys@[from[a]]@ == k);
        }
    }
    out
}

/// Every realm can be written as a type name and a plain object, and reads back
/// from them as it was.
pub proof fn lemma_realm_entry(r: RealmConfigView)
    ensures
        codec_is_lossless::<RealmConfig>(r),
        entry_encoded::<RealmConfig>(r) matches Some((ty, plain)) && ty == r.section_type()
            && entry_decoded::<RealmConfig>(ty, plain) == Some(r),
{
    lemma_realm_roundtrip(r);
    lemma_entry_roundtrip::<RealmConfig>(r);
    match r {
        RealmConfigView::Ldap(c) => {
            lemma_ldap_roundtrip(c);
        },
        RealmConfigView::OpenId(c) => {
            lemma_openid_roundtrip(c);
        },
    }
}

/// The same ids in the same order, and under each id the same realm.
pub open spec fn same_realms(a: Realms, b: Realms) -> bool {
    &&& a.order_ids() == b.order_ids()
    &&& a.sections@.dom() == b.sections@.dom()
    &&& forall|k: Seq<char>| #[trigger] a.sections@.contains_key(k) ==> a.sections@[k]@ == b.sections@[k]@
}

/// Realms that are written as untyped section data and read again come back
/// as they were: the same realms under the same ids, in the same order.
pub proof fn lemma_realms_roundtrip(domains: Realms, raw: RawSectionConfigData, back: Realms)
    requires
        written_as(domains, raw),
        read_as(raw, back),
    ensures
        same_realms(domains, back),
{
    let typed = domains.sections@;
    assert forall|k: Seq<char>| #[trigger] typed.contains_key(k) implies codec_is_lossless::<
        RealmConfig,
    >(typed[k]@) by {
        lemma_realm_entry(typed[k]@);
    }
    lemma_section_data_roundtrip::<RealmConfig>(domains, raw, back);
}

/// Realms that were written can be read: every entry of the written data stands
/// for the realm it was written from.
pub proof fn lemma_written_realms_read(domains: Realms, raw: RawSectionConfigData)
    requires
        written_as(domains, raw),
    ensures
        forall|k: Seq<char>| #[trigger]
            raw.sections@.contains_key(k) ==> entry_decoded::<RealmConfig>(
                raw.sections@[k].0@,
                json_model(raw.sections@[k].1),
            ) == Some(domains.sections@[k]@),
{
    let typed = domains.sections@;
    assert forall|k: Seq<char>| #[trigger] typed.contains_key(k) implies codec_is_lossless::<
        RealmConfig,
    >(typed[k]@) by {
        lemma_realm_entry(typed[k]@);
    }
    lemma_written_data_reads::<RealmConfig>(domains, raw);
}

/// Writes the realms as untyped section data: each realm as the name of its
/// kind and its plain object, in the same order. This cannot fail.
pub fn encode_realms(domains: &Realms) -> (r: RawSectionConfigData)
    ensures
        written_as(*domains, r),
{
    match to_raw(domains) {
        Ok(raw) => raw,
        Err(_) => {
            // Every realm has a JSON form, so there is no realm to fail on.
            proof {
                let k = choose|k: Seq<char>| #[trigger]
                    domains.sections@.contains_key(k) && entry_encoded::<RealmConfig>(
                        domains.sections@[k]@,
                    ) is None;
                lemma_realm_entry(domains.sections@[k]@);
                assert(false);
            }
            SectionConfigData::new()
        },
    }
}

/// Reads the realms from untyped section data, in the same order. One record
/// that is no realm of a known kind fails the whole.
pub fn decode_realms(raw: RawSectionConfigData) -> (r: Result<Realms, serde_json::Error>)
    ensures
        match r {
            Ok(d) => read_as(raw, d),
            Err(_) => exists|k: Seq<char>| #[trigger]
                raw.sections@.contains_key(k) && entry_decoded::<RealmConfig>(
                    raw.sections@[k].0@,
                    json_model(raw.sections@[k].1),
                ) is None,
        },
{
    try_from_raw::<RealmConfig>(raw)
}

} // verus!
