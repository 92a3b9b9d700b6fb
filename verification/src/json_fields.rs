//! Reading the members of a JSON object, and building an object from a list of
//! members. Everything here is proved from what the `json` module states.

use vstd::prelude::*;
use vstd::string::*;
use crate::json::{
    json_as_bool, json_as_str, json_as_u64, json_get, json_insert, json_is_null, json_model,
    json_object, Json,
};
use crate::text::opt_text;

verus! {

/// Reads a member that is a string where it is present.
pub(crate) fn read_optional_str(v: &serde_json::Value, key: &str) -> (r: Option<Option<String>>)
    ensures
        match r {
            Some(s) => json_model(*v).optional_str(key@) == Some(opt_text(s)),
            None => json_model(*v).optional_str(key@) is None,
        },
{
    match json_get(v, key) {
        None => Some(None),
        Some(x) => {
            if json_is_null(x) {
                Some(None)
            } else {
                match json_as_str(x) {
                    Some(s) => Some(Some(s.to_owned())),
                    None => None,
                }
            }
        },
    }
}

/// Reads a member that is a boolean where it is present.
pub(crate) fn read_optional_bool(v: &serde_json::Value, key: &str) -> (r: Option<Option<bool>>)
    ensures
        r == json_model(*v).optional_bool(key@),
{
    match json_get(v, key) {
        None => Some(None),
        Some(x) => {
            if json_is_null(x) {
                Some(None)
            } else {
                match json_as_bool(x) {
                    Some(b) => Some(Some(b)),
                    None => None,
                }
            }
        },
    }
}

/// Reads a member that is an integer that is not negative where it is present.
pub(crate) fn read_optional_u64(v: &serde_json::Value, key: &str) -> (r: Option<Option<u64>>)
    ensures
        r == json_model(*v).optional_u64(key@),
{
    match json_get(v, key) {
        None => Some(None),
        Some(x) => {
            if json_is_null(x) {
                Some(None)
            } else {
                match json_as_u64(x) {
                    Some(n) => Some(Some(n)),
                    None => None,
                }
            }
        },
    }
}

/// Reads a member that must be a string.
pub(crate) fn read_required_str(v: &serde_json::Value, key: &str) -> (r: Option<String>)
    ensures
        opt_text(r) == json_model(*v).required_str(key@),
{
    match json_get(v, key) {
        None => None,
        Some(x) => match json_as_str(x) {
            Some(s) => Some(s.to_owned()),
            None => None,
        },
    }
}

/// The members of an object: each name with its value, if it has one.
pub type Members = Seq<(Seq<char>, Option<Json>)>;

/// The object with the given members. A member without a value is left out.
pub open spec fn object_of(members: Members) -> Json
    decreases members.len(),
{
    if members.len() == 0 {
        Json::empty_object()
    } else {
        object_of(members.drop_last()).with_optional(members.last().0, members.last().1)
    }
}

/// No name occurs twice.
pub open spec fn distinct_names(members: Members) -> bool {
    forall|i: int, j: int| 0 <= i < j < members.len() ==> members[i].0 != members[j].0
}

/// An object has no member under a name that is not in the list.
pub proof fn lemma_object_of_absent(members: Members, name: Seq<char>)
    requires
        forall|i: int| 0 <= i < members.len() ==> members[i].0 != name,
    ensures
        object_of(members) is Object,
        object_of(members).field(name) is None,
    decreases members.len(),
{
    if members.len() > 0 {
        lemma_object_of_absent(members.drop_last(), name);
        assert(members[members.len() - 1].0 != name);
    }
}

/// Where no name occurs twice, the object has each member of the list under
/// its name.
pub proof fn lemma_object_of(members: Members, i: int)
    requires
        distinct_names(members),
        0 <= i < members.len(),
    ensures
        object_of(members) is Object,
        object_of(members).field(members[i].0) == members[i].1,
    decreases members.len(),
{
    let shorter = members.drop_last();
    if i == members.len() - 1 {
        lemma_object_of_absent(shorter, members[i].0);
    } else {
        lemma_object_of(shorter, i);
        assert(shorter[i] == members[i]);
    }
}

/// What a list of names and values holds.
pub open spec fn members_of(list: Seq<(&'static str, Option<serde_json::Value>)>) -> Members {
    Seq::new(
        list.len(),
        |i: int|
            (
                list[i].0@,
                match list[i].1 {
                    Some(v) => Some(json_model(v)),
                    None => None,
                },
            ),
    )
}

/// Builds the object with the given members.
pub(crate) fn build_object(list: Vec<(&'static str, Option<serde_json::Value>)>) -> (r: serde_json::Value)
    ensures
        json_model(r) == object_of(members_of(list@)),
{
    let ghost all = members_of(list@);
    let mut obj = json_object();
    assert(all.take(0) =~= Members::empty());
    for member in it: list
        invariant
            it.seq() == list@,
            all == members_of(list@),
            json_model(obj) == object_of(all.take(it.index() as int)),
    {
        let ghost n = it.index() as int;
        assert(all.take(n + 1).drop_last() =~= all.take(n));
        assert(all.take(n + 1).last() == all[n]);
        let (name, value) = member;
        match value {
            Some(v) => {
                json_insert(&mut obj, name.to_owned(), v);
            },
            None => {},
        }
    }
    assert(all.take(all.len() as int) =~= all);
    obj
}

} // verus!
