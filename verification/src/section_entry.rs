//! How a typed record becomes a pair of type name and JSON object, and back.
//!
//! A type whose values are the records of a section file says how its values are
//! written as JSON, and which of two forms that JSON has: the type name is a
//! member of the object itself, or the object is wrapped into another object
//! whose only member is named by the type. The section file knows neither: it
//! holds the type name beside the plain object. The functions here move the type
//! name in and out.

use vstd::prelude::*;
use vstd::string::*;
use crate::json::{
    json_as_str, json_error, json_insert, json_into_first, json_is_object, json_len, json_model,
    json_object, json_remove, json_string, Json,
};
use crate::section_config::{clone_ids, SectionConfigData};
use crate::section_map::{keys_unique, lemma_map_of_at, lemma_map_of_dom, map_of, SectionMap};

verus! {

/// Where the JSON form of a record type keeps the type name.
#[derive(Clone, Copy, Debug)]
pub enum TaggingMode {
    /// In a member of the object, under this name.
    Internal(&'static str),
    /// As the name of the only member of an enclosing object.
    External,
}

/// The JSON form of a record, made of its type name and its plain object; `None`
/// where the type name cannot be put in.
pub open spec fn tagged_value(mode: TaggingMode, ty: Seq<char>, value: Json) -> Option<Json> {
    match mode {
        TaggingMode::Internal(tag) => if value is Object {
            Some(value.with_field(tag@, Json::String(ty)))
        } else {
            None
        },
        TaggingMode::External => Some(Json::empty_object().with_field(ty, value)),
    }
}

/// The type name and the plain object that the JSON form of a record holds;
/// `None` where it has not the form that `mode` asks for.
pub open spec fn untagged_pair(mode: TaggingMode, j: Json) -> Option<(Seq<char>, Json)> {
    match (j, mode) {
        (Json::Object(m), TaggingMode::Internal(tag)) => match j.field(tag@) {
            Some(Json::String(ty)) => Some((ty, j.without_field(tag@))),
            _ => None,
        },
        (Json::Object(m), TaggingMode::External) => if m.dom().finite() && m.dom().len() == 1 {
            Some((m.dom().choose(), m[m.dom().choose()]))
        } else {
            None
        },
        _ => None,
    }
}

/// A map with one entry is that entry.
pub proof fn lemma_single_member(m: Map<Seq<char>, Json>, k: Seq<char>)
    requires
        m.dom().finite(),
        m.dom().len() == 1,
        m.contains_key(k),
    ensures
        m.dom().choose() == k,
        m == Map::<Seq<char>, Json>::empty().insert(k, m[k]),
{
    let rest = m.dom().remove(k);
    assert(rest.len() == 0);
    rest.lemma_len0_is_empty();
    assert forall|x: Seq<char>| m.dom().contains(x) implies x == k by {
        if x != k {
            assert(rest.contains(x));
        }
    }
    assert(m.dom().contains(m.dom().choose()));
    assert(m =~= Map::<Seq<char>, Json>::empty().insert(k, m[k]));
}

/// Putting the type name back gives the JSON form that it was taken from.
pub proof fn lemma_tag_roundtrip(mode: TaggingMode, j: Json)
    ensures
        untagged_pair(mode, j) matches Some((ty, plain)) ==> tagged_value(mode, ty, plain) == Some(
            j,
        ),
{
    if untagged_pair(mode, j) is Some {
        match (j, mode) {
            (Json::Object(m), TaggingMode::Internal(tag)) => {
                let ty = j.field(tag@)->0->String_0;
                assert(m.remove(tag@).insert(tag@, Json::String(ty)) =~= m);
            },
            (Json::Object(m), TaggingMode::External) => {
                let k = m.dom().choose();
                assert(m.dom().contains(k));
                lemma_single_member(m, k);
            },
            _ => {},
        }
    }
}

/// Taking the type name out again gives the pair that the JSON form was made
/// of, provided that, in the internal form, the plain object had no member of
/// the tag's name.
pub proof fn lemma_untag_roundtrip(mode: TaggingMode, ty: Seq<char>, value: Json)
    requires
        tagged_value(mode, ty, value) is Some,
        mode matches TaggingMode::Internal(tag) ==> value.field(tag@) is None,
    ensures
        untagged_pair(mode, tagged_value(mode, ty, value)->0) == Some((ty, value)),
{
    match mode {
        TaggingMode::Internal(tag) => {
            let m = value->Object_0;
            assert(m.insert(tag@, Json::String(ty)).remove(tag@) =~= m);
        },
        TaggingMode::External => {
            let m = Map::<Seq<char>, Json>::empty().insert(ty, value);
            assert(m.dom() =~= set![ty]);
            assert(m.dom().finite());
            assert(m.dom().len() == 1);
            lemma_single_member(m, ty);
        },
    }
}

/// Takes the type name out of the JSON form of a record.
pub fn split_pair(value: serde_json::Value, mode: TaggingMode) -> (r: Result<
    (String, serde_json::Value),
    serde_json::Error,
>)
    ensures
        match r {
            Ok((ty, plain)) => untagged_pair(mode, json_model(value)) == Some(
                (ty@, json_model(plain)),
            ),
            Err(_) => untagged_pair(mode, json_model(value)) is None,
        },
{
    match mode {
        TaggingMode::Internal(tag) => {
            if !json_is_object(&value) {
                return Err(json_error("unexpected serialization method"));
            }
            let mut obj = value;
            match json_remove(&mut obj, tag) {
                None => Err(json_error("tag missing in object")),
                Some(id) => match json_as_str(&id) {
                    Some(s) => Ok((s.to_owned(), obj)),
                    None => Err(json_error("tag has invalid value (not a string)")),
                },
            }
        },
        TaggingMode::External => {
            match json_len(&value) {
                Some(n) => {
                    if n != 1 {
                        return Err(json_error("unexpected serialization method"));
                    }
                    let ghost m = json_model(value)->Object_0;
                    proof {
                        assert(m.dom().contains(m.dom().choose()));
                    }
                    match json_into_first(value) {
                        Some((k, x)) => {
                            proof {
                                lemma_single_member(m, k@);
                            }
                            Ok((k, x))
                        },
                        None => {
                            proof {
                                assert(json_model(value).field(m.dom().choose()) is None);
                            }
                            Err(json_error("unexpected serialization method"))
                        },
                    }
                },
                None => Err(json_error("unexpected serialization method")),
            }
        },
    }
}

/// Puts the type name into the plain object of a record.
pub fn join_pair(ty: String, value: serde_json::Value, mode: TaggingMode) -> (r: Result<
    serde_json::Value,
    serde_json::Error,
>)
    ensures
        match r {
            Ok(tagged) => tagged_value(mode, ty@, json_model(value)) == Some(json_model(tagged)),
            Err(_) => tagged_value(mode, ty@, json_model(value)) is None,
        },
{
    match mode {
        TaggingMode::Internal(tag) => {
            if !json_is_object(&value) {
                return Err(json_error("cannot add type property to non-object"));
            }
            let mut obj = value;
            json_insert(&mut obj, tag.to_owned(), json_string(ty));
            Ok(obj)
        },
        TaggingMode::External => {
            let mut obj = json_object();
            json_insert(&mut obj, ty, value);
            Ok(obj)
        },
    }
}

/// A type whose values are the records of a section file. The type says how a
/// value is written as JSON and read from it; the rest follows from that.
///
/// Each method comes with a specification function that says what it returns,
/// over a mathematical model of the type's values. A type that is verified
/// defines them and proves its methods against them. For a type that is not,
/// they stay unspecified, and what this module proves holds as far as that
/// type's methods return the same for the same input.
pub trait ApiSectionDataEntry: Sized {
    /// What a value is, mathematically.
    type Model;

    /// What a value is, mathematically.
    open spec fn model(&self) -> Self::Model {
        arbitrary()
    }

    /// Where the JSON form keeps the type name.
    open spec fn tagging() -> TaggingMode {
        arbitrary()
    }

    /// Where the JSON form keeps the type name.
    fn tagging_mode() -> (r: TaggingMode)
        ensures
            r == Self::tagging(),
    ;

    /// The type name of a value.
    open spec fn section_type_spec(value: Self::Model) -> Seq<char> {
        arbitrary()
    }

    /// The type name of a value.
    fn section_type(&self) -> (r: &'static str)
        ensures
            r@ == Self::section_type_spec(self.model()),
    ;

    /// The value that a JSON form stands for, if it stands for one.
    open spec fn decoded(tagged: Json) -> Option<Self::Model> {
        arbitrary()
    }

    /// Reads a value from its JSON form.
    fn deserialize(tagged: serde_json::Value) -> (r: Result<Self, serde_json::Error>)
        ensures
            match r {
                Ok(t) => Self::decoded(json_model(tagged)) == Some(t.model()),
                Err(_) => Self::decoded(json_model(tagged)) is None,
            },
    ;

    /// The JSON form of a value, if it has one.
    open spec fn encoded(value: Self::Model) -> Option<Json> {
        arbitrary()
    }

    /// Writes a value in its JSON form.
    fn serialize(&self) -> (r: Result<serde_json::Value, serde_json::Error>)
        ensures
            match r {
                Ok(v) => Self::encoded(self.model()) == Some(json_model(v)),
                Err(_) => Self::encoded(self.model()) is None,
            },
    ;
}

/// The record that a type name and a plain object stand for.
pub open spec fn entry_decoded<T: ApiSectionDataEntry>(ty: Seq<char>, value: Json) -> Option<
    T::Model,
> {
    match tagged_value(T::tagging(), ty, value) {
        Some(j) => T::decoded(j),
        None => None,
    }
}

/// The type name and the plain object of a record.
pub open spec fn entry_encoded<T: ApiSectionDataEntry>(value: T::Model) -> Option<
    (Seq<char>, Json),
> {
    match T::encoded(value) {
        Some(j) => untagged_pair(T::tagging(), j),
        None => None,
    }
}

/// The JSON form of a record reads back as the record.
pub open spec fn codec_is_lossless<T: ApiSectionDataEntry>(value: T::Model) -> bool {
    T::encoded(value) matches Some(j) && T::decoded(j) == Some(value)
}

/// Reads a record from its type name and its plain object.
pub fn from_value<T: ApiSectionDataEntry>(ty: String, value: serde_json::Value) -> (r: Result<
    T,
    serde_json::Error,
>)
    ensures
        match r {
            Ok(t) => entry_decoded::<T>(ty@, json_model(value)) == Some(t.model()),
            Err(_) => entry_decoded::<T>(ty@, json_model(value)) is None,
        },
{
    match join_pair(ty, value, T::tagging_mode()) {
        Ok(tagged) => T::deserialize(tagged),
        Err(e) => Err(e),
    }
}

/// Writes a record as its type name and its plain object.
pub fn to_pair<T: ApiSectionDataEntry>(t: &T) -> (r: Result<
    (String, serde_json::Value),
    serde_json::Error,
>)
    ensures
        match r {
            Ok((ty, plain)) => entry_encoded::<T>(t.model()) == Some((ty@, json_model(plain))),
            Err(_) => entry_encoded::<T>(t.model()) is None,
        },
{
    match t.serialize() {
        Ok(v) => split_pair(v, T::tagging_mode()),
        Err(e) => Err(e),
    }
}

/// Writes a record as its type name and its plain object, and gives it up.
pub fn into_pair<T: ApiSectionDataEntry>(t: T) -> (r: Result<
    (String, serde_json::Value),
    serde_json::Error,
>)
    ensures
        match r {
            Ok((ty, plain)) => entry_encoded::<T>(t.model()) == Some((ty@, json_model(plain))),
            Err(_) => entry_encoded::<T>(t.model()) is None,
        },
{
    to_pair(&t)
}

/// A record whose JSON form reads back as the record is read back from its
/// type name and plain object as well.
pub proof fn lemma_entry_roundtrip<T: ApiSectionDataEntry>(value: T::Model)
    requires
        codec_is_lossless::<T>(value),
    ensures
        entry_encoded::<T>(value) matches Some((ty, plain)) ==> entry_decoded::<T>(ty, plain)
            == Some(value),
{
    lemma_tag_roundtrip(T::tagging(), T::encoded(value)->0);
}

/// Untyped section data: each record is its type name and its plain object.
pub type RawSectionConfigData = SectionConfigData<(String, serde_json::Value)>;

/// `typed` holds, under the same ids, the records that the entries of `raw`
/// stand for.
pub open spec fn typed_of_raw<T: ApiSectionDataEntry>(
    raw: Map<Seq<char>, (String, serde_json::Value)>,
    typed: Map<Seq<char>, T>,
) -> bool {
    &&& typed.dom() == raw.dom()
    &&& forall|k: Seq<char>| #[trigger]
        raw.contains_key(k) ==> entry_decoded::<T>(raw[k].0@, json_model(raw[k].1)) == Some(
            typed[k].model(),
        )
}

/// `raw` holds, under the same ids, the type name and the plain object of each
/// record of `typed`.
pub open spec fn raw_of_typed<T: ApiSectionDataEntry>(
    typed: Map<Seq<char>, T>,
    raw: Map<Seq<char>, (String, serde_json::Value)>,
) -> bool {
    &&& raw.dom() == typed.dom()
    &&& forall|k: Seq<char>| #[trigger]
        typed.contains_key(k) ==> entry_encoded::<T>(typed[k].model()) == Some(
            (raw[k].0@, json_model(raw[k].1)),
        )
}

/// Reads every record of untyped section data. The order of the ids is kept as
/// it is. One record that cannot be read fails the whole.
pub fn try_from_raw<T: ApiSectionDataEntry>(data: RawSectionConfigData) -> (r: Result<
    SectionConfigData<T>,
    serde_json::Error,
>)
    ensures
        match r {
            Ok(d) => d.order_ids() == data.order_ids() && typed_of_raw(data.sections@, d.sections@),
            Err(_) => exists|k: Seq<char>| #[trigger]
                data.sections@.contains_key(k) && entry_decoded::<T>(
                    data.sections@[k].0@,
                    json_model(data.sections@[k].1),
                ) is None,
        },
{
    let ghost raw = data.sections@;
    let SectionConfigData { sections: raw_sections, order } = data;
    let entries = raw_sections.into_entries();
    let ghost all = entries@;
    proof {
        lemma_map_of_dom(all);
    }
    let mut sections: SectionMap<T> = SectionMap::new();
    for entry in it: entries
        invariant
            it.seq() == all,
            keys_unique(all),
            map_of(all) == raw,
            raw == data.sections@,
            forall|k: Seq<char>|
                sections@.contains_key(k) <==> exists|i: int|
                    0 <= i < it.index() && #[trigger] all[i].0@ == k,
            forall|k: Seq<char>| #[trigger]
                sections@.contains_key(k) ==> raw.contains_key(k) && entry_decoded::<T>(
                    raw[k].0@,
                    json_model(raw[k].1),
                ) == Some(sections@[k].model()),
    {
        let ghost n = it.index() as int;
        assert(entry == all[n]);
        proof {
            lemma_map_of_at(all, n);
        }
        let (id, pair) = entry;
        let (ty, value) = pair;
        match from_value::<T>(ty, value) {
            Ok(t) => {
                let ghost before = sections@;
                sections.insert(id, t);
                assert forall|k: Seq<char>| sections@.contains_key(k) implies exists|i: int|
                    0 <= i < n + 1 && #[trigger] all[i].0@ == k by {
                    if k != id@ {
                        assert(before.contains_key(k));
                        let i = choose|i: int| 0 <= i < n && #[trigger] all[i].0@ == k;
                        assert(0 <= i < n + 1 && all[i].0@ == k);
                    } else {
                        assert(all[n].0@ == k);
                    }
                }
                assert forall|k: Seq<char>|
                    (exists|i: int|
                        0 <= i < n + 1 && #[trigger] all[i].0@ == k) implies sections@.contains_key(
                    k,
                ) by {
                    let i = choose|i: int| 0 <= i < n + 1 && #[trigger] all[i].0@ == k;
                    if i < n {
                        assert(before.contains_key(k));
                    }
                }
            },
            Err(e) => {
                proof {
                    let k = all[n].0@;
                    assert(raw.contains_key(k));
                    assert(raw[k] == all[n].1);
                    assert(entry_decoded::<T>(raw[k].0@, json_model(raw[k].1)) is None);
                }
                return Err(e);
            },
        }
    }
    let r = SectionConfigData { sections, order };
    proof {
        assert(r.sections@.dom() =~= raw.dom()) by {
            assert forall|k: Seq<char>| raw.dom().contains(k) implies r.sections@.dom().contains(
                k,
            ) by {
                let i = choose|i: int| 0 <= i < all.len() && #[trigger] all[i].0@ == k;
                assert(0 <= i < all.len() && all[i].0@ == k);
            }
        }
    }
    Ok(r)
}

/// Writes every record of typed section data as its type name and its plain
/// object. The order of the ids is kept as it is. One record that cannot be
/// written fails the whole.
pub fn to_raw<T: ApiSectionDataEntry>(data: &SectionConfigData<T>) -> (r: Result<
    RawSectionConfigData,
    serde_json::Error,
>)
    ensures
        match r {
            Ok(raw) => raw.order_ids() == data.order_ids() && raw_of_typed(
                data.sections@,
                raw.sections@,
            ),
            Err(_) => exists|k: Seq<char>| #[trigger]
                data.sections@.contains_key(k) && entry_encoded::<T>(data.sections@[k].model())
                    is None,
        },
{
    let keys = data.sections.keys();
    let mut sections: SectionMap<(String, serde_json::Value)> = SectionMap::new();
    let mut i: usize = 0;
    while i < keys.len()
        invariant
            i <= keys@.len(),
            forall|k: Seq<char>|
                data.sections@.contains_key(k) <==> exists|j: int|
                    0 <= j < keys@.len() && #[trigger] keys@[j]@ == k,
            forall|k: Seq<char>|
                sections@.contains_key(k) <==> exists|j: int|
                    0 <= j < i && #[trigger] keys@[j]@ == k,
            forall|k: Seq<char>| #[trigger]
                sections@.contains_key(k) ==> data.sections@.contains_key(k) && entry_encoded::<T>(
                    data.sections@[k].model(),
                ) == Some((sections@[k].0@, json_model(sections@[k].1))),
        decreases keys@.len() - i,
    {
        let key = &keys[i];
        assert(keys@[i as int]@ == key@);
        match data.sections.get(key.as_str()) {
            Some(t) => match to_pair(t) {
                Ok(pair) => {
                    let ghost before = sections@;
                    sections.insert(key.clone(), pair);
                    assert forall|k: Seq<char>| sections@.contains_key(k) implies exists|j: int|
                        0 <= j < i + 1 && #[trigger] keys@[j]@ == k by {
                        if k != key@ {
                            assert(before.contains_key(k));
                            let j = choose|j: int| 0 <= j < i && #[trigger] keys@[j]@ == k;
                            assert(0 <= j < i + 1 && keys@[j]@ == k);
                        } else {
                            assert(keys@[i as int]@ == k);
                        }
                    }
                    assert forall|k: Seq<char>|
                        (exists|j: int|
                            0 <= j < i + 1 && #[trigger] keys@[j]@ == k) implies sections@.contains_key(
                        k,
                    ) by {
                        let j = choose|j: int| 0 <= j < i + 1 && #[trigger] keys@[j]@ == k;
                        if j < i {
                            assert(before.contains_key(k));
                        }
                    }
                },
                Err(e) => {
                    return Err(e);
                },
            },
            None => {
                assert(false);
            },
        }
        i += 1;
    }
    let r = SectionConfigData { sections, order: clone_ids(&data.order) };
    proof {
        assert(r.sections@.dom() =~= data.sections@.dom()) by {
            assert forall|k: Seq<char>|
                data.sections@.dom().contains(k) implies r.sections@.dom().contains(k) by {
                let j = choose|j: int| 0 <= j < keys@.len() && #[trigger] keys@[j]@ == k;
                assert(0 <= j < i && keys@[j]@ == k);
            }
        }
    }
    Ok(r)
}

/// Writes every record of typed section data as its type name and its plain
/// object, and gives the typed data up.
pub fn into_raw<T: ApiSectionDataEntry>(data: SectionConfigData<T>) -> (r: Result<
    RawSectionConfigData,
    serde_json::Error,
>)
    ensures
        match r {
            Ok(raw) => raw.order_ids() == data.order_ids() && raw_of_typed(
                data.sections@,
                raw.sections@,
            ),
            Err(_) => exists|k: Seq<char>| #[trigger]
                data.sections@.contains_key(k) && entry_encoded::<T>(data.sections@[k].model())
                    is None,
        },
{
    to_raw(&data)
}

/// `raw` is what `data` is written as: each record as its type name and its
/// plain object, under the same id and in the same order.
pub open spec fn written_as<T: ApiSectionDataEntry>(
    data: SectionConfigData<T>,
    raw: RawSectionConfigData,
) -> bool {
    &&& raw.order_ids() == data.order_ids()
    &&& raw_of_typed(data.sections@, raw.sections@)
}

/// `data` is what `raw` is read as: each entry as the record it stands for,
/// under the same id and in the same order.
pub open spec fn read_as<T: ApiSectionDataEntry>(
    raw: RawSectionConfigData,
    data: SectionConfigData<T>,
) -> bool {
    &&& data.order_ids() == raw.order_ids()
    &&& typed_of_raw(raw.sections@, data.sections@)
}

/// The same ids in the same order, and under each id the same record.
pub open spec fn same_records<T: ApiSectionDataEntry>(
    a: SectionConfigData<T>,
    b: SectionConfigData<T>,
) -> bool {
    &&& a.order_ids() == b.order_ids()
    &&& a.sections@.dom() == b.sections@.dom()
    &&& forall|k: Seq<char>| #[trigger]
        a.sections@.contains_key(k) ==> a.sections@[k].model() == b.sections@[k].model()
}

/// Typed data that is written as untyped data and read again comes back with
/// the same records under the same ids, as long as the JSON form of each record
/// reads back as that record.
pub proof fn lemma_typed_raw_roundtrip<T: ApiSectionDataEntry>(
    typed: Map<Seq<char>, T>,
    raw: Map<Seq<char>, (String, serde_json::Value)>,
    back: Map<Seq<char>, T>,
)
    requires
        raw_of_typed(typed, raw),
        typed_of_raw(raw, back),
        forall|k: Seq<char>| #[trigger]
            typed.contains_key(k) ==> codec_is_lossless::<T>(typed[k].model()),
    ensures
        back.dom() == typed.dom(),
        forall|k: Seq<char>| #[trigger] typed.contains_key(k) ==> back[k].model() == typed[k].model(),
{
    assert forall|k: Seq<char>| #[trigger] typed.contains_key(k) implies back[k].model()
        == typed[k].model() by {
        assert(raw.contains_key(k));
        lemma_entry_roundtrip::<T>(typed[k].model());
    }
}

/// Section data that is written and read again comes back as it was: the same
/// records under the same ids, in the same order. This holds of every record
/// type whose JSON form reads back as the record. A type that drops a property
/// on the way is not held to it.
pub proof fn lemma_section_data_roundtrip<T: ApiSectionDataEntry>(
    data: SectionConfigData<T>,
    raw: RawSectionConfigData,
    back: SectionConfigData<T>,
)
    requires
        written_as(data, raw),
        read_as(raw, back),
        forall|k: Seq<char>| #[trigger]
            data.sections@.contains_key(k) ==> codec_is_lossless::<T>(data.sections@[k].model()),
    ensures
        same_records(data, back),
{
    lemma_typed_raw_roundtrip::<T>(data.sections@, raw.sections@, back.sections@);
}

/// What was written can be read: no entry of the written data fails to stand
/// for a record, for a record type whose JSON form reads back as the record.
pub proof fn lemma_written_data_reads<T: ApiSectionDataEntry>(
    data: SectionConfigData<T>,
    raw: RawSectionConfigData,
)
    requires
        written_as(data, raw),
        forall|k: Seq<char>| #[trigger]
            data.sections@.contains_key(k) ==> codec_is_lossless::<T>(data.sections@[k].model()),
    ensures
        forall|k: Seq<char>| #[trigger]
            raw.sections@.contains_key(k) ==> entry_decoded::<T>(
                raw.sections@[k].0@,
                json_model(raw.sections@[k].1),
            ) == Some(data.sections@[k].model()),
{
    assert forall|k: Seq<char>| #[trigger] raw.sections@.contains_key(k) implies entry_decoded::<T>(
        raw.sections@[k].0@,
        json_model(raw.sections@[k].1),
    ) == Some(data.sections@[k].model()) by {
        assert(data.sections@.contains_key(k));
        lemma_entry_roundtrip::<T>(data.sections@[k].model());
    }
}

} // verus!
