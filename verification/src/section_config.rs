//! Section data with typed entries.
//!
//! A section file is a list of records, each with an id, a type name and a set of
//! properties. Untyped, a record is a pair of the type name and a JSON object.
//! This module connects that form to a Rust type whose values are the records,
//! and keeps the order in which the ids were first read or inserted.

use vstd::prelude::*;
use vstd::string::*;

use crate::section_map::{keys_of, map_of, SectionMap};
use crate::text::str_eq;

verus! {

/// The ids that a list of strings holds.
pub open spec fn ids(order: Seq<String>) -> Seq<Seq<char>> {
    Seq::new(order.len(), |i: int| order[i]@)
}

/// Position of the first `id` in `list` at or after `from`, or `list.len()`.
pub open spec fn first_from(list: Seq<Seq<char>>, id: Seq<char>, from: int) -> int
    decreases list.len() - from,
{
    if from < 0 || from >= list.len() {
        list.len() as int
    } else if list[from] == id {
        from
    } else {
        first_from(list, id, from + 1)
    }
}

/// The list without the first place where it names `id`.
pub open spec fn without_first(list: Seq<Seq<char>>, id: Seq<char>) -> Seq<Seq<char>> {
    if list.contains(id) {
        list.remove(first_from(list, id, 0))
    } else {
        list
    }
}

/// The list with `id` at its end, unless it names `id` already.
pub open spec fn with_id(list: Seq<Seq<char>>, id: Seq<char>) -> Seq<Seq<char>> {
    if list.contains(id) {
        list
    } else {
        list.push(id)
    }
}

/// The ids of the list, each at the place where the list first names it.
pub open spec fn first_places(list: Seq<Seq<char>>) -> Seq<Seq<char>>
    decreases list.len(),
{
    if list.len() == 0 {
        Seq::empty()
    } else {
        with_id(first_places(list.drop_last()), list.last())
    }
}

/// A list that names no id twice has every id at its first place already.
pub proof fn lemma_first_places_unique(list: Seq<Seq<char>>)
    requires
        list.no_duplicates(),
    ensures
        first_places(list) == list,
    decreases list.len(),
{
    if list.len() > 0 {
        let shorter = list.drop_last();
        lemma_first_places_unique(shorter);
        if shorter.contains(list.last()) {
            let i = choose|i: int| 0 <= i < shorter.len() && shorter[i] == list.last();
            assert(list[i] == list[list.len() - 1]);
        }
        assert(shorter.push(list.last()) =~= list);
    }
}

/// Position of the first id in `list` at or after `from` for which `m` has an
/// entry, or `list.len()`.
pub open spec fn next_present<T>(list: Seq<Seq<char>>, m: Map<Seq<char>, T>, from: int) -> int
    decreases list.len() - from,
{
    if from < 0 || from >= list.len() {
        list.len() as int
    } else if m.contains_key(list[from]) {
        from
    } else {
        next_present(list, m, from + 1)
    }
}

pub proof fn lemma_first_from(list: Seq<Seq<char>>, id: Seq<char>, from: int)
    requires
        0 <= from,
    ensures
        from <= first_from(list, id, from) || first_from(list, id, from) == list.len(),
        first_from(list, id, from) <= list.len(),
        first_from(list, id, from) < list.len() ==> list[first_from(list, id, from)] == id,
        forall|j: int| from <= j < first_from(list, id, from) ==> list[j] != id,
    decreases list.len() - from,
{
    if from < list.len() && list[from] != id {
        lemma_first_from(list, id, from + 1);
    }
}

pub proof fn lemma_first_from_is(list: Seq<Seq<char>>, id: Seq<char>, from: int, at: int)
    requires
        0 <= from <= at <= list.len(),
        at < list.len() ==> list[at] == id,
        forall|j: int| from <= j < at ==> list[j] != id,
    ensures
        first_from(list, id, from) == at,
    decreases at - from,
{
    if from < at {
        lemma_first_from_is(list, id, from + 1, at);
    }
}

pub proof fn lemma_next_present_is<T>(
    list: Seq<Seq<char>>,
    m: Map<Seq<char>, T>,
    from: int,
    at: int,
)
    requires
        0 <= from <= at <= list.len(),
        at < list.len() ==> m.contains_key(list[at]),
        forall|j: int| from <= j < at ==> !m.contains_key(list[j]),
    ensures
        next_present(list, m, from) == at,
    decreases at - from,
{
    if from < at {
        lemma_next_present_is(list, m, from + 1, at);
    }
}

/// Typed section data: the records by id, and the order of the ids.
#[derive(Debug)]
pub struct SectionConfigData<T> {
    pub sections: SectionMap<T>,
    pub order: Vec<String>,
}

impl<T> SectionConfigData<T> {
    /// The ids of the order list.
    pub open spec fn order_ids(&self) -> Seq<Seq<char>> {
        ids(self.order@)
    }

    /// The order list names every record once, and nothing else.
    pub open spec fn wf(&self) -> bool {
        &&& self.order_ids().no_duplicates()
        &&& forall|k: Seq<char>| self.sections@.contains_key(k) <==> self.order_ids().contains(k)
    }

    /// Data without records.
    pub fn new() -> (r: Self)
        ensures
            r.sections@ == Map::<Seq<char>, T>::empty(),
            r.order_ids() == Seq::<Seq<char>>::empty(),
            r.wf(),
    {
        let r = SectionConfigData { sections: SectionMap::new(), order: Vec::new() };
        assert(r.order_ids() =~= Seq::<Seq<char>>::empty());
        r
    }

    /// Data with the given records. The order names every id once; which id
    /// comes first is left open, as the map has no order.
    pub fn from_sections(sections: SectionMap<T>) -> (r: Self)
        ensures
            r.sections@ == sections@,
            r.wf(),
    {
        let order = sections.keys();
        let r = SectionConfigData { sections, order };
        proof {
            assert forall|k: Seq<char>| r.sections@.contains_key(k) implies r.order_ids().contains(
                k,
            ) by {
                let i = choose|i: int| 0 <= i < order@.len() && #[trigger] order@[i]@ == k;
                assert(r.order_ids()[i] == k);
            }
            assert forall|k: Seq<char>| r.order_ids().contains(k) implies r.sections@.contains_key(
                k,
            ) by {
                let i = choose|i: int| 0 <= i < r.order_ids().len() && r.order_ids()[i] == k;
                assert(order@[i]@ == k);
            }
        }
        r
    }

    /// Data with the given records, in the order in which their ids are first
    /// given. Where an id is given twice, the later record counts, and the id
    /// keeps its first place.
    pub fn from_entries(entries: Vec<(String, T)>) -> (r: Self)
        ensures
            r.sections@ == map_of(entries@),
            r.order_ids() == first_places(keys_of(entries@)),
            r.wf(),
    {
        let ghost all = entries@;
        let mut data: SectionConfigData<T> = SectionConfigData::new();
        assert(keys_of(all.take(0)) =~= Seq::<Seq<char>>::empty());
        for entry in it: entries
            invariant
                it.seq() == all,
                data.wf(),
                data.sections@ == map_of(all.take(it.index() as int)),
                data.order_ids() == first_places(keys_of(all.take(it.index() as int))),
        {
            let ghost n = it.index() as int;
            assert(entry == all[n]);
            let (key, value) = entry;
            assert(all.take(n + 1).drop_last() =~= all.take(n));
            assert(all.take(n + 1).last() == all[n]);
            assert(keys_of(all.take(n + 1)).drop_last() =~= keys_of(all.take(n)));
            assert(keys_of(all.take(n + 1)).last() == all[n].0@);
            data.insert(key, value);
        }
        assert(all.take(all.len() as int) =~= all);
        data
    }

    /// Where `id` first stands in the order list.
    fn order_position(&self, id: &str) -> (r: usize)
        ensures
            r == first_from(self.order_ids(), id@, 0),
            r <= self.order@.len(),
    {
        let mut i: usize = 0;
        while i < self.order.len() && !str_eq(self.order[i].as_str(), id)
            invariant
                i <= self.order@.len(),
                forall|j: int| 0 <= j < i ==> self.order_ids()[j] != id@,
            decreases self.order@.len() - i,
        {
            i += 1;
        }
        proof {
            lemma_first_from_is(self.order_ids(), id@, 0, i as int);
        }
        i
    }

    /// Whether there is a record with this id.
    pub fn contains_key(&self, id: &str) -> (r: bool)
        ensures
            r == self.sections@.contains_key(id@),
    {
        self.sections.contains_key(id)
    }

    /// The record with this id.
    pub fn get(&self, id: &str) -> (r: Option<&T>)
        ensures
            match r {
                Some(v) => self.sections@.contains_key(id@) && self.sections@[id@] == *v,
                None => !self.sections@.contains_key(id@),
            },
    {
        self.sections.get(id)
    }

    /// How many records there are.
    pub fn len(&self) -> (r: usize)
        ensures
            r == self.sections@.dom().len(),
    {
        self.sections.len()
    }

    /// Sets the record with this id and returns the record it replaces. A new id
    /// goes to the end of the order; an id that the order names stays where it is.
    pub fn insert(&mut self, id: String, value: T) -> (r: Option<T>)
        ensures
            final(self).sections@ == old(self).sections@.insert(id@, value),
            final(self).order_ids() == with_id(old(self).order_ids(), id@),
            match r {
                Some(v) => old(self).sections@.contains_key(id@) && old(self).sections@[id@] == v,
                None => !old(self).sections@.contains_key(id@),
            },
            old(self).wf() ==> final(self).wf(),
    {
        let at = self.order_position(id.as_str());
        let ghost before = self.order_ids();
        proof {
            lemma_first_from(before, id@, 0);
        }
        if at >= self.order.len() {
            self.order.push(id.clone());
            assert(self.order_ids() =~= before.push(id@));
            assert(!before.contains(id@));
        } else {
            assert(before[at as int] == id@);
        }
        let ghost after = self.order_ids();
        let r = self.sections.insert(id, value);
        proof {
            assert(self.order_ids() == after);
            if old(self).wf() {
                assert forall|k: Seq<char>| self.sections@.contains_key(k) implies after.contains(
                    k,
                ) by {
                    if k == id@ {
                        if at >= before.len() {
                            assert(after[before.len() as int] == k);
                        } else {
                            assert(after[at as int] == k);
                        }
                    } else {
                        assert(old(self).sections@.contains_key(k));
                        assert(before.contains(k));
                        let i = choose|i: int| 0 <= i < before.len() && before[i] == k;
                        assert(after[i] == k);
                    }
                }
                assert forall|k: Seq<char>| after.contains(k) implies self.sections@.contains_key(
                    k,
                ) by {
                    let i = choose|i: int| 0 <= i < after.len() && after[i] == k;
                    if i < before.len() {
                        assert(before[i] == k);
                        assert(before.contains(k));
                        assert(old(self).sections@.contains_key(k));
                    }
                }
            }
        }
        r
    }

    /// Takes the record with this id out, and the first place where the order
    /// names the id.
    pub fn remove(&mut self, id: &str) -> (r: Option<T>)
        ensures
            final(self).sections@ == old(self).sections@.remove(id@),
            final(self).order_ids() == without_first(old(self).order_ids(), id@),
            match r {
                Some(v) => old(self).sections@.contains_key(id@) && old(self).sections@[id@] == v,
                None => !old(self).sections@.contains_key(id@),
            },
            old(self).wf() ==> final(self).wf(),
            old(self).wf() && r is None ==> final(self).order_ids() == old(self).order_ids(),
    {
        let at = self.order_position(id);
        let ghost before = self.order_ids();
        proof {
            lemma_first_from(before, id@, 0);
        }
        if at < self.order.len() {
            assert(before[at as int] == id@);
            self.order.remove(at);
            assert(self.order_ids() =~= before.remove(at as int));
        } else {
            assert(!before.contains(id@));
        }
        let ghost after = self.order_ids();
        let r = self.sections.remove(id);
        proof {
            assert(self.order_ids() == after);
            if old(self).wf() {
                if at >= before.len() {
                    assert(!old(self).sections@.contains_key(id@));
                    assert(self.sections@ =~= old(self).sections@);
                } else {
                    assert(before.contains(id@));
                    assert(old(self).sections@.contains_key(id@));
                }
                if at < before.len() {
                    assert forall|i: int, j: int| 0 <= i < j < after.len() implies after[i]
                        != after[j] by {
                        let i2 = if i < at {
                            i
                        } else {
                            i + 1
                        };
                        let j2 = if j < at {
                            j
                        } else {
                            j + 1
                        };
                        assert(after[i] == before[i2] && after[j] == before[j2]);
                    }
                    assert forall|k: Seq<char>| self.sections@.contains_key(
                        k,
                    ) implies after.contains(k) by {
                        assert(old(self).sections@.contains_key(k));
                        assert(before.contains(k));
                        let i = choose|i: int| 0 <= i < before.len() && before[i] == k;
                        let i2 = if i < at {
                            i
                        } else {
                            i - 1
                        };
                        assert(after[i2] == k);
                    }
                    assert forall|k: Seq<char>| after.contains(
                        k,
                    ) implies self.sections@.contains_key(k) by {
                        let i = choose|i: int| 0 <= i < after.len() && after[i] == k;
                        let i2 = if i < at {
                            i
                        } else {
                            i + 1
                        };
                        assert(before[i2] == k);
                        assert(i2 != at);
                        assert(before.contains(k));
                        assert(old(self).sections@.contains_key(k));
                    }
                }
            }
        }
        r
    }

    /// Walks the records in the order of the order list.
    pub fn iter(&self) -> (r: Iter<'_, T>)
        ensures
            r.sections@ == self.sections@,
            r.order_ids() == self.order_ids(),
            r.pos == 0,
    {
        Iter { sections: &self.sections, order: &self.order, pos: 0 }
    }

    /// Walks the records in the order of the order list, and hands them out.
    pub fn into_iter(self) -> (r: IntoIter<T>)
        ensures
            r.sections@ == self.sections@,
            r.order_ids() == self.order_ids(),
            r.pos == 0,
    {
        IntoIter { sections: self.sections, order: self.order, pos: 0 }
    }
}

/// Where the order list names every record once and nothing else, a walk passes
/// over nothing: its step number `i` hands out the record of the id at position
/// `i` of the order list, and it ends after the last id.
pub proof fn lemma_walk_follows_order<T>(data: SectionConfigData<T>, i: int)
    requires
        data.wf(),
        0 <= i <= data.order_ids().len(),
    ensures
        next_present(data.order_ids(), data.sections@, i) == i,
        i < data.order_ids().len() ==> data.sections@.contains_key(data.order_ids()[i]),
{
    if i < data.order_ids().len() {
        assert(data.order_ids().contains(data.order_ids()[i]));
    }
}

/// A copy of a list of ids.
pub(crate) fn clone_ids(order: &Vec<String>) -> (r: Vec<String>)
    ensures
        ids(r@) == ids(order@),
{
    let mut out: Vec<String> = Vec::new();
    let mut i: usize = 0;
    while i < order.len()
        invariant
            i <= order@.len(),
            out@.len() == i,
            forall|j: int| 0 <= j < i ==> (#[trigger] out@[j])@ == order@[j]@,
        decreases order@.len() - i,
    {
        out.push(order[i].clone());
        i += 1;
    }
    assert(ids(out@) =~= ids(order@));
    out
}

impl<T: Clone> Clone for SectionConfigData<T> {
    /// Data with the same ids in the same order, and under each id a clone of
    /// its record.
    fn clone(&self) -> (r: Self)
        ensures
            r.order_ids() == self.order_ids(),
            r.sections@.dom() == self.sections@.dom(),
            forall|k: Seq<char>| #[trigger]
                self.sections@.contains_key(k) ==> cloned(self.sections@[k], r.sections@[k]),
            self.wf() ==> r.wf(),
    {
        SectionConfigData { sections: self.sections.clone(), order: clone_ids(&self.order) }
    }
}

impl<T> Default for SectionConfigData<T> {
    fn default() -> (r: Self)
        ensures
            r.sections@ == Map::<Seq<char>, T>::empty(),
            r.order_ids() == Seq::<Seq<char>>::empty(),
            r.wf(),
    {
        SectionConfigData::new()
    }
}

/// Walks section data by reference. Ids of the order list for which there is no
/// record are passed over.
pub struct Iter<'a, T> {
    pub sections: &'a SectionMap<T>,
    pub order: &'a Vec<String>,
    pub pos: usize,
}

impl<'a, T> Iter<'a, T> {
    pub open spec fn order_ids(&self) -> Seq<Seq<char>> {
        ids(self.order@)
    }

    /// The next record: the first id of the order list, from the current
    /// position on, for which there is a record.
    pub fn next(&mut self) -> (r: Option<(&'a str, &'a T)>)
        ensures
            final(self).sections == old(self).sections,
            final(self).order == old(self).order,
            ({
                let at = next_present(old(self).order_ids(), old(self).sections@, old(self).pos as int);
                match r {
                    Some((id, value)) => at < old(self).order@.len() && final(self).pos == at + 1
                        && id@ == old(self).order_ids()[at] && old(self).sections@.contains_key(id@)
                        && *value == old(self).sections@[id@],
                    None => at == old(self).order@.len() && final(self).pos == old(self).order@.len(),
                }
            }),
    {
        let order: &'a Vec<String> = self.order;
        let sections: &'a SectionMap<T> = self.sections;
        let ghost start = self.pos as int;
        if self.pos > order.len() {
            self.pos = order.len();
            return None;
        }
        while self.pos < order.len()
            invariant
                0 <= start <= self.pos <= order@.len(),
                start == old(self).pos,
                self.order == order,
                self.sections == sections,
                order == old(self).order,
                sections == old(self).sections,
                forall|j: int| start <= j < self.pos ==> !sections@.contains_key(ids(order@)[j]),
            decreases order@.len() - self.pos,
        {
            let i: usize = self.pos;
            let id: &'a String = &order[i];
            match sections.get(id.as_str()) {
                Some(value) => {
                    proof {
                        lemma_next_present_is(ids(order@), sections@, start, i as int);
                    }
                    self.pos = i + 1;
                    return Some((id.as_str(), value));
                },
                None => {
                    self.pos = i + 1;
                },
            }
        }
        proof {
            lemma_next_present_is(ids(order@), sections@, start, order@.len() as int);
        }
        None
    }
}

/// Walks section data by value. Ids of the order list for which there is no
/// record, or no record any more, are passed over.
pub struct IntoIter<T> {
    pub sections: SectionMap<T>,
    pub order: Vec<String>,
    pub pos: usize,
}

impl<T> IntoIter<T> {
    pub open spec fn order_ids(&self) -> Seq<Seq<char>> {
        ids(self.order@)
    }

    /// The next record: the first id of the order list, from the current
    /// position on, for which there is a record. The record leaves the data.
    pub fn next(&mut self) -> (r: Option<(String, T)>)
        ensures
            final(self).order == old(self).order,
            ({
                let at = next_present(old(self).order_ids(), old(self).sections@, old(self).pos as int);
                match r {
                    Some((id, value)) => at < old(self).order@.len() && final(self).pos == at + 1
                        && id@ == old(self).order_ids()[at] && old(self).sections@.contains_key(id@)
                        && value == old(self).sections@[id@] && final(self).sections@ == old(
                        self,
                    ).sections@.remove(id@),
                    None => at == old(self).order@.len() && final(self).pos == old(self).order@.len()
                        && final(self).sections@ == old(self).sections@,
                }
            }),
    {
        let ghost start = self.pos as int;
        let ghost list = ids(self.order@);
        let ghost m = self.sections@;
        if self.pos > self.order.len() {
            self.pos = self.order.len();
            return None;
        }
        while self.pos < self.order.len()
            invariant
                0 <= start <= self.pos <= self.order@.len(),
                start == old(self).pos,
                self.order == old(self).order,
                self.sections@ == m,
                m == old(self).sections@,
                list == ids(self.order@),
                forall|j: int| start <= j < self.pos ==> !m.contains_key(list[j]),
            decreases self.order@.len() - self.pos,
        {
            let i: usize = self.pos;
            let id = self.order[i].clone();
            self.pos = i + 1;
            match self.sections.remove(id.as_str()) {
                Some(value) => {
                    proof {
                        lemma_next_present_is(list, m, start, i as int);
                    }
                    return Some((id, value));
                },
                None => {
                    assert(self.sections@ =~= m);
                },
            }
        }
        proof {
            lemma_next_present_is(list, m, start, list.len() as int);
        }
        None
    }
}

} // verus!
