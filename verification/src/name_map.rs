//! A collection of records keyed by name, kept in the order of first insertion.
use vstd::prelude::*;
use crate::text::{clone_keeps_view, str_eq};

verus! {

/// Position of the entry called `name`, if there is one.
pub open spec fn name_position<T>(entries: Seq<(Seq<char>, T)>, name: Seq<char>) -> Option<int> {
    if exists|i: int| 0 <= i < entries.len() && entries[i].0 == name {
        Some(choose|i: int| 0 <= i < entries.len() && entries[i].0 == name)
    } else {
        None
    }
}

/// The record stored under `name`, if there is one.
pub open spec fn name_lookup<T>(entries: Seq<(Seq<char>, T)>, name: Seq<char>) -> Option<T> {
    match name_position(entries, name) {
        Some(i) => Some(entries[i].1),
        None => None,
    }
}

/// The entries after `value` is stored under `name`: a record already stored
/// under that name is replaced where it stands, a new name goes to the end.
pub open spec fn name_insert<T>(entries: Seq<(Seq<char>, T)>, name: Seq<char>, value: T) -> Seq<
    (Seq<char>, T),
> {
    match name_position(entries, name) {
        Some(i) => entries.update(i, (name, value)),
        None => entries.push((name, value)),
    }
}

/// No two entries carry the same name.
pub open spec fn names_distinct<T>(entries: Seq<(Seq<char>, T)>) -> bool {
    forall|i: int, j: int|
        0 <= i < j < entries.len() ==> (#[trigger] entries[i]).0 != (#[trigger] entries[j]).0
}

/// Storing a record keeps the names distinct.
pub proof fn lemma_insert_keeps_names_distinct<T>(
    entries: Seq<(Seq<char>, T)>,
    name: Seq<char>,
    value: T,
)
    requires
        names_distinct(entries),
    ensures
        names_distinct(name_insert(entries, name, value)),
{
    let after = name_insert(entries, name, value);
    assert forall|i: int, j: int| 0 <= i < j < after.len() implies (#[trigger] after[i]).0 != (
    #[trigger] after[j]).0 by {
        match name_position(entries, name) {
            Some(k) => {
                assert(entries[i].0 != entries[j].0);
                if i == k {
                    assert(entries[k].0 != entries[j].0);
                }
                if j == k {
                    assert(entries[i].0 != entries[k].0);
                }
            },
            None => {
                if j < entries.len() {
                    assert(entries[i].0 != entries[j].0);
                }
            },
        }
    }
}

/// After a record is stored, every entry is the new one or one that was
/// there before.
pub proof fn lemma_insert_entries<T>(
    entries: Seq<(Seq<char>, T)>,
    name: Seq<char>,
    value: T,
    i: int,
)
    requires
        0 <= i < name_insert(entries, name, value).len(),
    ensures
        name_insert(entries, name, value)[i] == (name, value) || (i < entries.len()
            && name_insert(entries, name, value)[i] == entries[i]),
{
}

/// A record that was just stored is found under its name, and every other
/// name still leads to what it led to before (the last write wins).
pub proof fn lemma_lookup_after_insert<T>(
    entries: Seq<(Seq<char>, T)>,
    name: Seq<char>,
    value: T,
    other: Seq<char>,
)
    requires
        names_distinct(entries),
    ensures
        name_lookup(name_insert(entries, name, value), name) == Some(value),
        other != name ==> name_lookup(name_insert(entries, name, value), other) == name_lookup(
            entries,
            other,
        ),
{
    let after = name_insert(entries, name, value);
    lemma_insert_keeps_names_distinct(entries, name, value);
    match name_position(entries, name) {
        Some(k) => {
            assert(after[k].0 == name);
            let p = name_position(after, name)->Some_0;
            if p != k {
                if p < k {
                    assert(after[p].0 != after[k].0);
                } else {
                    assert(after[k].0 != after[p].0);
                }
            }
            if other != name {
                match name_position(entries, other) {
                    Some(q) => {
                        assert(q != k);
                        assert(after[q].0 == other);
                        let q2 = name_position(after, other)->Some_0;
                        assert(q2 != k);
                        assert(entries[q2].0 == other);
                        if q2 != q {
                            if q2 < q {
                                assert(entries[q2].0 != entries[q].0);
                            } else {
                                assert(entries[q].0 != entries[q2].0);
                            }
                        }
                    },
                    None => {
                        if name_position(after, other) is Some {
                            let q2 = name_position(after, other)->Some_0;
                            assert(q2 != k);
                            assert(entries[q2].0 == other);
                        }
                    },
                }
            }
        },
        None => {
            let n = entries.len() as int;
            assert(after[n].0 == name);
            let p = name_position(after, name)->Some_0;
            if p != n {
                assert(entries[p].0 == name);
            }
            if other != name {
                match name_position(entries, other) {
                    Some(q) => {
                        assert(after[q].0 == other);
                        let q2 = name_position(after, other)->Some_0;
                        assert(q2 != n);
                        if q2 != q {
                            if q2 < q {
                                assert(after[q2].0 != after[q].0);
                            } else {
                                assert(after[q].0 != after[q2].0);
                            }
                        }
                    },
                    None => {
                        if name_position(after, other) is Some {
                            let q2 = name_position(after, other)->Some_0;
                            assert(q2 != n);
                            assert(entries[q2].0 == other);
                        }
                    },
                }
            }
        },
    }
}

/// Records keyed by name. Names are unique; iteration follows the order in
/// which the names were first stored.
#[derive(Debug, PartialEq, Eq)]
pub struct LefNameMap<V> {
    entries: Vec<(String, V)>,
}

impl<V: DeepView> DeepView for LefNameMap<V> {
    type V = Seq<(Seq<char>, V::V)>;

    closed spec fn deep_view(&self) -> Seq<(Seq<char>, V::V)> {
        self.entries.deep_view()
    }
}

impl<V> LefNameMap<V> {
    #[verifier::type_invariant]
    spec fn names_are_unique(self) -> bool {
        forall|i: int, j: int|
            0 <= i < j < self.entries@.len() ==> (#[trigger] self.entries@[i]).0@ != (
            #[trigger] self.entries@[j]).0@
    }
}

impl<V: Clone + DeepView> Clone for LefNameMap<V> {
    /// Copies the collection: the same names in the same order, each with a
    /// copy of its record.
    fn clone(&self) -> (res: Self)
        ensures
            clone_keeps_view::<V>() ==> res.deep_view() == self.deep_view(),
    {
        proof {
            use_type_invariant(self);
        }
        let mut entries: Vec<(String, V)> = Vec::new();
        let mut i: usize = 0;
        while i < self.entries.len()
            invariant
                i <= self.entries@.len(),
                entries@.len() == i,
                forall|k: int| 0 <= k < i ==> (#[trigger] entries@[k]).0@ == self.entries@[k].0@,
                forall|k: int|
                    0 <= k < i ==> cloned::<V>(self.entries@[k].1, (#[trigger] entries@[k]).1),
            decreases self.entries@.len() - i,
        {
            let name = self.entries[i].0.clone();
            let value = self.entries[i].1.clone();
            assert(cloned::<V>(self.entries@[i as int].1, value));
            entries.push((name, value));
            i += 1;
        }
        proof {
            assert forall|a: int, b: int| 0 <= a < b < entries@.len() implies (
            #[trigger] entries@[a]).0@ != (#[trigger] entries@[b]).0@ by {
                assert(self.entries@[a].0@ != self.entries@[b].0@);
            }
            if clone_keeps_view::<V>() {
                assert(entries.deep_view() =~= self.entries.deep_view());
            }
        }
        LefNameMap { entries }
    }
}

impl<V: DeepView> Default for LefNameMap<V> {
    fn default() -> (res: Self)
        ensures
            res.deep_view() == Seq::<(Seq<char>, V::V)>::empty(),
    {
        Self::new()
    }
}

impl<V: DeepView> LefNameMap<V> {
    proof fn lemma_unique_names(self)
        requires
            self.names_are_unique(),
        ensures
            names_distinct(self.deep_view()),
    {
        let view = self.deep_view();
        assert forall|i: int, j: int| 0 <= i < j < view.len() implies (#[trigger] view[i]).0 != (
        #[trigger] view[j]).0 by {
            assert(self.entries@[i].0@ != self.entries@[j].0@);
        }
    }

    proof fn lemma_names_unique(entries: Vec<(String, V)>)
        requires
            names_distinct(entries.deep_view()),
        ensures
            forall|i: int, j: int|
                0 <= i < j < entries@.len() ==> (#[trigger] entries@[i]).0@ != (
                #[trigger] entries@[j]).0@,
    {
        let view = entries.deep_view();
        assert forall|i: int, j: int| 0 <= i < j < entries@.len() implies (
        #[trigger] entries@[i]).0@ != (#[trigger] entries@[j]).0@ by {
            assert(view[i].0 != view[j].0);
        }
    }

    /// An empty collection.
    pub fn new() -> (res: Self)
        ensures
            res.deep_view() == Seq::<(Seq<char>, V::V)>::empty(),
    {
        let res = LefNameMap { entries: Vec::new() };
        assert(res.entries.deep_view() =~= Seq::<(Seq<char>, V::V)>::empty());
        res
    }

    /// Number of records.
    pub fn len(&self) -> (res: usize)
        ensures
            res == self.deep_view().len(),
            names_distinct(self.deep_view()),
    {
        proof {
            use_type_invariant(self);
            self.lemma_unique_names();
        }
        self.entries.len()
    }

    /// Position of the record called `name`.
    pub fn position(&self, name: &str) -> (res: Option<usize>)
        ensures
            res is Some <==> name_position(self.deep_view(), name@) is Some,
            res is Some ==> res->Some_0 as int == name_position(self.deep_view(), name@)->Some_0,
    {
        proof {
            use_type_invariant(self);
            self.lemma_unique_names();
        }
        let ghost view = self.entries.deep_view();
        let mut i: usize = 0;
        while i < self.entries.len()
            invariant
                i <= self.entries@.len(),
                view == self.entries.deep_view(),
                names_distinct(view),
                forall|j: int| 0 <= j < i ==> view[j].0 != name@,
            decreases self.entries@.len() - i,
        {
            if str_eq(self.entries[i].0.as_str(), name) {
                proof {
                    assert(view[i as int].0 == name@);
                    let p = name_position(view, name@)->Some_0;
                    if p != i as int {
                        if p < i as int {
                            assert(view[p].0 != view[i as int].0);
                        } else {
                            assert(view[i as int].0 != view[p].0);
                        }
                    }
                }
                return Some(i);
            }
            i += 1;
        }
        None
    }

    /// Name of the record at `index`, counting in insertion order.
    pub fn name_at(&self, index: usize) -> (res: &String)
        requires
            index < self.deep_view().len(),
        ensures
            res@ == self.deep_view()[index as int].0,
    {
        &self.entries[index].0
    }

    /// The record at `index`, counting in insertion order.
    pub fn value_at(&self, index: usize) -> (res: &V)
        requires
            index < self.deep_view().len(),
        ensures
            res.deep_view() == self.deep_view()[index as int].1,
    {
        &self.entries[index].1
    }

    /// The record stored under `name`.
    pub fn get(&self, name: &str) -> (res: Option<&V>)
        ensures
            res.deep_view() == name_lookup(self.deep_view(), name@),
    {
        match self.position(name) {
            Some(i) => Some(&self.entries[i].1),
            None => None,
        }
    }

    /// Tells whether a record is stored under `name`.
    pub fn contains_key(&self, name: &str) -> (res: bool)
        ensures
            res == name_lookup(self.deep_view(), name@) is Some,
    {
        self.position(name).is_some()
    }

    /// Stores `value` under `name`. A record already stored under that name
    /// is replaced and keeps its place; a new name is appended.
    pub fn insert(&mut self, name: String, value: V)
        ensures
            final(self).deep_view() == name_insert(old(self).deep_view(), name@, value.deep_view()),
            names_distinct(old(self).deep_view()),
            names_distinct(final(self).deep_view()),
    {
        proof {
            use_type_invariant(&*self);
            self.lemma_unique_names();
            lemma_insert_keeps_names_distinct(self.entries.deep_view(), name@, value.deep_view());
        }
        let ghost before = self.entries;
        let found = self.position(name.as_str());
        let mut entries: Vec<(String, V)> = Vec::new();
        core::mem::swap(&mut self.entries, &mut entries);
        match found {
            Some(i) => {
                entries[i] = (name, value);
            },
            None => {
                entries.push((name, value));
            },
        }
        proof {
            assert(entries.deep_view() =~= name_insert(
                before.deep_view(),
                name@,
                value.deep_view(),
            ));
            Self::lemma_names_unique(entries);
        }
        core::mem::swap(&mut self.entries, &mut entries);
    }
}

} // verus!
