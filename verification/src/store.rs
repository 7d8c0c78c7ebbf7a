//! The reference-value store: a pluggable, swappable persistence interface
//! holding the authoritative mapping from artifact names to accepted
//! measurements, plus the reference backend.
//!
//! A construction-time selector ([`StoreType`]) picks the concrete backend;
//! unknown selector names fail to construct instead of silently defaulting.

use vstd::prelude::*;
use vstd::pervasive::VecAdditionalExecFns;

use crate::error::Error;
use crate::reference_value::{ReferenceValue, RvView};

verus! {

/// Whether some entry of `s` carries the name `n`.
pub open spec fn has_name(s: Seq<(String, ReferenceValue)>, n: Seq<char>) -> bool {
    exists|i: int| 0 <= i < s.len() && s[i].0@ == n
}

/// Whether no two entries of `s` carry the same name.
pub open spec fn unique_names(s: Seq<(String, ReferenceValue)>) -> bool {
    forall|i: int, j: int| 0 <= i < j < s.len() ==> s[i].0@ != s[j].0@
}

/// The catalog held by a sequence of named entries; later entries win.
pub open spec fn entries_map(s: Seq<(String, ReferenceValue)>) -> Map<Seq<char>, RvView>
    decreases s.len(),
{
    if s.len() == 0 {
        Map::empty()
    } else {
        entries_map(s.drop_last()).insert(s.last().0@, s.last().1@)
    }
}

proof fn lemma_unique_drop_last(s: Seq<(String, ReferenceValue)>)
    requires
        s.len() > 0,
        unique_names(s),
    ensures
        unique_names(s.drop_last()),
{
    assert forall|i: int, j: int| 0 <= i < j < s.drop_last().len() implies s.drop_last()[i].0@
        != s.drop_last()[j].0@ by {
        assert(s[i].0@ != s[j].0@);
    }
}

proof fn lemma_entries_map_domain(s: Seq<(String, ReferenceValue)>, n: Seq<char>)
    ensures
        entries_map(s).contains_key(n) <==> has_name(s, n),
    decreases s.len(),
{
    if s.len() > 0 {
        lemma_entries_map_domain(s.drop_last(), n);
        if has_name(s, n) && s.last().0@ != n {
            let i = choose|i: int| 0 <= i < s.len() && s[i].0@ == n;
            assert(s.drop_last()[i].0@ == n);
        }
        if has_name(s.drop_last(), n) {
            let i = choose|i: int| 0 <= i < s.drop_last().len() && s.drop_last()[i].0@ == n;
            assert(s[i].0@ == n);
        }
    }
}

proof fn lemma_entries_map_at(s: Seq<(String, ReferenceValue)>, i: int)
    requires
        unique_names(s),
        0 <= i < s.len(),
    ensures
        entries_map(s).contains_key(s[i].0@),
        entries_map(s)[s[i].0@] == s[i].1@,
    decreases s.len(),
{
    if i < s.len() - 1 {
        lemma_unique_drop_last(s);
        lemma_entries_map_at(s.drop_last(), i);
        assert(s.drop_last()[i] == s[i]);
        assert(s[i].0@ != s.last().0@);
    }
}

proof fn lemma_entries_map_update(s: Seq<(String, ReferenceValue)>, i: int, p: (
    String,
    ReferenceValue,
))
    requires
        unique_names(s),
        0 <= i < s.len(),
        p.0@ == s[i].0@,
    ensures
        entries_map(s.update(i, p)) == entries_map(s).insert(p.0@, p.1@),
    decreases s.len(),
{
    let t = s.update(i, p);
    if i == s.len() - 1 {
        assert(t.drop_last() =~= s.drop_last());
        assert(t.last() == p);
        assert(entries_map(s.drop_last()).insert(s.last().0@, s.last().1@).insert(p.0@, p.1@)
            =~= entries_map(s.drop_last()).insert(p.0@, p.1@));
    } else {
        lemma_unique_drop_last(s);
        assert(t.drop_last() =~= s.drop_last().update(i, p));
        assert(t.last() == s.last());
        lemma_entries_map_update(s.drop_last(), i, p);
        assert(s[i].0@ != s.last().0@);
        assert(entries_map(s.drop_last()).insert(p.0@, p.1@).insert(s.last().0@, s.last().1@)
            =~= entries_map(s.drop_last()).insert(s.last().0@, s.last().1@).insert(p.0@, p.1@));
    }
}

/// Interface of a store of reference values.
///
/// Any backend must honor exactly these semantics: `set` atomically inserts
/// or overwrites and returns the previous occupant of the name, `get` is a
/// pure read whose `None` means "no such name" and is never an error. The
/// error arm of both results is the channel through which a backend whose
/// persistence substrate can fail would report that failure; the backends of
/// this crate never produce it, and their contracts say so.
pub trait Store {
    /// Backend invariant, established at construction, preserved by each call.
    spec fn inv(&self) -> bool;

    /// The abstract catalog: artifact names to accepted reference values.
    spec fn store_view(&self) -> Map<Seq<char>, RvView>;

    /// Bind `name` to `rv`, atomically replacing any previous binding, and
    /// return the value that occupied `name` immediately before the call.
    fn set(&mut self, name: String, rv: ReferenceValue) -> (r: Result<
        Option<ReferenceValue>,
        Error,
    >)
        requires
            old(self).inv(),
        ensures
            final(self).inv(),
            r is Ok,
            final(self).store_view() == old(self).store_view().insert(name@, rv@),
            r matches Ok(prev) ==> match prev {
                Some(p) => old(self).store_view().contains_key(name@) && p@ == old(
                    self,
                ).store_view()[name@],
                None => !old(self).store_view().contains_key(name@),
            },
        ;

    /// Retrieve the value bound to `name`; `None` when the name is unknown.
    fn get(&self, name: &str) -> (r: Result<Option<ReferenceValue>, Error>)
        requires
            self.inv(),
        ensures
            r is Ok,
            r matches Ok(v) ==> match v {
                Some(p) => self.store_view().contains_key(name@) && p@
                    == self.store_view()[name@],
                None => !self.store_view().contains_key(name@),
            },
        ;
}

/// The selector for the concrete backend behind the [`Store`] interface,
/// parsed from configuration text at construction time.
#[derive(Clone, Copy, Debug, PartialEq, Eq, Structural)]
pub enum StoreType {
    LocalFs,
}

impl StoreType {
    /// Parse a backend selector from configuration text; a name that matches
    /// no variant is a hard construction-time failure.
    pub fn from_name(name: &str) -> (r: Result<StoreType, Error>)
        ensures
            name@ == "LocalFs"@ ==> (r matches Ok(t) && t == StoreType::LocalFs),
            name@ != "LocalFs"@ ==> (r matches Err(e) && e == Error::UnknownStoreType),
    {
        let n = name.to_owned();
        let localfs = String::from_str("LocalFs");
        if n == localfs {
            Ok(StoreType::LocalFs)
        } else {
            Err(Error::UnknownStoreType)
        }
    }

    /// Construct the backend this selector names, empty.
    pub fn to_store(&self) -> (r: Result<MemStore, Error>)
        ensures
            r matches Ok(s) && s.inv() && s.store_view() == Map::<Seq<char>, RvView>::empty(),
    {
        match self {
            StoreType::LocalFs => Ok(MemStore::new()),
        }
    }
}

/// The reference backend: one record per name, held in process memory as an
/// independently replaceable unit.
pub struct MemStore {
    entries: Vec<(String, ReferenceValue)>,
}

impl MemStore {
    /// An empty store.
    pub fn new() -> (r: MemStore)
        ensures
            r.inv(),
            r.store_view() == Map::<Seq<char>, RvView>::empty(),
    {
        MemStore { entries: Vec::new() }
    }

    /// Index of the entry named `name`, if any.
    fn find(&self, name: &str) -> (r: Option<usize>)
        ensures
            r matches Some(i) ==> i < self.entries@.len() && self.entries@[i as int].0@ == name@,
            r is None ==> !has_name(self.entries@, name@),
    {
        let n = name.to_owned();
        let mut i: usize = 0;
        while i < self.entries.len()
            invariant
                i <= self.entries@.len(),
                n@ == name@,
                forall|j: int| 0 <= j < i ==> self.entries@[j].0@ != name@,
            decreases self.entries@.len() - i,
        {
            if self.entries[i].0 == n {
                return Some(i);
            }
            i = i + 1;
        }
        None
    }
}

impl Store for MemStore {
    closed spec fn inv(&self) -> bool {
        unique_names(self.entries@)
    }

    closed spec fn store_view(&self) -> Map<Seq<char>, RvView> {
        entries_map(self.entries@)
    }

    fn set(&mut self, name: String, rv: ReferenceValue) -> (r: Result<
        Option<ReferenceValue>,
        Error,
    >) {
        let ghost s0 = self.entries@;
        let ghost p = (name, rv);
        match self.find(name.as_str()) {
            Some(i) => {
                let prev = self.entries[i].1.clone();
                proof {
                    lemma_entries_map_at(s0, i as int);
                }
                self.entries.set(i, (name, rv));
                proof {
                    lemma_entries_map_update(s0, i as int, p);
                    assert forall|a: int, b: int|
                        0 <= a < b < self.entries@.len() implies self.entries@[a].0@
                        != self.entries@[b].0@ by {
                        assert(s0[a].0@ != s0[b].0@);
                    }
                }
                Ok(Some(prev))
            },
            None => {
                proof {
                    lemma_entries_map_domain(s0, p.0@);
                }
                self.entries.push((name, rv));
                proof {
                    assert(self.entries@.drop_last() =~= s0);
                    assert(self.entries@.last() == p);
                    assert forall|a: int, b: int|
                        0 <= a < b < self.entries@.len() implies self.entries@[a].0@
                        != self.entries@[b].0@ by {
                        if b < s0.len() {
                            assert(s0[a].0@ != s0[b].0@);
                        } else {
                            assert(s0[a].0@ == self.entries@[a].0@);
                        }
                    }
                }
                Ok(None)
            },
        }
    }

    fn get(&self, name: &str) -> (r: Result<Option<ReferenceValue>, Error>) {
        match self.find(name) {
            Some(i) => {
                proof {
                    lemma_entries_map_at(self.entries@, i as int);
                }
                Ok(Some(self.entries[i].1.clone()))
            },
            None => {
                proof {
                    lemma_entries_map_domain(self.entries@, name@);
                }
                Ok(None)
            },
        }
    }
}

/// Law: for any store and any name it does not yet bind, `set(n, v1)` then
/// `set(n, v2)` returns `None` then `Some(v1)`, and `get(n)` afterwards
/// returns `Some(v2)`.
pub fn store_overwrite_law<S: Store>(
    s: &mut S,
    n: String,
    v1: ReferenceValue,
    v2: ReferenceValue,
) -> (r: (Option<ReferenceValue>, Option<ReferenceValue>, Option<ReferenceValue>))
    requires
        old(s).inv(),
        !old(s).store_view().contains_key(n@),
    ensures
        r.0 is None,
        r.1 matches Some(p) && p@ == v1@,
        r.2 matches Some(q) && q@ == v2@,
{
    let ghost g1 = v1@;
    let n2 = n.clone();
    let n3 = n.clone();
    let first = match s.set(n, v1) {
        Ok(x) => x,
        Err(_) => {
            proof {
                assert(false);
            }
            None
        },
    };
    let second = match s.set(n2, v2) {
        Ok(x) => x,
        Err(_) => {
            proof {
                assert(false);
            }
            None
        },
    };
    let read = match s.get(n3.as_str()) {
        Ok(x) => x,
        Err(_) => {
            proof {
                assert(false);
            }
            None
        },
    };
    (first, second, read)
}

/// Law: reading a name that was never written yields no value and never an
/// error.
pub fn store_unknown_key_law<S: Store>(s: &S, name: &str) -> (r: Result<
    Option<ReferenceValue>,
    Error,
>)
    requires
        s.inv(),
        !s.store_view().contains_key(name@),
    ensures
        r matches Ok(v) && v is None,
{
    s.get(name)
}

} // verus!
