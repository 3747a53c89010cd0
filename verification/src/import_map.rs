use vstd::prelude::*;

use crate::text::str_eq;
use crate::types::ImportTypeModel;
use crate::types::ViewImportType;

verus! {

/// Whether `entries` holds a pair whose key is `key`.
pub open spec fn map_contains_key(
    entries: Seq<(Seq<char>, ImportTypeModel)>,
    key: Seq<char>,
) -> bool {
    exists|i: int| 0 <= i < entries.len() && (#[trigger] entries[i]).0 == key
}

/// The index of the pair whose key is `key`; meaningful only when
/// `map_contains_key` holds and keys are distinct.
pub open spec fn map_key_index(entries: Seq<(Seq<char>, ImportTypeModel)>, key: Seq<char>) -> int {
    choose|i: int| 0 <= i < entries.len() && (#[trigger] entries[i]).0 == key
}

/// The classification registered under `key`.
pub open spec fn map_value_of(
    entries: Seq<(Seq<char>, ImportTypeModel)>,
    key: Seq<char>,
) -> ImportTypeModel {
    entries[map_key_index(entries, key)].1
}

/// Registration with last-wins semantics: an existing key keeps its place
/// and takes the new classification; a new key is appended.
pub open spec fn map_upsert(
    entries: Seq<(Seq<char>, ImportTypeModel)>,
    key: Seq<char>,
    value: ImportTypeModel,
) -> Seq<(Seq<char>, ImportTypeModel)> {
    if map_contains_key(entries, key) {
        entries.update(map_key_index(entries, key), (key, value))
    } else {
        entries.push((key, value))
    }
}

/// Whether the keys of `entries` are pairwise distinct.
pub open spec fn distinct_keys(entries: Seq<(Seq<char>, ImportTypeModel)>) -> bool {
    forall|i: int, j: int|
        0 <= i < j < entries.len() ==> (#[trigger] entries[i]).0 != (#[trigger] entries[j]).0
}

proof fn lemma_key_index_at(entries: Seq<(Seq<char>, ImportTypeModel)>, key: Seq<char>, i: int)
    requires
        distinct_keys(entries),
        0 <= i < entries.len(),
        entries[i].0 == key,
    ensures
        map_contains_key(entries, key),
        map_key_index(entries, key) == i,
{
    assert(map_contains_key(entries, key));
    let j = map_key_index(entries, key);
    assert(0 <= j < entries.len() && entries[j].0 == key);
    if i != j {
        assert(entries[i].0 != entries[j].0);
    }
}

/// A mapping from locally visible call spellings to their import
/// classification.  Keys are unique; registering a key again overwrites its
/// classification (last registration wins); iteration follows first
/// registration order.
#[derive(Debug)]
pub struct ImportMap {
    entries: Vec<(String, ViewImportType)>,
}

impl View for ImportMap {
    type V = Seq<(Seq<char>, ImportTypeModel)>;

    closed spec fn view(&self) -> Seq<(Seq<char>, ImportTypeModel)> {
        self.entries@.map_values(|e: (String, ViewImportType)| (e.0@, e.1@))
    }
}

impl ImportMap {
    #[verifier::type_invariant]
    spec fn wf(self) -> bool {
        distinct_keys(self@)
    }

    /// An empty mapping.
    pub fn new() -> (r: Self)
        ensures
            r@ == Seq::<(Seq<char>, ImportTypeModel)>::empty(),
    {
        let r = ImportMap { entries: Vec::new() };
        proof {
            assert(r@ =~= Seq::<(Seq<char>, ImportTypeModel)>::empty());
        }
        r
    }

    /// The number of registered spellings.
    pub fn len(&self) -> (r: usize)
        ensures
            r == self@.len(),
    {
        self.entries.len()
    }

    /// Whether no spelling is registered.
    pub fn is_empty(&self) -> (r: bool)
        ensures
            r == (self@.len() == 0),
    {
        self.entries.len() == 0
    }

    /// Whether `key` is a registered spelling.
    pub fn contains_key(&self, key: &str) -> (r: bool)
        ensures
            r == map_contains_key(self@, key@),
    {
        let n = self.entries.len();
        let mut i: usize = 0;
        while i < n
            invariant
                i <= n,
                n == self.entries.len(),
                forall|k: int| 0 <= k < i ==> (#[trigger] self@[k]).0 != key@,
            decreases n - i,
        {
            if str_eq(self.entries[i].0.as_str(), key) {
                proof {
                    assert(self@[i as int].0 == key@);
                }
                return true;
            }
            i = i + 1;
        }
        false
    }

    /// The classification registered under `key`, if any.
    pub fn get(&self, key: &str) -> (r: Option<&ViewImportType>)
        ensures
            match r {
                Some(t) => map_contains_key(self@, key@) && t@ == map_value_of(self@, key@),
                None => !map_contains_key(self@, key@),
            },
    {
        proof {
            use_type_invariant(&*self);
        }
        let n = self.entries.len();
        let mut i: usize = 0;
        while i < n
            invariant
                i <= n,
                n == self.entries.len(),
                distinct_keys(self@),
                forall|k: int| 0 <= k < i ==> (#[trigger] self@[k]).0 != key@,
            decreases n - i,
        {
            let e = &self.entries[i];
            if str_eq(e.0.as_str(), key) {
                proof {
                    lemma_key_index_at(self@, key@, i as int);
                }
                return Some(&e.1);
            }
            i = i + 1;
        }
        None
    }

    /// Registers `value` under `key`: an existing key keeps its place and
    /// takes the new classification; a new key is appended.
    pub fn insert(&mut self, key: String, value: ViewImportType)
        ensures
            final(self)@ == map_upsert(old(self)@, key@, value@),
    {
        proof {
            use_type_invariant(&*self);
        }
        let ghost old_view = self@;
        let mut entries: Vec<(String, ViewImportType)> = Vec::new();
        core::mem::swap(&mut entries, &mut self.entries);
        let n = entries.len();
        let mut i: usize = 0;
        while i < n
            invariant
                i <= n,
                n == entries.len(),
                old_view == old(self)@,
                old_view == entries@.map_values(|e: (String, ViewImportType)| (e.0@, e.1@)),
                distinct_keys(old_view),
                forall|k: int| 0 <= k < i ==> (#[trigger] old_view[k]).0 != key@,
            decreases n - i,
        {
            if str_eq(entries[i].0.as_str(), key.as_str()) {
                proof {
                    lemma_key_index_at(old_view, key@, i as int);
                }
                entries.set(i, (key, value));
                proof {
                    let new_view = entries@.map_values(
                        |e: (String, ViewImportType)| (e.0@, e.1@),
                    );
                    assert(new_view =~= old_view.update(i as int, (key@, value@)));
                    assert(distinct_keys(new_view));
                }
                self.entries = entries;
                return ;
            }
            i = i + 1;
        }
        entries.push((key, value));
        proof {
            let new_view = entries@.map_values(|e: (String, ViewImportType)| (e.0@, e.1@));
            assert(new_view =~= old_view.push((key@, value@)));
            assert(!map_contains_key(old_view, key@));
            assert(distinct_keys(new_view));
        }
        self.entries = entries;
    }

    /// The spelling registered at position `i`.
    pub fn key_at(&self, i: usize) -> (r: &String)
        requires
            i < self@.len(),
        ensures
            r@ == self@[i as int].0,
    {
        &self.entries[i].0
    }

    /// The classification registered at position `i`.
    pub fn type_at(&self, i: usize) -> (r: &ViewImportType)
        requires
            i < self@.len(),
        ensures
            r@ == self@[i as int].1,
    {
        &self.entries[i].1
    }
}

} // verus!
