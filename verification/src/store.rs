//! The content-addressed byte store, consumed as an opaque collaborator:
//! single-key lookup by identifier, no range queries, no write path beyond
//! filling a fixture.

use vstd::prelude::*;

use crate::error::StoreError;
use crate::types::{HgId, ID_LEN};

verus! {

/// The store invariant assumed by the protocol layer: finitely many records,
/// every key a full-width identifier, every record at least as long as the
/// two-slot parent prefix.
pub open spec fn store_contents_wf(c: Map<Seq<u8>, Seq<u8>>) -> bool {
    &&& c.dom().finite()
    &&& forall|k: Seq<u8>| #[trigger]
        c.dom().contains(k) ==> k.len() == ID_LEN && c[k].len() >= 2 * ID_LEN
}

/// Narrow capability interface of the store collaborator: byte lookup by
/// identifier. Implementations are injected; an in-memory one is provided
/// below for fixtures and tests.
pub trait Store: Sized {
    /// The records held by the store, keyed by identifier bytes.
    spec fn contents(&self) -> Map<Seq<u8>, Seq<u8>>;

    /// Whether lookups on this store can fail at all (an in-memory store
    /// cannot; an on-disk one can).
    spec fn infallible(&self) -> bool;

    /// Looks up the record stored under `id`: its bytes, or `None` when
    /// absent, or an I/O failure.
    fn get(&self, id: &HgId) -> (r: Result<Option<Vec<u8>>, StoreError>)
        ensures
            (match r {
                Ok(Some(b)) => self.contents().dom().contains(id@) && b@ == self.contents()[id@],
                Ok(None) => !self.contents().dom().contains(id@),
                Err(_) => !self.infallible(),
            }),
    ;
}

/// The record map described by a sequence of `(id, data)` pairs, a later
/// pair overwriting an earlier one with the same identifier.
pub open spec fn pairs_map(s: Seq<(HgId, Vec<u8>)>) -> Map<Seq<u8>, Seq<u8>>
    decreases s.len(),
{
    if s.len() == 0 {
        Map::empty()
    } else {
        pairs_map(s.drop_last()).insert(s.last().0@, s.last().1@)
    }
}

proof fn lemma_pairs_map_found(s: Seq<(HgId, Vec<u8>)>, j: int)
    requires
        0 <= j < s.len(),
        forall|j2: int| j < j2 < s.len() ==> (#[trigger] s[j2]).0@ != s[j].0@,
    ensures
        pairs_map(s).dom().contains(s[j].0@),
        pairs_map(s)[s[j].0@] == s[j].1@,
    decreases s.len(),
{
    if j == s.len() - 1 {
    } else {
        lemma_pairs_map_found(s.drop_last(), j);
        assert(s.drop_last()[j] == s[j]);
        assert(s.last() == s[s.len() - 1]);
    }
}

proof fn lemma_pairs_map_absent(s: Seq<(HgId, Vec<u8>)>, k: Seq<u8>)
    requires
        forall|j: int| 0 <= j < s.len() ==> (#[trigger] s[j]).0@ != k,
    ensures
        !pairs_map(s).dom().contains(k),
    decreases s.len(),
{
    if s.len() > 0 {
        lemma_pairs_map_absent(s.drop_last(), k);
        assert(s.last() == s[s.len() - 1]);
    }
}

proof fn lemma_pairs_map_wf(s: Seq<(HgId, Vec<u8>)>)
    requires
        forall|j: int| 0 <= j < s.len() ==> (#[trigger] s[j]).0@.len() == ID_LEN && s[j].1@.len()
            >= 2 * ID_LEN,
    ensures
        store_contents_wf(pairs_map(s)),
    decreases s.len(),
{
    if s.len() > 0 {
        lemma_pairs_map_wf(s.drop_last());
        assert(s.last() == s[s.len() - 1]);
    }
}

/// An in-memory store: the local fixture implementation of [`Store`].
pub struct MemoryStore {
    items: Vec<(HgId, Vec<u8>)>,
}

impl MemoryStore {
    /// Every held identifier is full width and every record at least as long
    /// as the parent prefix: established by the constructor and preserved by
    /// every insertion.
    pub closed spec fn wf(self) -> bool {
        forall|j: int| 0 <= j < self.items@.len() ==> (#[trigger] self.items@[j]).0@.len() == ID_LEN
            && self.items@[j].1@.len() >= 2 * ID_LEN
    }

    /// An empty store.
    pub fn new() -> (r: MemoryStore)
        ensures
            r.wf(),
            r.contents() == Map::<Seq<u8>, Seq<u8>>::empty(),
            r.infallible(),
    {
        MemoryStore { items: Vec::new() }
    }

    /// Adds (or replaces) the record stored under `id`. Records are at least
    /// as long as the two-slot parent prefix, per the store invariant.
    pub fn insert(&mut self, id: HgId, data: Vec<u8>)
        requires
            old(self).wf(),
            data@.len() >= 2 * ID_LEN,
        ensures
            final(self).wf(),
            final(self).contents() == old(self).contents().insert(id@, data@),
            final(self).infallible(),
    {
        proof {
            use_type_invariant(&id);
            id.lemma_wf();
        }
        let ghost old_items = self.items@;
        self.items.push((id, data));
        proof {
            assert(self.items@.drop_last() =~= old_items);
        }
    }

    /// The store invariant holds of every in-memory store.
    pub proof fn lemma_store_wf(&self)
        requires
            self.wf(),
        ensures
            store_contents_wf(self.contents()),
    {
        lemma_pairs_map_wf(self.items@);
    }
}

impl Store for MemoryStore {
    closed spec fn contents(&self) -> Map<Seq<u8>, Seq<u8>> {
        pairs_map(self.items@)
    }

    open spec fn infallible(&self) -> bool {
        true
    }

    fn get(&self, id: &HgId) -> (r: Result<Option<Vec<u8>>, StoreError>) {
        let mut i: usize = self.items.len();
        while i > 0
            invariant
                i <= self.items@.len(),
                forall|j: int| i <= j < self.items@.len() ==> (#[trigger] self.items@[j]).0@ != id@,
            decreases i,
        {
            i = i - 1;
            if self.items[i].0 == *id {
                let data = vstd::slice::slice_to_vec(self.items[i].1.as_slice());
                proof {
                    lemma_pairs_map_found(self.items@, i as int);
                }
                return Ok(Some(data));
            }
        }
        proof {
            lemma_pairs_map_absent(self.items@, id@);
        }
        Ok(None)
    }
}

} // verus!
