//! Query façade: one operation per protocol method, composing the codec,
//! the history walker, the translators and the batch responder over the
//! injected store and commit-graph collaborators, and mapping failures to
//! protocol error classes.
//!
//! Every operation is a stateless, independently-resolvable read against
//! the current store/graph snapshot; the repository selector each method
//! takes is ignored by this layer. Mutation-shaped methods are stubs that
//! fail immediately with the not-implemented condition.

use vstd::prelude::*;
use vstd::string::StringExecFns;

use crate::codec::{extract_body, extract_p1_p2, spec_body, spec_p1, spec_p2};
use crate::error::ApiError;
use crate::fetch::{convert_to_fetch, fetch_all_ok, Fetch};
use crate::graph::{convert_clone_data, AncestorPath, CloneData, Dag};
use crate::history::{ancestry_complete, missing_ancestor, walk_history, walk_ok};
use crate::location::{hash_to_location_responses, ids_from_names, location_to_hash_responses};
use crate::store::{store_contents_wf, Store};
use crate::types::{
    BookmarkEntry, CommitGraphEntry, CommitHashToLocationResponse, CommitKnownResponse,
    CommitLocationToHashRequest, CommitLocationToHashResponse, CommitRevlogData, FileEntry,
    HgFilenodeData, HgMutationEntryContent, HgId, HistoryEntry, Key, LookupResponse, Parents,
    ResponseMeta, TreeAttributes, TreeEntry, UploadHgChangeset, UploadHgChangesetsResponse,
    UploadHgFilenodeResponse, UploadToken, UploadTreeEntry, UploadTreeResponse,
};

verus! {

/// The canned answer of `health`: a fixed success, since there is no
/// network layer to probe.
pub fn default_response_meta() -> (r: ResponseMeta)
    ensures
        r.status == 200,
        r.server matches Some(s) && s@ == "EagerRepo"@,
{
    ResponseMeta { status: 200, server: Some(String::from_str("EagerRepo")) }
}

/// First identifier stored under a bookmark name at or after `from`.
pub open spec fn bookmark_lookup_from(
    bm: Seq<(String, HgId)>,
    name: Seq<char>,
    from: int,
) -> Option<Seq<u8>>
    decreases bm.len() - from,
    when 0 <= from
{
    if from >= bm.len() {
        None
    } else if bm[from].0@ == name {
        Some(bm[from].1@)
    } else {
        bookmark_lookup_from(bm, name, from + 1)
    }
}

/// The identifier stored under a bookmark name, if present.
pub open spec fn bookmark_lookup(bm: Seq<(String, HgId)>, name: Seq<char>) -> Option<Seq<u8>> {
    bookmark_lookup_from(bm, name, 0)
}

/// The local, offline stand-in for a remote content server: answers the
/// batch query protocol from an injected content-addressed store, an
/// injected commit-graph index, and a bookmark snapshot.
pub struct EagerRepo<S: Store, D: Dag> {
    /// The content-addressed byte store.
    pub store: S,
    /// The commit-graph index.
    pub dag: D,
    /// The bookmark snapshot, name to identifier.
    pub bookmarks: Vec<(String, HgId)>,
}

impl<S: Store, D: Dag> EagerRepo<S, D> {
    /// The assumed store invariant, required by the record-decoding
    /// operations.
    pub open spec fn wf(&self) -> bool {
        store_contents_wf(self.store.contents())
    }

    /// Assembles a repository from its three collaborators.
    pub fn new(store: S, dag: D, bookmarks: Vec<(String, HgId)>) -> (r: EagerRepo<S, D>)
        ensures
            r.store == store,
            r.dag == dag,
            r.bookmarks == bookmarks,
    {
        EagerRepo { store, dag, bookmarks }
    }

    /// Looks up one record, emulating the protocol's error classes: absent
    /// content is the not-found condition, a store failure the internal
    /// condition.
    pub fn get_sha1_blob_for_api(&self, id: &HgId) -> (r: Result<Vec<u8>, ApiError>)
        ensures
            (match r {
                Ok(b) => self.store.contents().dom().contains(id@) && b@
                    == self.store.contents()[id@],
                Err(ApiError::NotFound(missing)) => missing@ == id@
                    && !self.store.contents().dom().contains(id@),
                Err(ApiError::Internal) => !self.store.infallible(),
                Err(_) => false,
            }),
    {
        match self.store.get(id) {
            Ok(Some(data)) => Ok(data),
            Ok(None) => Err(ApiError::NotFound(id.clone())),
            Err(_) => Err(ApiError::Internal),
        }
    }

    /// Health probe: a fixed canned success.
    pub fn health(&self) -> (r: Result<ResponseMeta, ApiError>)
        ensures
            r matches Ok(m) && m.status == 200 && (m.server matches Some(s) && s@
                == "EagerRepo"@),
    {
        Ok(default_response_meta())
    }

    /// Fetches file content: each requested key is looked up in the store
    /// and decoded into parents and body. A missing id or a store failure
    /// is that item's own failure, never batch-aborting.
    pub fn files(&self, _repo: String, keys: Vec<Key>) -> (r: Result<Fetch<FileEntry>, ApiError>)
        requires
            self.wf(),
        ensures
            r matches Ok(f) && f.entries@.len() == keys@.len() && forall|i: int|
                0 <= i < keys@.len() ==> (match #[trigger] f.entries@[i] {
                    Ok(e) => {
                        let c = self.store.contents();
                        &&& c.dom().contains(keys@[i].hgid@)
                        &&& e.key@ == keys@[i]@
                        &&& e.parents.p1@ == spec_p1(c[keys@[i].hgid@])
                        &&& e.parents.p2@ == spec_p2(c[keys@[i].hgid@])
                        &&& e.data@ == spec_body(c[keys@[i].hgid@])
                    },
                    Err(ApiError::NotFound(missing)) => missing@ == keys@[i].hgid@
                        && !self.store.contents().dom().contains(keys@[i].hgid@),
                    Err(ApiError::Internal) => !self.store.infallible(),
                    Err(_) => false,
                }),
    {
        let mut values: Vec<Result<FileEntry, ApiError>> = Vec::new();
        let mut i: usize = 0;
        while i < keys.len()
            invariant
                self.wf(),
                i <= keys@.len(),
                values@.len() == i,
                forall|j: int| 0 <= j < i ==> (match #[trigger] values@[j] {
                    Ok(e) => {
                        let c = self.store.contents();
                        &&& c.dom().contains(keys@[j].hgid@)
                        &&& e.key@ == keys@[j]@
                        &&& e.parents.p1@ == spec_p1(c[keys@[j].hgid@])
                        &&& e.parents.p2@ == spec_p2(c[keys@[j].hgid@])
                        &&& e.data@ == spec_body(c[keys@[j].hgid@])
                    },
                    Err(ApiError::NotFound(missing)) => missing@ == keys@[j].hgid@
                        && !self.store.contents().dom().contains(keys@[j].hgid@),
                    Err(ApiError::Internal) => !self.store.infallible(),
                    Err(_) => false,
                }),
            decreases keys@.len() - i,
        {
            let key = keys[i].clone();
            match self.get_sha1_blob_for_api(&key.hgid) {
                Ok(data) => {
                    let (p1, p2) = extract_p1_p2(data.as_slice());
                    let body = extract_body(data.as_slice());
                    let entry = FileEntry { key, parents: Parents { p1, p2 }, data: body };
                    values.push(Ok(entry));
                },
                Err(e) => {
                    values.push(Err(e));
                },
            }
            i = i + 1;
        }
        Ok(convert_to_fetch(values))
    }

    /// Walks per-file history: one entry per ancestor of every input key,
    /// with rename-aware parent resolution. The depth hint is accepted and
    /// never enforced; the full ancestry is always walked. A missing record
    /// aborts the whole walk.
    pub fn history(&self, _repo: String, keys: Vec<Key>, _length: Option<u32>) -> (r: Result<
        Fetch<HistoryEntry>,
        ApiError,
    >)
        requires
            self.wf(),
        ensures
            (r matches Ok(f) ==> {
                &&& forall|i: int| 0 <= i < f.entries@.len() ==> (#[trigger] f.entries@[i]) is Ok
                &&& walk_ok(
                    f.entries@.map_values(|x: Result<HistoryEntry, ApiError>| x->Ok_0),
                    keys@,
                    self.store.contents(),
                )
            }),
            (r matches Err(e) ==> (e is NotFound || e is Internal)),
            self.store.infallible() ==> !(r matches Err(e) && e is Internal),
            (r matches Err(ApiError::NotFound(id)) ==> missing_ancestor(
                self.store.contents(),
                keys@,
                id@,
            )),
            (self.store.infallible() && ancestry_complete(self.store.contents(), keys@) ==> r
                is Ok),
    {
        let entries = match walk_history(&self.store, keys) {
            Ok(es) => es,
            Err(e) => {
                return Err(e);
            },
        };
        let ghost es0 = entries@;
        let mut entries = entries;
        let mut values: Vec<Result<HistoryEntry, ApiError>> = Vec::new();
        while entries.len() > 0
            invariant
                values@.len() + entries@.len() == es0.len(),
                entries@ == es0.skip(values@.len() as int),
                forall|j: int| 0 <= j < values@.len() ==> #[trigger] values@[j] == Ok::<
                    HistoryEntry,
                    ApiError,
                >(es0[j]),
            decreases entries@.len(),
        {
            let e = entries.remove(0);
            assert(e == es0[values@.len() as int]);
            values.push(Ok(e));
            assert(entries@ =~= es0.skip(values@.len() as int));
        }
        assert(values@.map_values(|x: Result<HistoryEntry, ApiError>| x->Ok_0) =~= es0);
        Ok(convert_to_fetch(values))
    }

    /// Fetches tree content: like `files`, but returning only the requested
    /// attributes. Requesting child metadata — which this store cannot
    /// compute — rejects the whole call; no partial computation is
    /// attempted.
    pub fn trees(&self, _repo: String, keys: Vec<Key>, attributes: Option<TreeAttributes>) -> (r:
        Result<Fetch<TreeEntry>, ApiError>)
        requires
            self.wf(),
        ensures
            (spec_tree_attrs(attributes).child_metadata ==> (r matches Err(e) && e
                is InvalidRequest)),
            (!spec_tree_attrs(attributes).child_metadata ==> (r matches Ok(f) && f.entries@.len()
                == keys@.len() && forall|i: int| 0 <= i < keys@.len() ==> (
            match #[trigger] f.entries@[i] {
                Ok(e) => {
                    let c = self.store.contents();
                    let at = spec_tree_attrs(attributes);
                    &&& c.dom().contains(keys@[i].hgid@)
                    &&& e.key@ == keys@[i]@
                    &&& (at.manifest_blob ==> (e.data matches Some(d) && d@ == spec_body(
                        c[keys@[i].hgid@],
                    )))
                    &&& (!at.manifest_blob ==> e.data is None)
                    &&& (at.parents ==> (e.parents matches Some(ps) && ps.p1@ == spec_p1(
                        c[keys@[i].hgid@],
                    ) && ps.p2@ == spec_p2(c[keys@[i].hgid@])))
                    &&& (!at.parents ==> e.parents is None)
                },
                Err(ApiError::NotFound(missing)) => missing@ == keys@[i].hgid@
                    && !self.store.contents().dom().contains(keys@[i].hgid@),
                Err(ApiError::Internal) => !self.store.infallible(),
                Err(_) => false,
            }))),
    {
        let attributes = match attributes {
            Some(at) => at,
            None => TreeAttributes::default(),
        };
        if attributes.child_metadata {
            return Err(ApiError::InvalidRequest);
        }
        let mut values: Vec<Result<TreeEntry, ApiError>> = Vec::new();
        let mut i: usize = 0;
        while i < keys.len()
            invariant
                self.wf(),
                !attributes.child_metadata,
                i <= keys@.len(),
                values@.len() == i,
                forall|j: int| 0 <= j < i ==> (match #[trigger] values@[j] {
                    Ok(e) => {
                        let c = self.store.contents();
                        &&& c.dom().contains(keys@[j].hgid@)
                        &&& e.key@ == keys@[j]@
                        &&& (attributes.manifest_blob ==> (e.data matches Some(d) && d@
                            == spec_body(c[keys@[j].hgid@])))
                        &&& (!attributes.manifest_blob ==> e.data is None)
                        &&& (attributes.parents ==> (e.parents matches Some(ps) && ps.p1@
                            == spec_p1(c[keys@[j].hgid@]) && ps.p2@ == spec_p2(c[keys@[j].hgid@])))
                        &&& (!attributes.parents ==> e.parents is None)
                    },
                    Err(ApiError::NotFound(missing)) => missing@ == keys@[j].hgid@
                        && !self.store.contents().dom().contains(keys@[j].hgid@),
                    Err(ApiError::Internal) => !self.store.infallible(),
                    Err(_) => false,
                }),
            decreases keys@.len() - i,
        {
            let key = keys[i].clone();
            match self.get_sha1_blob_for_api(&key.hgid) {
                Ok(data) => {
                    let blob = if attributes.manifest_blob {
                        Some(extract_body(data.as_slice()))
                    } else {
                        None
                    };
                    let parents = if attributes.parents {
                        let (p1, p2) = extract_p1_p2(data.as_slice());
                        Some(Parents { p1, p2 })
                    } else {
                        None
                    };
                    let entry = TreeEntry { key, data: blob, parents };
                    values.push(Ok(entry));
                },
                Err(e) => {
                    values.push(Err(e));
                },
            }
            i = i + 1;
        }
        Ok(convert_to_fetch(values))
    }

    /// Fetches the raw stored record of each commit, parent prefix
    /// included, exactly as stored. Per-item failures as in `files`.
    pub fn commit_revlog_data(&self, _repo: String, hgids: Vec<HgId>) -> (r: Result<
        Fetch<CommitRevlogData>,
        ApiError,
    >)
        ensures
            r matches Ok(f) && f.entries@.len() == hgids@.len() && forall|i: int|
                0 <= i < hgids@.len() ==> (match #[trigger] f.entries@[i] {
                    Ok(e) => {
                        let c = self.store.contents();
                        &&& c.dom().contains(hgids@[i]@)
                        &&& e.hgid@ == hgids@[i]@
                        &&& e.revlog_data@ == c[hgids@[i]@]
                    },
                    Err(ApiError::NotFound(missing)) => missing@ == hgids@[i]@
                        && !self.store.contents().dom().contains(hgids@[i]@),
                    Err(ApiError::Internal) => !self.store.infallible(),
                    Err(_) => false,
                }),
    {
        let mut values: Vec<Result<CommitRevlogData, ApiError>> = Vec::new();
        let mut i: usize = 0;
        while i < hgids.len()
            invariant
                i <= hgids@.len(),
                values@.len() == i,
                forall|j: int| 0 <= j < i ==> (match #[trigger] values@[j] {
                    Ok(e) => {
                        let c = self.store.contents();
                        &&& c.dom().contains(hgids@[j]@)
                        &&& e.hgid@ == hgids@[j]@
                        &&& e.revlog_data@ == c[hgids@[j]@]
                    },
                    Err(ApiError::NotFound(missing)) => missing@ == hgids@[j]@
                        && !self.store.contents().dom().contains(hgids@[j]@),
                    Err(ApiError::Internal) => !self.store.infallible(),
                    Err(_) => false,
                }),
            decreases hgids@.len() - i,
        {
            let id = hgids[i].clone();
            match self.get_sha1_blob_for_api(&id) {
                Ok(data) => {
                    values.push(Ok(CommitRevlogData { hgid: id, revlog_data: data }));
                },
                Err(e) => {
                    values.push(Err(e));
                },
            }
            i = i + 1;
        }
        Ok(convert_to_fetch(values))
    }

    /// Reports membership: whether a record exists in the store for each
    /// identifier, independent of graph membership. A store failure aborts
    /// the whole call with the internal condition.
    pub fn commit_known(&self, _repo: String, hgids: Vec<HgId>) -> (r: Result<
        Fetch<CommitKnownResponse>,
        ApiError,
    >)
        ensures
            (r matches Ok(f) ==> f.entries@.len() == hgids@.len() && forall|i: int|
                0 <= i < hgids@.len() ==> (#[trigger] f.entries@[i] matches Ok(e) && e.hgid@
                    == hgids@[i]@ && e.known == self.store.contents().dom().contains(hgids@[i]@))),
            (r matches Err(e) ==> e is Internal && !self.store.infallible()),
            self.store.infallible() ==> r is Ok,
    {
        let mut values: Vec<Result<CommitKnownResponse, ApiError>> = Vec::new();
        let mut i: usize = 0;
        while i < hgids.len()
            invariant
                i <= hgids@.len(),
                values@.len() == i,
                forall|j: int| 0 <= j < i ==> (#[trigger] values@[j] matches Ok(e) && e.hgid@
                    == hgids@[j]@ && e.known == self.store.contents().dom().contains(hgids@[j]@)),
            decreases hgids@.len() - i,
        {
            let id = hgids[i].clone();
            let known = match self.store.get(&id) {
                Ok(found) => found.is_some(),
                Err(e) => {
                    return Err(crate::error::map_store_err(e));
                },
            };
            values.push(Ok(CommitKnownResponse { hgid: id, known }));
            i = i + 1;
        }
        Ok(convert_to_fetch(values))
    }

    /// Resolves bookmark names against the snapshot. An unresolved name
    /// produces a present-but-empty entry, not an error.
    pub fn bookmarks(&self, _repo: String, bookmarks: Vec<String>) -> (r: Result<
        Fetch<BookmarkEntry>,
        ApiError,
    >)
        ensures
            r matches Ok(f) && f.entries@.len() == bookmarks@.len() && forall|i: int|
                0 <= i < bookmarks@.len() ==> (#[trigger] f.entries@[i] matches Ok(e)
                    && e.bookmark@ == bookmarks@[i]@ && (match bookmark_lookup(
                    self.bookmarks@,
                    bookmarks@[i]@,
                ) {
                    Some(idv) => e.hgid matches Some(h) && h@ == idv,
                    None => e.hgid is None,
                })),
    {
        let mut values: Vec<Result<BookmarkEntry, ApiError>> = Vec::new();
        let mut i: usize = 0;
        while i < bookmarks.len()
            invariant
                i <= bookmarks@.len(),
                values@.len() == i,
                forall|j: int| 0 <= j < i ==> (#[trigger] values@[j] matches Ok(e) && e.bookmark@
                    == bookmarks@[j]@ && (match bookmark_lookup(self.bookmarks@, bookmarks@[j]@) {
                    Some(idv) => e.hgid matches Some(h) && h@ == idv,
                    None => e.hgid is None,
                })),
            decreases bookmarks@.len() - i,
        {
            let name = bookmarks[i].clone();
            let opt_id = self.lookup_bookmark(&name);
            values.push(Ok(BookmarkEntry { bookmark: name, hgid: opt_id }));
            i = i + 1;
        }
        Ok(convert_to_fetch(values))
    }

    fn lookup_bookmark(&self, name: &String) -> (r: Option<HgId>)
        ensures
            (match bookmark_lookup(self.bookmarks@, name@) {
                Some(idv) => r matches Some(h) && h@ == idv,
                None => r is None,
            }),
    {
        let mut i: usize = 0;
        while i < self.bookmarks.len()
            invariant
                i <= self.bookmarks@.len(),
                bookmark_lookup(self.bookmarks@, name@) == bookmark_lookup_from(
                    self.bookmarks@,
                    name@,
                    i as int,
                ),
            decreases self.bookmarks@.len() - i,
        {
            if self.bookmarks[i].0 == *name {
                return Some(self.bookmarks[i].1.clone());
            }
            i = i + 1;
        }
        None
    }

    /// Exports the full reachable graph for cloning, validating every
    /// id-map value before conversion. A graph-index failure, or a corrupt
    /// identifier in its answer, is the internal condition.
    pub fn clone_data(&self, _repo: String) -> (r: Result<CloneData, ApiError>)
        ensures
            r matches Err(e) ==> e is Internal,
    {
        let data = match self.dag.export_clone_data() {
            Ok(d) => d,
            Err(e) => {
                return Err(crate::error::map_dag_err(e));
            },
        };
        convert_clone_data(data)
    }

    /// Exports only the segment delta between two master positions, for
    /// incremental advance of a local copy; validated like `clone_data`.
    pub fn pull_fast_forward_master(&self, _repo: String, old_master: HgId, new_master: HgId) -> (r:
        Result<CloneData, ApiError>)
        ensures
            r matches Err(e) ==> e is Internal,
    {
        let old_name = vstd::slice::slice_to_vec(old_master.as_bytes());
        let new_name = vstd::slice::slice_to_vec(new_master.as_bytes());
        let data = match self.dag.pull_fast_forward_master(old_name, new_name) {
            Ok(d) => d,
            Err(e) => {
                return Err(crate::error::map_dag_err(e));
            },
        };
        convert_clone_data(data)
    }

    /// Resolves relative graph addresses to identifier lists through the
    /// graph index, then validates and packages the answer exactly as
    /// [`crate::location::location_to_hash_responses`] states.
    pub fn commit_location_to_hash(
        &self,
        _repo: String,
        requests: Vec<CommitLocationToHashRequest>,
    ) -> (r: Result<Fetch<CommitLocationToHashResponse>, ApiError>)
        ensures
            (r matches Err(e) ==> e is Internal),
            (r matches Ok(f) ==> forall|i: int| 0 <= i < f.entries@.len() ==> (
            #[trigger] f.entries@[i]) is Ok),
    {
        let paths = paths_from_requests(&requests);
        let path_names = match self.dag.resolve_relative_paths_to_names(paths) {
            Ok(pn) => pn,
            Err(e) => {
                return Err(crate::error::map_dag_err(e));
            },
        };
        let resps = match location_to_hash_responses(path_names) {
            Ok(rs) => rs,
            Err(e) => {
                return Err(e);
            },
        };
        Ok(fetch_all_ok(resps))
    }

    /// Resolves target identifiers to relative graph addresses against the
    /// known master heads, expanding the index's answer exactly as
    /// [`crate::location::hash_to_location_responses`] states. Targets
    /// outside the known-reachable set are simply absent from the result.
    pub fn commit_hash_to_location(
        &self,
        _repo: String,
        master_heads: Vec<HgId>,
        hgids: Vec<HgId>,
    ) -> (r: Result<Fetch<CommitHashToLocationResponse>, ApiError>)
        ensures
            (r matches Err(e) ==> e is Internal),
            (r matches Ok(f) ==> forall|i: int| 0 <= i < f.entries@.len() ==> (
            #[trigger] f.entries@[i]) is Ok),
    {
        let heads = id_bytes_list(&master_heads);
        let names = id_bytes_list(&hgids);
        let path_names = match self.dag.resolve_names_to_relative_paths(heads, names) {
            Ok(pn) => pn,
            Err(e) => {
                return Err(crate::error::map_dag_err(e));
            },
        };
        let resps = match hash_to_location_responses(path_names) {
            Ok(rs) => rs,
            Err(e) => {
                return Err(e);
            },
        };
        Ok(fetch_all_ok(resps))
    }

    /// Iterates the commit graph reachable from `heads` and not from
    /// `common`, descendants first, one entry per vertex with its validated
    /// parents. A corrupt identifier, or a parent-lookup failure, is that
    /// item's own internal-condition failure.
    pub fn commit_graph(&self, _repo: String, heads: Vec<HgId>, common: Vec<HgId>) -> (r: Result<
        Fetch<CommitGraphEntry>,
        ApiError,
    >)
        ensures
            (r matches Err(e) ==> e is Internal),
            (r matches Ok(f) ==> forall|i: int| 0 <= i < f.entries@.len() ==> (
            match #[trigger] f.entries@[i] {
                Ok(_) => true,
                Err(e) => e is Internal,
            })),
    {
        let heads_b = id_bytes_list(&heads);
        let common_b = id_bytes_list(&common);
        let vertices = match self.dag.only_reverse(heads_b, common_b) {
            Ok(v) => v,
            Err(e) => {
                return Err(crate::error::map_dag_err(e));
            },
        };
        let mut values: Vec<Result<CommitGraphEntry, ApiError>> = Vec::new();
        let mut i: usize = 0;
        while i < vertices.len()
            invariant
                i <= vertices@.len(),
                forall|j: int| 0 <= j < values@.len() ==> (match #[trigger] values@[j] {
                    Ok(_) => true,
                    Err(e) => e is Internal,
                }),
            decreases vertices@.len() - i,
        {
            let parents = self.dag.parent_names(&vertices[i]);
            values.push(crate::graph::graph_entry(&vertices[i], parents));
            i = i + 1;
        }
        Ok(convert_to_fetch(values))
    }

    /// Stub: the full-idmap export is intentionally unsupported.
    pub fn full_idmap_clone_data(&self, _repo: String) -> (r: Result<CloneData, ApiError>)
        ensures
            r matches Err(e) && e is NotImplemented,
    {
        Err(crate::error::not_implemented_error())
    }

    /// Stub: complete-tree fetch is intentionally unsupported; no partial
    /// work is performed.
    pub fn complete_trees(
        &self,
        _repo: String,
        _rootdir: Vec<u8>,
        _mfnodes: Vec<HgId>,
        _basemfnodes: Vec<HgId>,
        _depth: Option<usize>,
    ) -> (r: Result<Fetch<TreeEntry>, ApiError>)
        ensures
            r matches Err(e) && e is NotImplemented,
    {
        Err(crate::error::not_implemented_error())
    }

    /// Stub: item lookup is intentionally unsupported.
    pub fn lookup_batch(&self, _repo: String, _items: Vec<HgId>) -> (r: Result<
        Fetch<LookupResponse>,
        ApiError,
    >)
        ensures
            r matches Err(e) && e is NotImplemented,
    {
        Err(crate::error::not_implemented_error())
    }

    /// Stub: file upload is intentionally unsupported.
    pub fn process_files_upload(&self, _repo: String, _data: Vec<(HgId, Vec<u8>)>) -> (r: Result<
        Fetch<UploadToken>,
        ApiError,
    >)
        ensures
            r matches Err(e) && e is NotImplemented,
    {
        Err(crate::error::not_implemented_error())
    }

    /// Stub: filenode upload is intentionally unsupported.
    pub fn upload_filenodes_batch(&self, _repo: String, _items: Vec<HgFilenodeData>) -> (r: Result<
        Fetch<UploadHgFilenodeResponse>,
        ApiError,
    >)
        ensures
            r matches Err(e) && e is NotImplemented,
    {
        Err(crate::error::not_implemented_error())
    }

    /// Stub: tree upload is intentionally unsupported.
    pub fn upload_trees_batch(&self, _repo: String, _items: Vec<UploadTreeEntry>) -> (r: Result<
        Fetch<UploadTreeResponse>,
        ApiError,
    >)
        ensures
            r matches Err(e) && e is NotImplemented,
    {
        Err(crate::error::not_implemented_error())
    }

    /// Stub: changeset upload is intentionally unsupported.
    pub fn upload_changesets(
        &self,
        _repo: String,
        _changesets: Vec<UploadHgChangeset>,
        _mutations: Vec<HgMutationEntryContent>,
    ) -> (r: Result<Fetch<UploadHgChangesetsResponse>, ApiError>)
        ensures
            r matches Err(e) && e is NotImplemented,
    {
        Err(crate::error::not_implemented_error())
    }
}

/// The relative ancestry addresses handed to the graph index: one per
/// request, carrying exactly that request's descendant bytes, distance and
/// count.
fn paths_from_requests(requests: &Vec<CommitLocationToHashRequest>) -> (r: Vec<AncestorPath>)
    ensures
        r@.len() == requests@.len(),
        forall|i: int| 0 <= i < requests@.len() ==> {
            let p = #[trigger] r@[i];
            &&& p.x@ == requests@[i].location.descendant@
            &&& p.n == requests@[i].location.distance
            &&& p.batch_size == requests@[i].count
        },
{
    let mut paths: Vec<AncestorPath> = Vec::new();
    let mut i: usize = 0;
    while i < requests.len()
        invariant
            i <= requests@.len(),
            paths@.len() == i,
            forall|j: int| 0 <= j < i ==> {
                let p = #[trigger] paths@[j];
                &&& p.x@ == requests@[j].location.descendant@
                &&& p.n == requests@[j].location.distance
                &&& p.batch_size == requests@[j].count
            },
        decreases requests@.len() - i,
    {
        let x = vstd::slice::slice_to_vec(requests[i].location.descendant.as_bytes());
        paths.push(
            AncestorPath { x, n: requests[i].location.distance, batch_size: requests[i].count },
        );
        i = i + 1;
    }
    paths
}

/// The raw identifier bytes of each id in a list, for handing to the graph
/// index.
fn id_bytes_list(ids: &Vec<HgId>) -> (r: Vec<Vec<u8>>)
    ensures
        r@.len() == ids@.len(),
        forall|i: int| 0 <= i < ids@.len() ==> (#[trigger] r@[i])@ == ids@[i]@,
{
    let mut out: Vec<Vec<u8>> = Vec::new();
    let mut i: usize = 0;
    while i < ids.len()
        invariant
            i <= ids@.len(),
            out@.len() == i,
            forall|j: int| 0 <= j < i ==> (#[trigger] out@[j])@ == ids@[j]@,
        decreases ids@.len() - i,
    {
        out.push(vstd::slice::slice_to_vec(ids[i].as_bytes()));
        i = i + 1;
    }
    out
}

/// The attributes a `trees` call resolves to: the given ones, or the
/// default (body and parents, no child metadata).
pub open spec fn spec_tree_attrs(attributes: Option<TreeAttributes>) -> TreeAttributes {
    match attributes {
        Some(at) => at,
        None => TreeAttributes { manifest_blob: true, parents: true, child_metadata: false },
    }
}

} // verus!
