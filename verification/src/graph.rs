//! The commit-graph index, consumed as an opaque collaborator: ancestry-set
//! iteration, parent lookup, relative-address resolution, and segment export.
//! Its algorithmic internals (segment construction, ancestry computation)
//! are supplied and assumed correct; this crate validates and converts what
//! it returns.

use vstd::prelude::*;

use crate::codec::bytes_eq;
use crate::error::{map_dag_err, ApiError, DagError};
use crate::location::{ids_from_names, names_valid};
use crate::types::{CommitGraphEntry, HgId, ID_LEN};

verus! {

/// A relative ancestry address handed to the graph index: `n` first-parent
/// steps up from the vertex named `x`, answering up to `batch_size` ids.
#[derive(Debug)]
pub struct AncestorPath {
    /// Raw name of the descendant vertex (identifier bytes, unvalidated).
    pub x: Vec<u8>,
    /// Upward distance from `x`.
    pub n: u64,
    /// How many successive ancestors to resolve.
    pub batch_size: u64,
}

impl Clone for AncestorPath {
    fn clone(&self) -> (r: Self)
        ensures
            r.x@ == self.x@,
            r.n == self.n,
            r.batch_size == self.batch_size,
    {
        let x = self.x.clone();
        assert(x@ =~= self.x@);
        AncestorPath { x, n: self.n, batch_size: self.batch_size }
    }
}

/// One contiguous ancestry range of the graph export: compact positions
/// `low..=high`, with the parents of `low` given by position.
#[derive(Debug)]
pub struct FlatSegment {
    /// First position of the range.
    pub low: u64,
    /// Last position of the range.
    pub high: u64,
    /// Parent positions of the vertex at `low`.
    pub parents: Vec<u64>,
}

/// A graph export as the index produces it: ordered segments plus a map
/// from compact positions to raw vertex names (unvalidated).
#[derive(Debug)]
pub struct VertexCloneData {
    /// The ordered contiguous ancestry ranges.
    pub flat_segments: Vec<FlatSegment>,
    /// Position-to-name map, as `(position, name)` pairs.
    pub idmap: Vec<(u64, Vec<u8>)>,
}

/// A graph export with every position mapped to a validated identifier:
/// sufficient to reconstruct a subgraph for cloning.
#[derive(Debug)]
pub struct CloneData {
    /// The ordered contiguous ancestry ranges, exactly as exported.
    pub flat_segments: Vec<FlatSegment>,
    /// Position-to-identifier map, every value validated.
    pub idmap: Vec<(u64, HgId)>,
}

/// Whether every name in an exported id map decodes as a full-width
/// identifier.
pub open spec fn idmap_valid(idmap: Seq<(u64, Vec<u8>)>) -> bool {
    forall|i: int| 0 <= i < idmap.len() ==> (#[trigger] idmap[i]).1@.len() == ID_LEN
}

/// Validates and converts a raw graph export: segments are kept exactly,
/// every id-map value is validated before conversion, and any undecodable
/// value rejects the whole export with the internal-error condition.
pub fn convert_clone_data(data: VertexCloneData) -> (r: Result<CloneData, ApiError>)
    ensures
        idmap_valid(data.idmap@) ==> (r matches Ok(c) && {
            &&& c.flat_segments@ == data.flat_segments@
            &&& c.idmap@.len() == data.idmap@.len()
            &&& forall|i: int| 0 <= i < c.idmap@.len() ==> (#[trigger] c.idmap@[i]).0
                == data.idmap@[i].0 && c.idmap@[i].1@ == data.idmap@[i].1@
        }),
        !idmap_valid(data.idmap@) ==> (r matches Err(e) && e is Internal),
{
    let mut out: Vec<(u64, HgId)> = Vec::new();
    let mut i: usize = 0;
    while i < data.idmap.len()
        invariant
            i <= data.idmap@.len(),
            out@.len() == i,
            forall|j: int| 0 <= j < i ==> (#[trigger] data.idmap@[j]).1@.len() == ID_LEN,
            forall|j: int| 0 <= j < i ==> (#[trigger] out@[j]).0 == data.idmap@[j].0 && out@[j].1@
                == data.idmap@[j].1@,
        decreases data.idmap@.len() - i,
    {
        match HgId::from_slice(data.idmap[i].1.as_slice()) {
            Some(id) => {
                out.push((data.idmap[i].0, id));
            },
            None => {
                assert((data.idmap@[i as int]).1@.len() != ID_LEN);
                assert(!idmap_valid(data.idmap@));
                return Err(ApiError::Internal);
            },
        }
        i = i + 1;
    }
    Ok(CloneData { flat_segments: data.flat_segments, idmap: out })
}

/// Assembles one commit-graph entry from a vertex and the index's
/// parent-lookup answer for it: a full-width vertex with a successful,
/// all-full-width parent answer gives exactly that vertex and those parents,
/// converted byte-identically; anything else is that item's internal-error
/// condition.
pub fn graph_entry(vertex: &Vec<u8>, parents: Result<Vec<Vec<u8>>, DagError>) -> (r: Result<
    CommitGraphEntry,
    ApiError,
>)
    ensures
        (match parents {
            Ok(ns) => if vertex@.len() == ID_LEN && names_valid(ns@) {
                r matches Ok(e) && e.hgid@ == vertex@ && e.parents@.len() == ns@.len()
                    && (forall|j: int| 0 <= j < ns@.len() ==> (#[trigger] e.parents@[j])@
                    == ns@[j]@)
            } else {
                r matches Err(err) && err is Internal
            },
            Err(_) => r matches Err(err) && err is Internal,
        }),
{
    let hgid = match HgId::from_slice(vertex.as_slice()) {
        Some(id) => id,
        None => {
            return Err(ApiError::Internal);
        },
    };
    let names = match parents {
        Ok(ns) => ns,
        Err(e) => {
            return Err(map_dag_err(e));
        },
    };
    let parent_ids = match ids_from_names(&names) {
        Ok(ids) => ids,
        Err(e) => {
            return Err(e);
        },
    };
    Ok(CommitGraphEntry { hgid, parents: parent_ids })
}

/// Narrow capability interface of the commit-graph collaborator. No contract
/// is assumed of its answers beyond their shape; every identifier it hands
/// back is validated before it is surfaced.
pub trait Dag: Sized {
    /// Exports the full reachable graph as segments plus an id map.
    fn export_clone_data(&self) -> Result<VertexCloneData, DagError>;

    /// Exports only the segment delta between an old and a new master
    /// position, for incremental advance of a local copy.
    fn pull_fast_forward_master(&self, old_master: Vec<u8>, new_master: Vec<u8>) -> Result<
        VertexCloneData,
        DagError,
    >;

    /// Resolves each relative address to an ordered list of ancestor names,
    /// nearest first.
    fn resolve_relative_paths_to_names(&self, paths: Vec<AncestorPath>) -> Result<
        Vec<(AncestorPath, Vec<Vec<u8>>)>,
        DagError,
    >;

    /// Resolves target names to relative addresses against the given heads.
    /// Targets the index cannot resolve are simply absent from the result;
    /// that is not an error.
    fn resolve_names_to_relative_paths(&self, heads: Vec<Vec<u8>>, names: Vec<Vec<u8>>) -> Result<
        Vec<(AncestorPath, Vec<Vec<u8>>)>,
        DagError,
    >;

    /// The ancestry set of `heads` minus the ancestry set of `common`,
    /// iterated in reverse position order (descendants first).
    fn only_reverse(&self, heads: Vec<Vec<u8>>, common: Vec<Vec<u8>>) -> Result<
        Vec<Vec<u8>>,
        DagError,
    >;

    /// Parent names of a single vertex.
    fn parent_names(&self, v: &Vec<u8>) -> Result<Vec<Vec<u8>>, DagError>;
}

/// An in-memory commit graph: the local fixture implementation of [`Dag`].
/// Vertices are appended parents-first, so a parent always sits at a lower
/// position than its children; positions play the role of the index's
/// compact ids.
pub struct MemoryDag {
    nodes: Vec<(Vec<u8>, Vec<Vec<u8>>)>,
}

impl MemoryDag {
    /// An empty graph.
    pub fn new() -> MemoryDag {
        MemoryDag { nodes: Vec::new() }
    }

    /// Appends a vertex. Its parents must already be present and its name
    /// must be new; anything else is rejected.
    pub fn add_vertex(&mut self, name: Vec<u8>, parents: Vec<Vec<u8>>) -> Result<(), DagError> {
        if self.find_node(&name).is_some() {
            return Err(DagError);
        }
        let mut i: usize = 0;
        while i < parents.len()
            decreases parents@.len() - i,
        {
            if self.find_node(&parents[i]).is_none() {
                return Err(DagError);
            }
            i = i + 1;
        }
        self.nodes.push((name, parents));
        Ok(())
    }

    fn find_node(&self, name: &Vec<u8>) -> (r: Option<usize>)
        ensures
            r matches Some(i) ==> i < self.nodes@.len(),
    {
        let mut i: usize = 0;
        while i < self.nodes.len()
            invariant
                i <= self.nodes@.len(),
            decreases self.nodes@.len() - i,
        {
            if bytes_eq(self.nodes[i].0.as_slice(), name.as_slice()) {
                return Some(i);
            }
            i = i + 1;
        }
        None
    }

    fn first_parent_index(&self, idx: usize) -> (r: Option<usize>)
        requires
            idx < self.nodes@.len(),
        ensures
            r matches Some(p) ==> p < idx,
    {
        if self.nodes[idx].1.len() == 0 {
            return None;
        }
        match self.find_node(&self.nodes[idx].1[0]) {
            Some(p) if p < idx => Some(p),
            _ => None,
        }
    }

    /// Marks every ancestor (inclusive) of the named vertices.
    fn ancestor_marks(&self, set: &Vec<Vec<u8>>) -> (r: Vec<bool>)
        ensures
            r@.len() == self.nodes@.len(),
    {
        let n = self.nodes.len();
        let mut marks: Vec<bool> = Vec::new();
        let mut i: usize = 0;
        while i < n
            invariant
                marks@.len() == i,
                i <= n,
            decreases n - i,
        {
            marks.push(false);
            i = i + 1;
        }
        let mut j: usize = 0;
        while j < set.len()
            invariant
                marks@.len() == n,
                n == self.nodes@.len(),
                j <= set@.len(),
            decreases set@.len() - j,
        {
            match self.find_node(&set[j]) {
                Some(idx) => {
                    marks.set(idx, true);
                },
                None => {},
            }
            j = j + 1;
        }
        let mut idx = n;
        while idx > 0
            invariant
                idx <= n,
                marks@.len() == n,
                n == self.nodes@.len(),
            decreases idx,
        {
            idx = idx - 1;
            if marks[idx] {
                let mut p: usize = 0;
                while p < self.nodes[idx].1.len()
                    invariant
                        marks@.len() == n,
                        n == self.nodes@.len(),
                        idx < n,
                        p <= self.nodes@[idx as int].1@.len(),
                    decreases self.nodes@[idx as int].1@.len() - p,
                {
                    match self.find_node(&self.nodes[idx].1[p]) {
                        Some(pidx) => {
                            marks.set(pidx, true);
                        },
                        None => {},
                    }
                    p = p + 1;
                }
            }
        }
        marks
    }

    /// The vertex reached from `idx` by `steps` first-parent steps.
    fn walk_up(&self, idx: usize, steps: u64) -> (r: Option<usize>)
        requires
            idx < self.nodes@.len(),
        ensures
            r matches Some(i) ==> i < self.nodes@.len(),
    {
        let mut cur = idx;
        let mut done: u64 = 0;
        while done < steps
            invariant
                cur < self.nodes@.len(),
            decreases steps - done,
        {
            match self.first_parent_index(cur) {
                Some(p) => {
                    cur = p;
                },
                None => {
                    return None;
                },
            }
            done = done + 1;
        }
        Some(cur)
    }

    /// Distance in first-parent steps from `head_idx` down to the vertex
    /// named `target`, if that chain passes through it.
    fn distance_to(&self, head_idx: usize, target: &Vec<u8>) -> (r: Option<u64>)
        requires
            head_idx < self.nodes@.len(),
    {
        let mut cur = head_idx;
        let mut dist: u64 = 0;
        loop
            invariant
                cur < self.nodes@.len(),
                dist <= head_idx - cur,
            decreases cur,
        {
            if bytes_eq(self.nodes[cur].0.as_slice(), target.as_slice()) {
                return Some(dist);
            }
            match self.first_parent_index(cur) {
                Some(p) => {
                    cur = p;
                    dist = dist + 1;
                },
                None => {
                    return None;
                },
            }
        }
    }

    fn segment_for(&self, idx: usize) -> (r: FlatSegment)
        requires
            idx < self.nodes@.len(),
    {
        let mut parents: Vec<u64> = Vec::new();
        let mut p: usize = 0;
        while p < self.nodes[idx].1.len()
            invariant
                idx < self.nodes@.len(),
                p <= self.nodes@[idx as int].1@.len(),
            decreases self.nodes@[idx as int].1@.len() - p,
        {
            match self.find_node(&self.nodes[idx].1[p]) {
                Some(pidx) => {
                    parents.push(pidx as u64);
                },
                None => {},
            }
            p = p + 1;
        }
        FlatSegment { low: idx as u64, high: idx as u64, parents }
    }

    fn name_of(&self, idx: usize) -> (r: Vec<u8>)
        requires
            idx < self.nodes@.len(),
    {
        let v = self.nodes[idx].0.clone();
        v
    }
}

impl Dag for MemoryDag {
    fn export_clone_data(&self) -> Result<VertexCloneData, DagError> {
        let n = self.nodes.len();
        let mut flat_segments: Vec<FlatSegment> = Vec::new();
        let mut idmap: Vec<(u64, Vec<u8>)> = Vec::new();
        let mut idx: usize = 0;
        while idx < n
            invariant
                n == self.nodes@.len(),
                idx <= n,
            decreases n - idx,
        {
            flat_segments.push(self.segment_for(idx));
            idmap.push((idx as u64, self.name_of(idx)));
            idx = idx + 1;
        }
        Ok(VertexCloneData { flat_segments, idmap })
    }

    fn pull_fast_forward_master(&self, old_master: Vec<u8>, new_master: Vec<u8>) -> Result<
        VertexCloneData,
        DagError,
    > {
        let old_idx = match self.find_node(&old_master) {
            Some(i) => i,
            None => {
                return Err(DagError);
            },
        };
        let new_idx = match self.find_node(&new_master) {
            Some(i) => i,
            None => {
                return Err(DagError);
            },
        };
        let mut flat_segments: Vec<FlatSegment> = Vec::new();
        let mut idmap: Vec<(u64, Vec<u8>)> = Vec::new();
        let mut idx: usize = 0;
        while idx < self.nodes.len()
            invariant
                idx <= self.nodes@.len(),
            decreases self.nodes@.len() - idx,
        {
            if idx > old_idx && idx <= new_idx {
                flat_segments.push(self.segment_for(idx));
            }
            if idx <= new_idx {
                idmap.push((idx as u64, self.name_of(idx)));
            }
            idx = idx + 1;
        }
        Ok(VertexCloneData { flat_segments, idmap })
    }

    fn resolve_relative_paths_to_names(&self, paths: Vec<AncestorPath>) -> Result<
        Vec<(AncestorPath, Vec<Vec<u8>>)>,
        DagError,
    > {
        let mut out: Vec<(AncestorPath, Vec<Vec<u8>>)> = Vec::new();
        let mut i: usize = 0;
        while i < paths.len()
            invariant
                i <= paths@.len(),
            decreases paths@.len() - i,
        {
            let path = &paths[i];
            let start = match self.find_node(&path.x) {
                Some(idx) => idx,
                None => {
                    return Err(DagError);
                },
            };
            let target = match self.walk_up(start, path.n) {
                Some(idx) => idx,
                None => {
                    return Err(DagError);
                },
            };
            let mut names: Vec<Vec<u8>> = Vec::new();
            let mut cur = target;
            let mut count: u64 = 0;
            let mut alive = true;
            while alive && count < path.batch_size
                invariant
                    cur < self.nodes@.len(),
                decreases path.batch_size - count,
            {
                names.push(self.name_of(cur));
                count = count + 1;
                match self.first_parent_index(cur) {
                    Some(p) => {
                        cur = p;
                    },
                    None => {
                        alive = false;
                    },
                }
            }
            out.push((path.clone(), names));
            i = i + 1;
        }
        Ok(out)
    }

    fn resolve_names_to_relative_paths(&self, heads: Vec<Vec<u8>>, names: Vec<Vec<u8>>) -> Result<
        Vec<(AncestorPath, Vec<Vec<u8>>)>,
        DagError,
    > {
        let mut out: Vec<(AncestorPath, Vec<Vec<u8>>)> = Vec::new();
        let mut i: usize = 0;
        while i < names.len()
            invariant
                i <= names@.len(),
            decreases names@.len() - i,
        {
            let target = &names[i];
            let mut h: usize = 0;
            let mut found = false;
            while !found && h < heads.len()
                invariant
                    h <= heads@.len(),
                decreases heads@.len() - h,
            {
                match self.find_node(&heads[h]) {
                    Some(head_idx) => {
                        match self.distance_to(head_idx, target) {
                            Some(dist) => {
                                let x = heads[h].clone();
                                let mut ns: Vec<Vec<u8>> = Vec::new();
                                ns.push(target.clone());
                                out.push((AncestorPath { x, n: dist, batch_size: 1 }, ns));
                                found = true;
                            },
                            None => {},
                        }
                    },
                    None => {},
                }
                h = h + 1;
            }
            i = i + 1;
        }
        Ok(out)
    }

    fn only_reverse(&self, heads: Vec<Vec<u8>>, common: Vec<Vec<u8>>) -> Result<
        Vec<Vec<u8>>,
        DagError,
    > {
        let head_marks = self.ancestor_marks(&heads);
        let common_marks = self.ancestor_marks(&common);
        let mut out: Vec<Vec<u8>> = Vec::new();
        let mut idx = self.nodes.len();
        while idx > 0
            invariant
                idx <= self.nodes@.len(),
                head_marks@.len() == self.nodes@.len(),
                common_marks@.len() == self.nodes@.len(),
            decreases idx,
        {
            idx = idx - 1;
            if head_marks[idx] && !common_marks[idx] {
                out.push(self.name_of(idx));
            }
        }
        Ok(out)
    }

    fn parent_names(&self, v: &Vec<u8>) -> Result<Vec<Vec<u8>>, DagError> {
        let idx = match self.find_node(v) {
            Some(i) => i,
            None => {
                return Err(DagError);
            },
        };
        let mut out: Vec<Vec<u8>> = Vec::new();
        let mut p: usize = 0;
        while p < self.nodes[idx].1.len()
            invariant
                idx < self.nodes@.len(),
                p <= self.nodes@[idx as int].1@.len(),
            decreases self.nodes@[idx as int].1@.len() - p,
        {
            out.push(self.nodes[idx].1[p].clone());
            p = p + 1;
        }
        Ok(out)
    }
}

} // verus!
