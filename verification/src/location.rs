//! Location/hash translator: converts between full identifiers and the
//! compact "distance from a known descendant" addresses of the wire
//! protocol, validating every identifier the graph index hands back before
//! it is surfaced.

use vstd::prelude::*;

use crate::error::ApiError;
use crate::graph::AncestorPath;
use crate::types::{CommitHashToLocationResponse, CommitLocationToHashResponse, HgId, Location, ID_LEN};

verus! {

/// Whether every name in the list decodes as a full-width identifier.
pub open spec fn names_valid(names: Seq<Vec<u8>>) -> bool {
    forall|i: int| 0 <= i < names.len() ==> (#[trigger] names[i])@.len() == ID_LEN
}

/// Converts raw vertex names to identifiers; any name of the wrong width
/// rejects the whole list with the internal-error condition, guarding
/// against a corrupted or mismatched graph index producing garbage.
pub fn ids_from_names(names: &Vec<Vec<u8>>) -> (r: Result<Vec<HgId>, ApiError>)
    ensures
        names_valid(names@) ==> (r matches Ok(ids) && ids@.len() == names@.len() && forall|i: int|
            0 <= i < ids@.len() ==> (#[trigger] ids@[i])@ == names@[i]@),
        !names_valid(names@) ==> (r matches Err(e) && e is Internal),
{
    let mut ids: Vec<HgId> = Vec::new();
    let mut i: usize = 0;
    while i < names.len()
        invariant
            i <= names@.len(),
            ids@.len() == i,
            forall|j: int| 0 <= j < i ==> (#[trigger] names@[j])@.len() == ID_LEN,
            forall|j: int| 0 <= j < i ==> (#[trigger] ids@[j])@ == names@[j]@,
        decreases names@.len() - i,
    {
        match HgId::from_slice(names[i].as_slice()) {
            Some(id) => {
                ids.push(id);
            },
            None => {
                return Err(ApiError::Internal);
            },
        }
        i = i + 1;
    }
    Ok(ids)
}

/// Whether every address and every resolved name in the index's answer
/// decodes as a full-width identifier.
pub open spec fn path_names_valid(pn: Seq<(AncestorPath, Vec<Vec<u8>>)>) -> bool {
    forall|i: int| 0 <= i < pn.len() ==> (#[trigger] pn[i]).0.x@.len() == ID_LEN && names_valid(
        pn[i].1@,
    )
}

/// Builds the `commit_location_to_hash` responses from the index's answer:
/// one response per address, carrying the address itself, the resolved
/// identifiers nearest-first, and their count (which may be fewer than
/// requested). Any undecodable identifier rejects the whole answer with the
/// internal-error condition.
pub fn location_to_hash_responses(path_names: Vec<(AncestorPath, Vec<Vec<u8>>)>) -> (r: Result<
    Vec<CommitLocationToHashResponse>,
    ApiError,
>)
    ensures
        path_names_valid(path_names@) ==> (r matches Ok(resps) && resps@.len()
            == path_names@.len() && forall|i: int| 0 <= i < resps@.len() ==> {
            let pn = path_names@[i];
            &&& (#[trigger] resps@[i]).location.descendant@ == pn.0.x@
            &&& resps@[i].location.distance == pn.0.n
            &&& resps@[i].count == pn.1@.len()
            &&& resps@[i].hgids@.len() == pn.1@.len()
            &&& forall|j: int| 0 <= j < pn.1@.len() ==> (#[trigger] resps@[i].hgids@[j])@
                == pn.1@[j]@
        }),
        !path_names_valid(path_names@) ==> (r matches Err(e) && e is Internal),
{
    let mut resps: Vec<CommitLocationToHashResponse> = Vec::new();
    let mut i: usize = 0;
    while i < path_names.len()
        invariant
            i <= path_names@.len(),
            resps@.len() == i,
            forall|j: int| 0 <= j < i ==> (#[trigger] path_names@[j]).0.x@.len() == ID_LEN
                && names_valid(path_names@[j].1@),
            forall|j: int| 0 <= j < i ==> {
                let pn = path_names@[j];
                &&& (#[trigger] resps@[j]).location.descendant@ == pn.0.x@
                &&& resps@[j].location.distance == pn.0.n
                &&& resps@[j].count == pn.1@.len()
                &&& resps@[j].hgids@.len() == pn.1@.len()
                &&& forall|k: int| 0 <= k < pn.1@.len() ==> (#[trigger] resps@[j].hgids@[k])@
                    == pn.1@[k]@
            },
        decreases path_names@.len() - i,
    {
        let descendant = match HgId::from_slice(path_names[i].0.x.as_slice()) {
            Some(id) => id,
            None => {
                return Err(ApiError::Internal);
            },
        };
        let hgids = match ids_from_names(&path_names[i].1) {
            Ok(ids) => ids,
            Err(e) => {
                return Err(e);
            },
        };
        let count = hgids.len() as u64;
        let resp = CommitLocationToHashResponse {
            location: Location { descendant, distance: path_names[i].0.n },
            count,
            hgids,
        };
        resps.push(resp);
        i = i + 1;
    }
    Ok(resps)
}

/// Sum of the resolved-name counts of the first `i` answer groups: the
/// number of responses their expansion produces.
pub open spec fn expanded_prefix_len(pn: Seq<(AncestorPath, Vec<Vec<u8>>)>, i: int) -> int
    decreases i,
{
    if i <= 0 {
        0
    } else {
        expanded_prefix_len(pn, i - 1) + pn[i - 1].1@.len()
    }
}

/// Whether no distance in the expansion would overflow: each group's base
/// distance plus its largest offset stays within bounds.
pub open spec fn distances_in_bounds(pn: Seq<(AncestorPath, Vec<Vec<u8>>)>) -> bool {
    forall|i: int| 0 <= i < pn.len() ==> (#[trigger] pn[i]).0.n + pn[i].1@.len() - 1 <= u64::MAX
}

/// Whether `resps` is exactly the expansion of the index's answer: one
/// response per resolved name, whose address is the group's descendant at
/// the group's base distance plus the name's offset.
pub open spec fn is_hash_to_location_expansion(
    pn: Seq<(AncestorPath, Vec<Vec<u8>>)>,
    resps: Seq<CommitHashToLocationResponse>,
) -> bool {
    &&& resps.len() == expanded_prefix_len(pn, pn.len() as int)
    &&& forall|i: int, j: int| 0 <= i < pn.len() && 0 <= j < (#[trigger] pn[i]).1@.len() ==> {
        let r = #[trigger] resps[expanded_prefix_len(pn, i) + j];
        &&& r.hgid@ == pn[i].1@[j]@
        &&& (r.result matches Some(loc) && loc.descendant@ == pn[i].0.x@ && loc.distance == pn[i].0.n
            + j)
    }
}

proof fn lemma_expanded_prefix_len_nonneg(pn: Seq<(AncestorPath, Vec<Vec<u8>>)>, i: int)
    ensures
        expanded_prefix_len(pn, i) >= 0,
    decreases i,
{
    if i > 0 {
        lemma_expanded_prefix_len_nonneg(pn, i - 1);
    }
}

proof fn lemma_expanded_prefix_len_mono(pn: Seq<(AncestorPath, Vec<Vec<u8>>)>, a: int, b: int)
    requires
        a <= b,
    ensures
        expanded_prefix_len(pn, a) <= expanded_prefix_len(pn, b),
    decreases b - a,
{
    if a < b {
        lemma_expanded_prefix_len_mono(pn, a, b - 1);
    }
}

/// Builds the `commit_hash_to_location` responses from the index's answer:
/// each `(address, names)` group expands into one response per name, with
/// distance equal to the group's base distance plus the name's offset.
/// Undecodable identifiers, or a distance that would overflow, reject the
/// whole answer with the internal-error condition. Targets the index could
/// not resolve are simply absent.
pub fn hash_to_location_responses(path_names: Vec<(AncestorPath, Vec<Vec<u8>>)>) -> (r: Result<
    Vec<CommitHashToLocationResponse>,
    ApiError,
>)
    ensures
        (path_names_valid(path_names@) && distances_in_bounds(path_names@)) ==> (r matches Ok(
            resps,
        ) && is_hash_to_location_expansion(path_names@, resps@)),
        !(path_names_valid(path_names@) && distances_in_bounds(path_names@)) ==> (r matches Err(e)
            && e is Internal),
{
    let mut resps: Vec<CommitHashToLocationResponse> = Vec::new();
    let mut i: usize = 0;
    while i < path_names.len()
        invariant
            i <= path_names@.len(),
            forall|j: int| 0 <= j < i ==> (#[trigger] path_names@[j]).0.x@.len() == ID_LEN
                && names_valid(path_names@[j].1@),
            forall|j: int| 0 <= j < i ==> (#[trigger] path_names@[j]).0.n + path_names@[j].1@.len()
                - 1 <= u64::MAX,
            resps@.len() == expanded_prefix_len(path_names@, i as int),
            forall|j: int, k: int| 0 <= j < i && 0 <= k < (#[trigger] path_names@[j]).1@.len()
                ==> {
                let r = #[trigger] resps@[expanded_prefix_len(path_names@, j) + k];
                &&& r.hgid@ == path_names@[j].1@[k]@
                &&& (r.result matches Some(loc) && loc.descendant@ == path_names@[j].0.x@
                    && loc.distance == path_names@[j].0.n + k)
            },
        decreases path_names@.len() - i,
    {
        proof {
            lemma_expanded_prefix_len_nonneg(path_names@, i as int);
        }
        let base_n = path_names[i].0.n;
        let group_len = path_names[i].1.len();
        if group_len > 0 && base_n > u64::MAX - ((group_len - 1) as u64) {
            return Err(ApiError::Internal);
        }
        let descendant_ok = path_names[i].0.x.len() == ID_LEN;
        if !descendant_ok {
            return Err(ApiError::Internal);
        }
        let ghost resps_before = resps@;
        let mut j: usize = 0;
        while j < group_len
            invariant
                i < path_names@.len(),
                j <= group_len,
                group_len == path_names@[i as int].1@.len(),
                base_n == path_names@[i as int].0.n,
                path_names@[i as int].0.x@.len() == ID_LEN,
                group_len > 0 ==> base_n + group_len - 1 <= u64::MAX,
                forall|k: int| 0 <= k < j ==> (#[trigger] path_names@[i as int].1@[k])@.len()
                    == ID_LEN,
                resps@.len() == resps_before.len() + j,
                forall|k: int| 0 <= k < resps_before.len() ==> #[trigger] resps@[k]
                    == resps_before[k],
                forall|k: int| 0 <= k < j ==> {
                    let r = #[trigger] resps@[resps_before.len() + k];
                    &&& r.hgid@ == path_names@[i as int].1@[k]@
                    &&& (r.result matches Some(loc) && loc.descendant@ == path_names@[i as int].0.x@
                        && loc.distance == base_n + k)
                },
            decreases group_len - j,
        {
            let hgid = match HgId::from_slice(path_names[i].1[j].as_slice()) {
                Some(id) => id,
                None => {
                    return Err(ApiError::Internal);
                },
            };
            let descendant = match HgId::from_slice(path_names[i].0.x.as_slice()) {
                Some(id) => id,
                None => {
                    assert(false);
                    HgId::null()
                },
            };
            let resp = CommitHashToLocationResponse {
                hgid,
                result: Some(Location { descendant, distance: base_n + (j as u64) }),
            };
            resps.push(resp);
            j = j + 1;
        }
        proof {
            assert forall|j2: int, k: int|
                0 <= j2 < i + 1 && 0 <= k < (#[trigger] path_names@[j2]).1@.len() implies {
                let r = #[trigger] resps@[expanded_prefix_len(path_names@, j2) + k];
                &&& r.hgid@ == path_names@[j2].1@[k]@
                &&& (r.result matches Some(loc) && loc.descendant@ == path_names@[j2].0.x@
                    && loc.distance == path_names@[j2].0.n + k)
            } by {
                lemma_expanded_prefix_len_nonneg(path_names@, j2);
                if j2 < i {
                    lemma_expanded_prefix_len_mono(path_names@, j2 + 1, i as int);
                    assert(expanded_prefix_len(path_names@, j2) + k < resps_before.len());
                } else {
                    assert(expanded_prefix_len(path_names@, j2) == resps_before.len());
                }
            }
        }
        i = i + 1;
    }
    assert(path_names_valid(path_names@) && distances_in_bounds(path_names@));
    Ok(resps)
}

} // verus!
