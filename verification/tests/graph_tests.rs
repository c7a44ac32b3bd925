use eagerepo::api::EagerRepo;
use eagerepo::error::ApiError;
use eagerepo::error::DagError;
use eagerepo::graph::{convert_clone_data, graph_entry, AncestorPath, MemoryDag, VertexCloneData};
use eagerepo::location::{hash_to_location_responses, ids_from_names, location_to_hash_responses};
use eagerepo::store::MemoryStore;
use eagerepo::types::{CommitLocationToHashRequest, HgId, Location, ID_LEN};

fn hgid(b: u8) -> HgId {
    HgId::from_slice(&[b; ID_LEN]).unwrap()
}

fn name(b: u8) -> Vec<u8> {
    vec![b; ID_LEN]
}

/// A chain a <- b <- c (c newest), as a graph fixture.
fn chain_dag() -> MemoryDag {
    let mut dag = MemoryDag::new();
    dag.add_vertex(name(1), vec![]).unwrap();
    dag.add_vertex(name(2), vec![name(1)]).unwrap();
    dag.add_vertex(name(3), vec![name(2)]).unwrap();
    dag
}

fn chain_repo() -> EagerRepo<MemoryStore, MemoryDag> {
    EagerRepo::new(MemoryStore::new(), chain_dag(), vec![])
}

#[test]
fn location_to_hash_resolves_ancestors() {
    let repo = chain_repo();
    let req = CommitLocationToHashRequest {
        location: Location { descendant: hgid(3), distance: 1 },
        count: 2,
    };
    let fetch = repo
        .commit_location_to_hash("repo".to_string(), vec![req])
        .unwrap();
    assert_eq!(fetch.entries.len(), 1);
    let resp = fetch.entries[0].as_ref().unwrap();
    assert_eq!(resp.location.descendant, hgid(3));
    assert_eq!(resp.location.distance, 1);
    assert_eq!(resp.count, 2);
    assert_eq!(resp.hgids, vec![hgid(2), hgid(1)]);
}

#[test]
fn location_to_hash_count_may_fall_short() {
    let repo = chain_repo();
    let req = CommitLocationToHashRequest {
        location: Location { descendant: hgid(3), distance: 2 },
        count: 5,
    };
    let fetch = repo
        .commit_location_to_hash("repo".to_string(), vec![req])
        .unwrap();
    let resp = fetch.entries[0].as_ref().unwrap();
    // Only the root remains at distance 2; fewer ids than requested.
    assert_eq!(resp.count, 1);
    assert_eq!(resp.hgids, vec![hgid(1)]);
}

#[test]
fn hash_to_location_resolves_targets() {
    let repo = chain_repo();
    let fetch = repo
        .commit_hash_to_location(
            "repo".to_string(),
            vec![hgid(3)],
            vec![hgid(1), hgid(2)],
        )
        .unwrap();
    assert_eq!(fetch.entries.len(), 2);
    let r1 = fetch.entries[0].as_ref().unwrap();
    assert_eq!(r1.hgid, hgid(1));
    let loc = r1.result.as_ref().unwrap();
    assert_eq!(loc.descendant, hgid(3));
    assert_eq!(loc.distance, 2);
    let r2 = fetch.entries[1].as_ref().unwrap();
    assert_eq!(r2.hgid, hgid(2));
    assert_eq!(r2.result.as_ref().unwrap().distance, 1);
}

#[test]
fn hash_to_location_silently_omits_unknown_targets() {
    let repo = chain_repo();
    let fetch = repo
        .commit_hash_to_location(
            "repo".to_string(),
            vec![hgid(3)],
            vec![hgid(9), hgid(2)],
        )
        .unwrap();
    // The unknown id is absent, not an error.
    assert_eq!(fetch.entries.len(), 1);
    assert_eq!(fetch.entries[0].as_ref().unwrap().hgid, hgid(2));
}

#[test]
fn location_round_trip_recovers_ids() {
    let repo = chain_repo();
    let targets = vec![hgid(1), hgid(2), hgid(3)];
    let locations = repo
        .commit_hash_to_location("repo".to_string(), vec![hgid(3)], targets.clone())
        .unwrap();
    let mut recovered = Vec::new();
    for entry in &locations.entries {
        let resp = entry.as_ref().unwrap();
        let loc = resp.result.as_ref().unwrap();
        let req = CommitLocationToHashRequest {
            location: Location {
                descendant: loc.descendant.clone(),
                distance: loc.distance,
            },
            count: 1,
        };
        let back = repo
            .commit_location_to_hash("repo".to_string(), vec![req])
            .unwrap();
        let back_resp = back.entries[0].as_ref().unwrap();
        assert_eq!(back_resp.hgids.len(), 1);
        assert_eq!(back_resp.hgids[0], resp.hgid);
        recovered.push(back_resp.hgids[0].clone());
    }
    assert_eq!(recovered, targets);
}

#[test]
fn commit_graph_lists_descendants_first() {
    let repo = chain_repo();
    let fetch = repo
        .commit_graph("repo".to_string(), vec![hgid(3)], vec![])
        .unwrap();
    let entries: Vec<_> = fetch
        .entries
        .iter()
        .map(|e| e.as_ref().unwrap())
        .collect();
    assert_eq!(entries.len(), 3);
    assert_eq!(entries[0].hgid, hgid(3));
    assert_eq!(entries[0].parents, vec![hgid(2)]);
    assert_eq!(entries[1].hgid, hgid(2));
    assert_eq!(entries[2].hgid, hgid(1));
    assert!(entries[2].parents.is_empty());
}

#[test]
fn commit_graph_subtracts_common_ancestry() {
    let repo = chain_repo();
    let fetch = repo
        .commit_graph("repo".to_string(), vec![hgid(3)], vec![hgid(2)])
        .unwrap();
    let entries: Vec<_> = fetch
        .entries
        .iter()
        .map(|e| e.as_ref().unwrap())
        .collect();
    assert_eq!(entries.len(), 1);
    assert_eq!(entries[0].hgid, hgid(3));
}

#[test]
fn clone_data_exports_validated_idmap() {
    let repo = chain_repo();
    let data = repo.clone_data("repo".to_string()).unwrap();
    assert_eq!(data.idmap.len(), 3);
    assert_eq!(data.idmap[0], (0, hgid(1)));
    assert_eq!(data.idmap[2], (2, hgid(3)));
    assert_eq!(data.flat_segments.len(), 3);
    assert_eq!(data.flat_segments[1].low, 1);
    assert_eq!(data.flat_segments[1].parents, vec![0]);
}

#[test]
fn pull_fast_forward_exports_only_the_delta() {
    let repo = chain_repo();
    let data = repo
        .pull_fast_forward_master("repo".to_string(), hgid(1), hgid(3))
        .unwrap();
    // Only positions after the old master carry segments.
    assert_eq!(data.flat_segments.len(), 2);
    assert_eq!(data.flat_segments[0].low, 1);
    assert_eq!(data.flat_segments[1].low, 2);
}

#[test]
fn pull_fast_forward_unknown_master_is_internal() {
    let repo = chain_repo();
    let err = repo
        .pull_fast_forward_master("repo".to_string(), hgid(9), hgid(3))
        .unwrap_err();
    assert!(matches!(err, ApiError::Internal));
}

#[test]
fn ids_from_names_rejects_wrong_width() {
    let good = vec![name(1), name(2)];
    let ids = ids_from_names(&good).unwrap();
    assert_eq!(ids, vec![hgid(1), hgid(2)]);
    let bad = vec![name(1), vec![0u8; 19]];
    assert!(matches!(ids_from_names(&bad), Err(ApiError::Internal)));
}

#[test]
fn location_converter_rejects_corrupt_descendant() {
    let pn = vec![(
        AncestorPath { x: vec![1u8; 7], n: 0, batch_size: 1 },
        vec![name(2)],
    )];
    assert!(matches!(
        location_to_hash_responses(pn),
        Err(ApiError::Internal)
    ));
}

#[test]
fn hash_to_location_converter_expands_offsets() {
    let pn = vec![(
        AncestorPath { x: name(9), n: 10, batch_size: 3 },
        vec![name(4), name(5)],
    )];
    let resps = hash_to_location_responses(pn).unwrap();
    assert_eq!(resps.len(), 2);
    assert_eq!(resps[0].hgid, hgid(4));
    assert_eq!(resps[0].result.as_ref().unwrap().distance, 10);
    assert_eq!(resps[1].hgid, hgid(5));
    assert_eq!(resps[1].result.as_ref().unwrap().distance, 11);
}

#[test]
fn hash_to_location_converter_rejects_distance_overflow() {
    let pn = vec![(
        AncestorPath { x: name(9), n: u64::MAX, batch_size: 2 },
        vec![name(4), name(5)],
    )];
    assert!(matches!(
        hash_to_location_responses(pn),
        Err(ApiError::Internal)
    ));
}

#[test]
fn graph_entry_assembles_vertex_and_parents() {
    let entry = graph_entry(&name(3), Ok(vec![name(1), name(2)])).unwrap();
    assert_eq!(entry.hgid, hgid(3));
    assert_eq!(entry.parents, vec![hgid(1), hgid(2)]);
}

#[test]
fn graph_entry_rejects_corrupt_vertex() {
    let r = graph_entry(&vec![1u8; 5], Ok(vec![name(1)]));
    assert!(matches!(r, Err(ApiError::Internal)));
}

#[test]
fn graph_entry_rejects_corrupt_parent() {
    let r = graph_entry(&name(3), Ok(vec![vec![1u8; 5]]));
    assert!(matches!(r, Err(ApiError::Internal)));
}

#[test]
fn graph_entry_maps_lookup_failure_to_internal() {
    let r = graph_entry(&name(3), Err(DagError));
    assert!(matches!(r, Err(ApiError::Internal)));
}

#[test]
fn convert_clone_data_rejects_corrupt_value() {
    let data = VertexCloneData {
        flat_segments: vec![],
        idmap: vec![(0, vec![1u8; 3])],
    };
    assert!(matches!(convert_clone_data(data), Err(ApiError::Internal)));
}

#[test]
fn convert_clone_data_keeps_segments_and_keys() {
    let data = VertexCloneData {
        flat_segments: vec![],
        idmap: vec![(7, name(1))],
    };
    let c = convert_clone_data(data).unwrap();
    assert!(c.flat_segments.is_empty());
    assert_eq!(c.idmap, vec![(7, hgid(1))]);
}
