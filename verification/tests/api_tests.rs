use eagerepo::api::EagerRepo;
use eagerepo::codec::encode_record;
use eagerepo::error::ApiError;
use eagerepo::graph::MemoryDag;
use eagerepo::store::MemoryStore;
use eagerepo::types::{HgId, Key, TreeAttributes, ID_LEN};

fn hgid(b: u8) -> HgId {
    HgId::from_slice(&[b; ID_LEN]).unwrap()
}

fn key(path: &[u8], id: u8) -> Key {
    Key { path: path.to_vec(), hgid: hgid(id) }
}

fn repo_with(
    records: Vec<(u8, u8, u8, Vec<u8>)>,
    bookmarks: Vec<(&str, u8)>,
) -> EagerRepo<MemoryStore, MemoryDag> {
    // Each record: (own id byte, p1 byte, p2 byte, body); byte 0 is the
    // null id.
    let mut store = MemoryStore::new();
    for (id, p1, p2, body) in records {
        let p1 = if p1 == 0 { HgId::null() } else { hgid(p1) };
        let p2 = if p2 == 0 { HgId::null() } else { hgid(p2) };
        store.insert(hgid(id), encode_record(&p1, &p2, &body));
    }
    let marks = bookmarks
        .into_iter()
        .map(|(name, id)| (name.to_string(), hgid(id)))
        .collect();
    EagerRepo::new(store, MemoryDag::new(), marks)
}

#[test]
fn health_is_canned_success() {
    let repo = repo_with(vec![], vec![]);
    let meta = repo.health().unwrap();
    assert_eq!(meta.status, 200);
    assert_eq!(meta.server.as_deref(), Some("EagerRepo"));
}

#[test]
fn commit_known_membership() {
    let repo = repo_with(vec![(1, 0, 0, b"root".to_vec())], vec![]);
    let fetch = repo
        .commit_known("repo".to_string(), vec![hgid(1), hgid(9)])
        .unwrap();
    assert_eq!(fetch.entries.len(), 2);
    let first = fetch.entries[0].as_ref().unwrap();
    assert_eq!(first.hgid, hgid(1));
    assert!(first.known);
    let second = fetch.entries[1].as_ref().unwrap();
    assert_eq!(second.hgid, hgid(9));
    assert!(!second.known);
}

#[test]
fn files_returns_parents_and_body() {
    let repo = repo_with(vec![(3, 1, 2, b"the body".to_vec())], vec![]);
    let fetch = repo
        .files("repo".to_string(), vec![key(b"f.txt", 3)])
        .unwrap();
    assert_eq!(fetch.entries.len(), 1);
    let entry = fetch.entries[0].as_ref().unwrap();
    assert_eq!(entry.key.path, b"f.txt".to_vec());
    assert_eq!(entry.key.hgid, hgid(3));
    assert_eq!(entry.parents.p1, hgid(1));
    assert_eq!(entry.parents.p2, hgid(2));
    assert_eq!(entry.data, b"the body".to_vec());
}

#[test]
fn files_missing_id_fails_only_that_item() {
    let repo = repo_with(vec![(3, 0, 0, b"x".to_vec())], vec![]);
    let fetch = repo
        .files(
            "repo".to_string(),
            vec![key(b"a", 9), key(b"b", 3)],
        )
        .unwrap();
    assert_eq!(fetch.entries.len(), 2);
    match fetch.entries[0].as_ref().unwrap_err() {
        ApiError::NotFound(id) => assert_eq!(*id, hgid(9)),
        other => panic!("unexpected error {:?}", other),
    }
    assert!(fetch.entries[1].is_ok());
}

#[test]
fn trees_attribute_selection() {
    let repo = repo_with(vec![(4, 1, 0, b"manifest".to_vec())], vec![]);
    let attrs = TreeAttributes { manifest_blob: true, parents: false, child_metadata: false };
    let fetch = repo
        .trees("repo".to_string(), vec![key(b"dir", 4)], Some(attrs))
        .unwrap();
    let entry = fetch.entries[0].as_ref().unwrap();
    assert_eq!(entry.data.as_deref(), Some(b"manifest".as_slice()));
    assert!(entry.parents.is_none());

    let attrs = TreeAttributes { manifest_blob: false, parents: true, child_metadata: false };
    let fetch = repo
        .trees("repo".to_string(), vec![key(b"dir", 4)], Some(attrs))
        .unwrap();
    let entry = fetch.entries[0].as_ref().unwrap();
    assert!(entry.data.is_none());
    let parents = entry.parents.as_ref().unwrap();
    assert_eq!(parents.p1, hgid(1));
    assert!(parents.p2.is_null());
}

#[test]
fn trees_default_attributes_return_blob_and_parents() {
    let repo = repo_with(vec![(4, 1, 2, b"m".to_vec())], vec![]);
    let fetch = repo
        .trees("repo".to_string(), vec![key(b"dir", 4)], None)
        .unwrap();
    let entry = fetch.entries[0].as_ref().unwrap();
    assert!(entry.data.is_some());
    assert!(entry.parents.is_some());
}

#[test]
fn trees_child_metadata_rejects_whole_call() {
    let repo = repo_with(vec![(4, 0, 0, b"m".to_vec())], vec![]);
    let attrs = TreeAttributes { manifest_blob: true, parents: true, child_metadata: true };
    let err = repo
        .trees("repo".to_string(), vec![key(b"dir", 4)], Some(attrs))
        .unwrap_err();
    assert!(matches!(err, ApiError::InvalidRequest));
}

#[test]
fn commit_revlog_data_returns_raw_record() {
    let repo = repo_with(vec![(5, 1, 2, b"commit text".to_vec())], vec![]);
    let fetch = repo
        .commit_revlog_data("repo".to_string(), vec![hgid(5)])
        .unwrap();
    let entry = fetch.entries[0].as_ref().unwrap();
    assert_eq!(entry.hgid, hgid(5));
    let expected = encode_record(&hgid(1), &hgid(2), b"commit text");
    assert_eq!(entry.revlog_data, expected);
}

#[test]
fn bookmarks_present_and_absent() {
    let repo = repo_with(vec![], vec![("main", 7)]);
    let fetch = repo
        .bookmarks(
            "repo".to_string(),
            vec!["main".to_string(), "gone".to_string()],
        )
        .unwrap();
    assert_eq!(fetch.entries.len(), 2);
    let first = fetch.entries[0].as_ref().unwrap();
    assert_eq!(first.bookmark, "main");
    assert_eq!(first.hgid, Some(hgid(7)));
    let second = fetch.entries[1].as_ref().unwrap();
    assert_eq!(second.bookmark, "gone");
    assert!(second.hgid.is_none());
}

#[test]
fn history_diamond_visits_shared_ancestor_once() {
    // d has parents b and c; b and c both have parent a.
    let repo = repo_with(
        vec![
            (1, 0, 0, b"a".to_vec()),
            (2, 1, 0, b"b".to_vec()),
            (3, 1, 0, b"c".to_vec()),
            (4, 2, 3, b"d".to_vec()),
        ],
        vec![],
    );
    let fetch = repo
        .history("repo".to_string(), vec![key(b"f", 4)], None)
        .unwrap();
    let entries: Vec<_> = fetch
        .entries
        .iter()
        .map(|e| e.as_ref().unwrap())
        .collect();
    assert_eq!(entries.len(), 4);
    let visits_of_a = entries
        .iter()
        .filter(|e| e.key.hgid == hgid(1))
        .count();
    assert_eq!(visits_of_a, 1);
    for e in &entries {
        assert!(e.nodeinfo.linknode.is_null());
        assert_eq!(e.key.path, b"f".to_vec());
    }
}

#[test]
fn history_rename_substitutes_null_slot() {
    // Record 4 under path "new": p1 null, p2 = 2, rename header naming
    // ("old", id 3). The parent keys must be the rename source and the
    // same-path p2 key.
    let mut body = b"\x01\ncopy: old\ncopyrev: ".to_vec();
    body.extend_from_slice("03".repeat(20).as_bytes());
    body.extend_from_slice(b"\n\x01\ncontent");
    let repo = repo_with(
        vec![
            (2, 0, 0, b"p2 content".to_vec()),
            (3, 0, 0, b"old content".to_vec()),
            (4, 0, 2, body),
        ],
        vec![],
    );
    let fetch = repo
        .history("repo".to_string(), vec![key(b"new", 4)], None)
        .unwrap();
    let entry = fetch
        .entries
        .iter()
        .map(|e| e.as_ref().unwrap())
        .find(|e| e.key.hgid == hgid(4))
        .expect("entry for the renamed file");
    let (k1, k2) = (&entry.nodeinfo.parents.0, &entry.nodeinfo.parents.1);
    assert_eq!(k1.path, b"old".to_vec());
    assert_eq!(k1.hgid, hgid(3));
    assert_eq!(k2.path, b"new".to_vec());
    assert_eq!(k2.hgid, hgid(2));
    // Both the rename source and the p2 parent were walked.
    let keys: Vec<_> = fetch
        .entries
        .iter()
        .map(|e| {
            let e = e.as_ref().unwrap();
            (e.key.path.clone(), e.key.hgid.clone())
        })
        .collect();
    assert!(keys.contains(&(b"old".to_vec(), hgid(3))));
    assert!(keys.contains(&(b"new".to_vec(), hgid(2))));
}

#[test]
fn history_without_rename_keeps_same_path() {
    let repo = repo_with(
        vec![(1, 0, 0, b"root".to_vec()), (2, 1, 0, b"child".to_vec())],
        vec![],
    );
    let fetch = repo
        .history("repo".to_string(), vec![key(b"f", 2)], None)
        .unwrap();
    let entry = fetch
        .entries
        .iter()
        .map(|e| e.as_ref().unwrap())
        .find(|e| e.key.hgid == hgid(2))
        .unwrap();
    assert_eq!(entry.nodeinfo.parents.0.path, b"f".to_vec());
    assert_eq!(entry.nodeinfo.parents.0.hgid, hgid(1));
    assert!(entry.nodeinfo.parents.1.hgid.is_null());
}

#[test]
fn history_missing_record_aborts_walk() {
    let repo = repo_with(vec![(2, 1, 0, b"child of missing".to_vec())], vec![]);
    let err = repo
        .history("repo".to_string(), vec![key(b"f", 2)], None)
        .unwrap_err();
    assert!(matches!(err, ApiError::NotFound(_)));
}

#[test]
fn stubs_return_not_implemented() {
    let repo = repo_with(vec![(1, 0, 0, b"r".to_vec())], vec![]);
    let r = "repo".to_string();
    assert!(matches!(
        repo.complete_trees(r.clone(), b"".to_vec(), vec![], vec![], None),
        Err(ApiError::NotImplemented)
    ));
    assert!(matches!(
        repo.full_idmap_clone_data(r.clone()),
        Err(ApiError::NotImplemented)
    ));
    assert!(matches!(
        repo.lookup_batch(r.clone(), vec![hgid(1)]),
        Err(ApiError::NotImplemented)
    ));
    assert!(matches!(
        repo.process_files_upload(r.clone(), vec![(hgid(1), b"data".to_vec())]),
        Err(ApiError::NotImplemented)
    ));
    assert!(matches!(
        repo.upload_filenodes_batch(r.clone(), vec![]),
        Err(ApiError::NotImplemented)
    ));
    assert!(matches!(
        repo.upload_trees_batch(r.clone(), vec![]),
        Err(ApiError::NotImplemented)
    ));
    assert!(matches!(
        repo.upload_changesets(r.clone(), vec![], vec![]),
        Err(ApiError::NotImplemented)
    ));
}

#[test]
fn history_covers_every_input_key() {
    let repo = repo_with(
        vec![
            (1, 0, 0, b"a".to_vec()),
            (2, 1, 0, b"b".to_vec()),
            (3, 0, 0, b"c".to_vec()),
        ],
        vec![],
    );
    let fetch = repo
        .history(
            "repo".to_string(),
            vec![key(b"f", 2), key(b"g", 3)],
            Some(1),
        )
        .unwrap();
    let keys: Vec<_> = fetch
        .entries
        .iter()
        .map(|e| {
            let e = e.as_ref().unwrap();
            (e.key.path.clone(), e.key.hgid.clone())
        })
        .collect();
    assert!(keys.contains(&(b"f".to_vec(), hgid(2))));
    assert!(keys.contains(&(b"g".to_vec(), hgid(3))));
    // The depth hint is never enforced: the full ancestry is walked.
    assert!(keys.contains(&(b"f".to_vec(), hgid(1))));
}

#[test]
fn store_insert_overwrites_earlier_record() {
    let mut store = MemoryStore::new();
    store.insert(hgid(1), encode_record(&HgId::null(), &HgId::null(), b"first"));
    store.insert(hgid(1), encode_record(&HgId::null(), &HgId::null(), b"second"));
    let repo = EagerRepo::new(store, MemoryDag::new(), vec![]);
    let fetch = repo
        .commit_revlog_data("repo".to_string(), vec![hgid(1)])
        .unwrap();
    let entry = fetch.entries[0].as_ref().unwrap();
    let expected = encode_record(&HgId::null(), &HgId::null(), b"second");
    assert_eq!(entry.revlog_data, expected);
}

#[test]
fn bookmarks_first_entry_wins() {
    let repo = repo_with(vec![], vec![("main", 1), ("main", 2)]);
    let fetch = repo
        .bookmarks("repo".to_string(), vec!["main".to_string()])
        .unwrap();
    assert_eq!(fetch.entries[0].as_ref().unwrap().hgid, Some(hgid(1)));
}

#[test]
fn error_status_codes() {
    assert_eq!(ApiError::NotFound(hgid(1)).status(), 404);
    assert_eq!(ApiError::Internal.status(), 500);
    assert_eq!(ApiError::NotImplemented.status(), 501);
    assert_eq!(ApiError::InvalidRequest.status(), 400);
}

#[test]
fn stats_are_deferred_zeros() {
    let repo = repo_with(vec![], vec![]);
    let fetch = repo.commit_known("repo".to_string(), vec![]).unwrap();
    assert_eq!(fetch.stats.downloaded, 0);
    assert_eq!(fetch.stats.uploaded, 0);
    assert_eq!(fetch.stats.requests, 0);
}
