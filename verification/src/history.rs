//! History walker: ancestor traversal over records, reproducing legacy
//! per-file rename-aware parent resolution.
//!
//! The walk keeps a visited set and a work stack seeded with the inputs. A
//! popped key is skipped when already visited; otherwise its record is
//! decoded, its two candidate parent keys derived (same path as the child by
//! default, with one null slot redirected to the rename source when a rename
//! header is present and exactly one slot is null), the non-null resulting
//! parent keys pushed, and one entry emitted. The visited set strictly bounds
//! revisits, so the walk terminates.

use vstd::prelude::*;
use vstd::set_lib::lemma_set_empty_equivalency_len;

use crate::codec::{extract_body, extract_p1_p2, extract_rename, spec_body, spec_p1, spec_p2, spec_rename};
use crate::error::ApiError;
use crate::store::{store_contents_wf, Store};
use crate::types::{null_id_seq, HgId, HistoryEntry, Key, NodeInfo, ID_LEN};

verus! {

/// The two candidate parent keys of a record stored under key `kv`: same
/// path as the child by default; when a rename header is present and exactly
/// one parent slot is null, that null slot's key is redirected to the rename
/// source.
pub open spec fn spec_parent_keys(kv: (Seq<u8>, Seq<u8>), data: Seq<u8>) -> (
    (Seq<u8>, Seq<u8>),
    (Seq<u8>, Seq<u8>),
) {
    let p1 = spec_p1(data);
    let p2 = spec_p2(data);
    let k1 = (kv.0, p1);
    let k2 = (kv.0, p2);
    match spec_rename(spec_body(data)) {
        Some(pr) => if p1 == null_id_seq() && p2 != null_id_seq() {
            (pr, k2)
        } else if p1 != null_id_seq() && p2 == null_id_seq() {
            (k1, pr)
        } else {
            (k1, k2)
        },
        None => (k1, k2),
    }
}

/// Rename-aware parent substitution: for a record whose `p1` slot is null,
/// whose `p2` slot is not, and whose body carries a valid rename header
/// naming source `pr`, the derived parent keys are the rename source and the
/// same-path `p2` key — not the same-path null key.
pub proof fn lemma_rename_parent_substitution(kv: (Seq<u8>, Seq<u8>), data: Seq<u8>)
    requires
        spec_p1(data) == null_id_seq(),
        spec_p2(data) != null_id_seq(),
        spec_rename(spec_body(data)) is Some,
    ensures
        spec_parent_keys(kv, data) == (
            spec_rename(spec_body(data)).unwrap(),
            (kv.0, spec_p2(data)),
        ),
{
}

/// Whether one emitted entry is correct against the store: its record
/// exists, its parent keys are exactly the derived candidates, and its link
/// identifier is null (the local store tracks no linking-changeset concept).
pub open spec fn entry_matches(e: HistoryEntry, c: Map<Seq<u8>, Seq<u8>>) -> bool {
    &&& c.dom().contains(e.key.hgid@)
    &&& e.nodeinfo.parents.0@ == spec_parent_keys(e.key@, c[e.key.hgid@]).0
    &&& e.nodeinfo.parents.1@ == spec_parent_keys(e.key@, c[e.key.hgid@]).1
    &&& e.nodeinfo.linknode@ == null_id_seq()
}

/// The set of keys already answered by a list of entries.
pub open spec fn entry_key_set(es: Seq<HistoryEntry>) -> Set<(Seq<u8>, Seq<u8>)> {
    Set::new(|kv: (Seq<u8>, Seq<u8>)| exists|i: int| 0 <= i < es.len() && es[i].key@ == kv)
}

/// Whether `kv` is a non-null derived parent key of `pv`, whose record
/// exists in the store.
pub open spec fn parent_step(
    c: Map<Seq<u8>, Seq<u8>>,
    pv: (Seq<u8>, Seq<u8>),
    kv: (Seq<u8>, Seq<u8>),
) -> bool {
    c.dom().contains(pv.1) && {
        let ppk = spec_parent_keys(pv, c[pv.1]);
        (kv == ppk.0 && ppk.0.1 != null_id_seq()) || (kv == ppk.1 && ppk.1.1 != null_id_seq())
    }
}

/// Whether `chain` derives its last key from the inputs: it starts at an
/// input key and each link is a derived-parent step.
pub open spec fn is_derivation(
    c: Map<Seq<u8>, Seq<u8>>,
    inputs: Seq<Key>,
    chain: Seq<(Seq<u8>, Seq<u8>)>,
) -> bool {
    &&& chain.len() > 0
    &&& in_keys(inputs, chain[0])
    &&& forall|i: int| 0 < i < chain.len() ==> parent_step(c, chain[i - 1], #[trigger] chain[i])
}

/// Whether `kv` is an input key or an ancestor key derived from one.
/// Opaque: the walk reasons about it only through the two lemmas below.
#[verifier::opaque]
pub open spec fn reachable(c: Map<Seq<u8>, Seq<u8>>, inputs: Seq<Key>, kv: (Seq<u8>, Seq<u8>)) -> bool {
    exists|chain: Seq<(Seq<u8>, Seq<u8>)>|
        #[trigger] is_derivation(c, inputs, chain) && chain.last() == kv
}

/// Every input key is reachable.
pub proof fn lemma_reachable_input(
    c: Map<Seq<u8>, Seq<u8>>,
    inputs: Seq<Key>,
    kv: (Seq<u8>, Seq<u8>),
)
    requires
        in_keys(inputs, kv),
    ensures
        reachable(c, inputs, kv),
{
    reveal(reachable);
    let chain = seq![kv];
    assert(chain[0] == kv);
    assert(is_derivation(c, inputs, chain) && chain.last() == kv);
}

/// Reachability is closed under one derived-parent step.
pub proof fn lemma_reachable_step(
    c: Map<Seq<u8>, Seq<u8>>,
    inputs: Seq<Key>,
    pv: (Seq<u8>, Seq<u8>),
    kv: (Seq<u8>, Seq<u8>),
)
    requires
        reachable(c, inputs, pv),
        parent_step(c, pv, kv),
    ensures
        reachable(c, inputs, kv),
{
    reveal(reachable);
    let chain = choose|chain: Seq<(Seq<u8>, Seq<u8>)>|
        #[trigger] is_derivation(c, inputs, chain) && chain.last() == pv;
    let longer = chain.push(kv);
    assert(longer[0] == chain[0]);
    assert forall|i: int| 0 < i < longer.len() implies parent_step(
        c,
        longer[i - 1],
        #[trigger] longer[i],
    ) by {
        if i < chain.len() {
            assert(longer[i] == chain[i]);
            assert(longer[i - 1] == chain[i - 1]);
        } else {
            assert(longer[i - 1] == chain.last());
            assert(longer[i] == kv);
        }
    }
    assert(is_derivation(c, inputs, longer) && longer.last() == kv);
}

/// Whether some ancestor key derivable from the inputs has identifier `id`
/// while the store holds no record for it: what a not-found abort of the
/// walk means.
pub open spec fn missing_ancestor(
    c: Map<Seq<u8>, Seq<u8>>,
    inputs: Seq<Key>,
    id: Seq<u8>,
) -> bool {
    exists|kv: (Seq<u8>, Seq<u8>)|
        reachable(c, inputs, kv) && kv.1 == id && !c.dom().contains(id)
}

/// Whether the store holds a record for every key derivable from the
/// inputs: the condition under which a walk over an infallible store is
/// owed success.
pub open spec fn ancestry_complete(c: Map<Seq<u8>, Seq<u8>>, inputs: Seq<Key>) -> bool {
    forall|kv: (Seq<u8>, Seq<u8>)| reachable(c, inputs, kv) ==> c.dom().contains(kv.1)
}

/// Everything a successful walk guarantees of its entries, against the
/// inputs `keys` and the store contents `c`: each key answered at most
/// once, each entry decoded exactly from its record, every input key
/// answered, only input keys and their derived ancestors answered, and the
/// answered set closed under non-null derived parents.
pub open spec fn walk_ok(es: Seq<HistoryEntry>, keys: Seq<Key>, c: Map<Seq<u8>, Seq<u8>>) -> bool {
    &&& forall|i: int, j: int| 0 <= i < j < es.len() ==> (#[trigger] es[i].key@) != (
    #[trigger] es[j].key@)
    &&& forall|i: int| 0 <= i < es.len() ==> entry_matches(#[trigger] es[i], c)
    &&& forall|i: int| 0 <= i < keys.len() ==> entry_key_set(es).contains(#[trigger] keys[i]@)
    &&& forall|i: int| 0 <= i < es.len() ==> reachable(c, keys, (#[trigger] es[i]).key@)
    &&& forall|i: int| 0 <= i < es.len() ==> {
        let pk = spec_parent_keys((#[trigger] es[i]).key@, c[es[i].key.hgid@]);
        &&& (pk.0.1 != null_id_seq() ==> entry_key_set(es).contains(pk.0))
        &&& (pk.1.1 != null_id_seq() ==> entry_key_set(es).contains(pk.1))
    }
}

/// Whether some key in `s` has view `kv`.
pub open spec fn in_keys(s: Seq<Key>, kv: (Seq<u8>, Seq<u8>)) -> bool {
    exists|j: int| 0 <= j < s.len() && s[j]@ == kv
}

/// All pairs of a path from `ps` and an identifier from `ids`.
pub open spec fn pair_product(ps: Set<Seq<u8>>, ids: Set<Seq<u8>>) -> Set<(Seq<u8>, Seq<u8>)> {
    Set::new(|kv: (Seq<u8>, Seq<u8>)| ps.contains(kv.0) && ids.contains(kv.1))
}

proof fn lemma_pair_product_finite(ps: Set<Seq<u8>>, ids: Set<Seq<u8>>)
    requires
        ps.finite(),
        ids.finite(),
    ensures
        pair_product(ps, ids).finite(),
    decreases ps.len(),
{
    broadcast use vstd::set::group_set_axioms;
    broadcast use lemma_set_empty_equivalency_len;
    broadcast use vstd::set_lib::lemma_set_union_finite_iff;

    if ps.len() == 0 {
        assert(pair_product(ps, ids) =~= Set::empty());
    } else {
        let p = choose|p: Seq<u8>| ps.contains(p);
        lemma_pair_product_finite(ps.remove(p), ids);
        ids.lemma_map_finite(|i: Seq<u8>| (p, i));
        assert forall|kv: (Seq<u8>, Seq<u8>)| pair_product(ps, ids).contains(kv) implies pair_product(
            ps.remove(p),
            ids,
        ).union(ids.map(|i: Seq<u8>| (p, i))).contains(kv) by {
            if kv.0 == p {
                assert(ids.contains(kv.1) && (|i: Seq<u8>| (p, i))(kv.1) == kv);
                assert(ids.map(|i: Seq<u8>| (p, i)).contains(kv));
            }
        }
        assert(pair_product(ps, ids) =~= pair_product(ps.remove(p), ids).union(
            ids.map(|i: Seq<u8>| (p, i)),
        ));
    }
}

/// Rename source path recorded in a record's body, if any.
pub open spec fn record_rename_path(data: Seq<u8>) -> Seq<u8> {
    match spec_rename(spec_body(data)) {
        Some(pr) => pr.0,
        None => Seq::empty(),
    }
}

/// Rename source identifier recorded in a record's body, if any.
pub open spec fn record_rename_id(data: Seq<u8>) -> Seq<u8> {
    match spec_rename(spec_body(data)) {
        Some(pr) => pr.1,
        None => Seq::empty(),
    }
}

/// Every path a walk seeded with `keys` can ever mention: the input paths
/// and the rename source paths of stored records.
pub open spec fn walk_paths(keys: Seq<Key>, c: Map<Seq<u8>, Seq<u8>>) -> Set<Seq<u8>> {
    keys.map(|i: int, k: Key| k.path@).to_set().union(
        c.dom().map(|k: Seq<u8>| record_rename_path(c[k])),
    )
}

/// Every identifier a walk seeded with `keys` can ever mention: the input
/// identifiers and the parent and rename identifiers of stored records.
pub open spec fn walk_ids(keys: Seq<Key>, c: Map<Seq<u8>, Seq<u8>>) -> Set<Seq<u8>> {
    keys.map(|i: int, k: Key| k.hgid@).to_set().union(
        c.dom().map(|k: Seq<u8>| spec_p1(c[k])),
    ).union(c.dom().map(|k: Seq<u8>| spec_p2(c[k]))).union(
        c.dom().map(|k: Seq<u8>| record_rename_id(c[k])),
    )
}

/// A finite universe containing every key the walk can visit or push.
pub open spec fn walk_universe(keys: Seq<Key>, c: Map<Seq<u8>, Seq<u8>>) -> Set<(Seq<u8>, Seq<u8>)> {
    pair_product(walk_paths(keys, c), walk_ids(keys, c))
}

proof fn lemma_walk_universe_finite(keys: Seq<Key>, c: Map<Seq<u8>, Seq<u8>>)
    requires
        c.dom().finite(),
    ensures
        walk_universe(keys, c).finite(),
{
    broadcast use vstd::seq_lib::seq_to_set_is_finite;
    broadcast use vstd::set_lib::lemma_set_union_finite_iff;

    c.dom().lemma_map_finite(|k: Seq<u8>| record_rename_path(c[k]));
    c.dom().lemma_map_finite(|k: Seq<u8>| spec_p1(c[k]));
    c.dom().lemma_map_finite(|k: Seq<u8>| spec_p2(c[k]));
    c.dom().lemma_map_finite(|k: Seq<u8>| record_rename_id(c[k]));
    lemma_pair_product_finite(walk_paths(keys, c), walk_ids(keys, c));
}

proof fn lemma_inputs_in_universe(keys: Seq<Key>, c: Map<Seq<u8>, Seq<u8>>)
    ensures
        forall|i: int| 0 <= i < keys.len() ==> walk_universe(keys, c).contains(
            #[trigger] keys[i]@,
        ),
{
    assert forall|i: int| 0 <= i < keys.len() implies walk_universe(keys, c).contains(
        keys[i]@,
    ) by {
        assert(keys.map(|j: int, k: Key| k.path@)[i] == keys[i].path@);
        assert(keys.map(|j: int, k: Key| k.path@).contains(keys[i].path@));
        assert(keys.map(|j: int, k: Key| k.hgid@)[i] == keys[i].hgid@);
        assert(keys.map(|j: int, k: Key| k.hgid@).contains(keys[i].hgid@));
    }
}

proof fn lemma_parents_in_universe(keys: Seq<Key>, c: Map<Seq<u8>, Seq<u8>>, kv: (Seq<u8>, Seq<u8>))
    requires
        walk_universe(keys, c).contains(kv),
        c.dom().contains(kv.1),
    ensures
        walk_universe(keys, c).contains(spec_parent_keys(kv, c[kv.1]).0),
        walk_universe(keys, c).contains(spec_parent_keys(kv, c[kv.1]).1),
{
    let data = c[kv.1];
    assert((|k: Seq<u8>| record_rename_path(c[k]))(kv.1) == record_rename_path(data));
    assert(c.dom().map(|k: Seq<u8>| record_rename_path(c[k])).contains(record_rename_path(data)));
    assert((|k: Seq<u8>| record_rename_id(c[k]))(kv.1) == record_rename_id(data));
    assert(c.dom().map(|k: Seq<u8>| record_rename_id(c[k])).contains(record_rename_id(data)));
    assert((|k: Seq<u8>| spec_p1(c[k]))(kv.1) == spec_p1(data));
    assert(c.dom().map(|k: Seq<u8>| spec_p1(c[k])).contains(spec_p1(data)));
    assert((|k: Seq<u8>| spec_p2(c[k]))(kv.1) == spec_p2(data));
    assert(c.dom().map(|k: Seq<u8>| spec_p2(c[k])).contains(spec_p2(data)));
}

proof fn lemma_entry_key_set_push(es: Seq<HistoryEntry>, e: HistoryEntry)
    ensures
        entry_key_set(es.push(e)) =~= entry_key_set(es).insert(e.key@),
{
    assert forall|kv: (Seq<u8>, Seq<u8>)| entry_key_set(es.push(e)).contains(kv) implies entry_key_set(
        es,
    ).insert(e.key@).contains(kv) by {
        let i = choose|i: int| 0 <= i < es.push(e).len() && es.push(e)[i].key@ == kv;
        if i < es.len() {
            assert(es[i].key@ == kv);
        }
    }
    assert forall|kv: (Seq<u8>, Seq<u8>)| entry_key_set(es).insert(e.key@).contains(kv) implies entry_key_set(
        es.push(e),
    ).contains(kv) by {
        if entry_key_set(es).contains(kv) {
            let i = choose|i: int| 0 <= i < es.len() && es[i].key@ == kv;
            assert(es.push(e)[i].key@ == kv);
        } else {
            assert(es.push(e)[es.len() as int].key@ == kv);
        }
    }
}

proof fn lemma_in_keys_push(s: Seq<Key>, k: Key, kv: (Seq<u8>, Seq<u8>))
    requires
        in_keys(s, kv),
    ensures
        in_keys(s.push(k), kv),
{
    let j = choose|j: int| 0 <= j < s.len() && s[j]@ == kv;
    assert(s.push(k)[j]@ == kv);
}

/// Whether some already-emitted entry answers key `k`.
fn entries_contain(entries: &Vec<HistoryEntry>, k: &Key) -> (r: bool)
    ensures
        r == entry_key_set(entries@).contains(k@),
{
    let mut j: usize = 0;
    while j < entries.len()
        invariant
            j <= entries@.len(),
            forall|i: int| 0 <= i < j ==> (#[trigger] entries@[i].key@) != k@,
        decreases entries@.len() - j,
    {
        let same_path = entries[j].key.path == k.path;
        let same_id = entries[j].key.hgid == k.hgid;
        if same_path && same_id {
            assert(entries@[j as int].key@ == k@);
            return true;
        }
        assert(entries@[j as int].key@ != k@);
        j = j + 1;
    }
    assert(!entry_key_set(entries@).contains(k@));
    false
}

fn key_with(path: &Vec<u8>, id: HgId) -> (r: Key)
    ensures
        r.path@ == path@,
        r.hgid@ == id@,
{
    let p = path.clone();
    assert(p@ =~= path@);
    Key { path: p, hgid: id }
}

/// Walks the full ancestry of the input keys, one entry per ancestor of
/// every input key, in work-stack order. The depth hint of the protocol is
/// never enforced: the full ancestry is always walked.
///
/// On success the emitted entries answer each key at most once (the shared
/// ancestor of converging paths is visited exactly once), every entry is
/// decoded from the store exactly as [`entry_matches`] states, every input
/// key is answered, and the answered set is closed under non-null derived
/// parents. A missing record aborts the whole walk with the not-found
/// condition, which always names a derivable ancestor key whose record is
/// absent; a store failure aborts it with the internal condition. Over an
/// infallible store with a complete ancestry, success is owed.
#[verifier::rlimit(60)]
pub fn walk_history<S: Store>(store: &S, keys: Vec<Key>) -> (r: Result<Vec<HistoryEntry>, ApiError>)
    requires
        store_contents_wf(store.contents()),
    ensures
        (r matches Ok(entries) ==> walk_ok(entries@, keys@, store.contents())),
        (r matches Err(e) ==> (e is NotFound || e is Internal)),
        store.infallible() ==> !(r matches Err(e) && e is Internal),
        (r matches Err(ApiError::NotFound(id)) ==> missing_ancestor(
            store.contents(),
            keys@,
            id@,
        )),
        (store.infallible() && ancestry_complete(store.contents(), keys@) ==> r is Ok),
{
    broadcast use vstd::set_lib::lemma_set_subset_finite;

    let ghost c = store.contents();
    let ghost inputs = keys@;
    let ghost universe = walk_universe(inputs, c);
    proof {
        lemma_walk_universe_finite(inputs, c);
        lemma_inputs_in_universe(inputs, c);
    }

    let mut values: Vec<HistoryEntry> = Vec::new();
    let mut to_visit: Vec<Key> = keys;
    proof {
        assert forall|i: int| 0 <= i < to_visit@.len() implies reachable(
            c,
            inputs,
            #[trigger] to_visit@[i]@,
        ) by {
            assert(inputs[i]@ == to_visit@[i]@);
            assert(in_keys(inputs, to_visit@[i]@));
            lemma_reachable_input(c, inputs, to_visit@[i]@);
        }
    }

    while to_visit.len() > 0
        invariant
            store.contents() == c,
            inputs == keys@,
            store_contents_wf(c),
            universe == walk_universe(inputs, c),
            universe.finite(),
            forall|i: int| 0 <= i < to_visit@.len() ==> universe.contains(
                #[trigger] to_visit@[i]@,
            ),
            forall|i: int| 0 <= i < to_visit@.len() ==> reachable(c, inputs, #[trigger] to_visit@[i]@),
            forall|i: int| 0 <= i < values@.len() ==> reachable(
                c,
                inputs,
                (#[trigger] values@[i]).key@,
            ),
            forall|i: int| 0 <= i < values@.len() ==> universe.contains(
                #[trigger] values@[i].key@,
            ),
            forall|i: int, j: int| 0 <= i < j < values@.len() ==> (#[trigger] values@[i].key@) != (
            #[trigger] values@[j].key@),
            forall|i: int| 0 <= i < values@.len() ==> entry_matches(#[trigger] values@[i], c),
            forall|i: int| 0 <= i < inputs.len() ==> entry_key_set(values@).contains(
                #[trigger] inputs[i]@,
            ) || in_keys(to_visit@, inputs[i]@),
            forall|i: int| 0 <= i < values@.len() ==> {
                let pk = spec_parent_keys((#[trigger] values@[i]).key@, c[values@[i].key.hgid@]);
                &&& (pk.0.1 != null_id_seq() ==> entry_key_set(values@).contains(pk.0) || in_keys(
                    to_visit@,
                    pk.0,
                ))
                &&& (pk.1.1 != null_id_seq() ==> entry_key_set(values@).contains(pk.1) || in_keys(
                    to_visit@,
                    pk.1,
                ))
            },
        decreases 3 * universe.difference(entry_key_set(values@)).len() + to_visit@.len(),
    {
        let ghost old_to_visit = to_visit@;
        let ghost old_values = values@;
        let key = match to_visit.pop() {
            Some(k) => k,
            None => {
                assert(false);
                Key { path: Vec::new(), hgid: HgId::null() }
            },
        };
        assert(key@ == old_to_visit.last()@);
        if entries_contain(&values, &key) {
            // Already visited: skip. Anything the popped key covered is
            // covered by the emitted entries already.
            proof {
                assert forall|kv: (Seq<u8>, Seq<u8>)| in_keys(old_to_visit, kv) implies (in_keys(
                    to_visit@,
                    kv,
                ) || entry_key_set(values@).contains(kv)) by {
                    let j = choose|j: int| 0 <= j < old_to_visit.len() && old_to_visit[j]@ == kv;
                    if j < old_to_visit.len() - 1 {
                        assert(to_visit@[j]@ == kv);
                    } else {
                        assert(kv == key@);
                    }
                }
            }
            continue;
        }
        let data = match store.get(&key.hgid) {
            Ok(Some(d)) => d,
            Ok(None) => {
                // A not-found abort names a reachable ancestor key whose
                // record is absent: the popped key itself.
                proof {
                    assert(missing_ancestor(c, inputs, key.hgid@)) by {
                        assert(reachable(c, inputs, key@) && key@.1 == key.hgid@
                            && !c.dom().contains(key.hgid@));
                    }
                    assert(!ancestry_complete(c, inputs)) by {
                        if ancestry_complete(c, inputs) {
                            assert(reachable(c, inputs, key@));
                            assert(c.dom().contains(key@.1));
                        }
                    }
                }
                return Err(ApiError::NotFound(key.hgid));
            },
            Err(e) => {
                return Err(crate::error::map_store_err(e));
            },
        };
        assert(c.dom().contains(key.hgid@) && data@ == c[key.hgid@]);
        assert(data@.len() >= 2 * ID_LEN);
        let (p1, p2) = extract_p1_p2(data.as_slice());
        let body = extract_body(data.as_slice());
        let ren = extract_rename(body.as_slice());
        let p1_null = p1.is_null();
        let p2_null = p2.is_null();
        let key1: Key;
        let key2: Key;
        match ren {
            Some(rk) => {
                if p1_null && !p2_null {
                    key1 = rk;
                    key2 = key_with(&key.path, p2);
                } else if !p1_null && p2_null {
                    key1 = key_with(&key.path, p1);
                    key2 = rk;
                } else {
                    key1 = key_with(&key.path, p1);
                    key2 = key_with(&key.path, p2);
                }
            },
            None => {
                key1 = key_with(&key.path, p1);
                key2 = key_with(&key.path, p2);
            },
        }
        let ghost pk = spec_parent_keys(key@, c[key.hgid@]);
        assert(key1@ == pk.0);
        assert(key2@ == pk.1);
        proof {
            lemma_parents_in_universe(inputs, c, key@);
            assert(reachable(c, inputs, key@));
            assert(c.dom().contains(key@.1));
            assert(spec_parent_keys(key@, c[key@.1]) == pk);
            if pk.0.1 != null_id_seq() {
                assert(parent_step(c, key@, pk.0));
                lemma_reachable_step(c, inputs, key@, pk.0);
            }
            if pk.1.1 != null_id_seq() {
                assert(parent_step(c, key@, pk.1));
                lemma_reachable_step(c, inputs, key@, pk.1);
            }
        }
        let ghost base = to_visit@;
        if !key1.hgid.is_null() {
            to_visit.push(key1.clone());
            assert(to_visit@[to_visit@.len() - 1]@ == pk.0);
            assert(in_keys(to_visit@, pk.0));
        }
        let ghost mid = to_visit@;
        if !key2.hgid.is_null() {
            to_visit.push(key2.clone());
            assert(to_visit@[to_visit@.len() - 1]@ == pk.1);
            assert(in_keys(to_visit@, pk.1));
        }
        proof {
            if pk.0.1 != null_id_seq() && to_visit@ != mid {
                lemma_in_keys_push(mid, to_visit@.last(), pk.0);
            }
        }
        let entry = HistoryEntry {
            key,
            nodeinfo: NodeInfo { parents: (key1, key2), linknode: HgId::null() },
        };
        proof {
            lemma_entry_key_set_push(old_values, entry);
            vstd::set_lib::lemma_len_subset(
                universe.difference(entry_key_set(values@.push(entry))),
                universe,
            );
            universe.lemma_set_insert_diff_decreases(entry_key_set(old_values), entry.key@);
            assert forall|kv: (Seq<u8>, Seq<u8>)| in_keys(old_to_visit, kv) implies (in_keys(
                to_visit@,
                kv,
            ) || entry_key_set(old_values.push(entry)).contains(kv)) by {
                let j = choose|j: int| 0 <= j < old_to_visit.len() && old_to_visit[j]@ == kv;
                if j < old_to_visit.len() - 1 {
                    assert(base[j]@ == kv);
                    assert(to_visit@[j]@ == kv);
                } else {
                    assert(kv == key@);
                    assert(entry_key_set(old_values.push(entry)).contains(key@));
                }
            }
        }
        values.push(entry);
    }
    Ok(values)
}

} // verus!
