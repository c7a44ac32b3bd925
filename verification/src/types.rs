//! Core data model: fixed-width content identifiers and the request/response
//! value types of the protocol surface.

use vstd::prelude::*;

verus! {

/// Width in bytes of a content identifier.
pub const ID_LEN: usize = 20;

/// The identifier consisting of `ID_LEN` zero bytes, reserved to mean
/// "no parent" in a record's parent slots.
pub open spec fn null_id_seq() -> Seq<u8> {
    Seq::new(ID_LEN as nat, |i: int| 0u8)
}

/// A fixed-width (20-byte) content/commit hash: the universal key into the
/// store and the commit graph. Corrupt (wrong-width) byte strings never become
/// an `HgId`; every externally observed identifier passes the width check.
#[derive(Debug)]
pub struct HgId {
    bytes: Vec<u8>,
}

impl View for HgId {
    type V = Seq<u8>;

    closed spec fn view(&self) -> Seq<u8> {
        self.bytes@
    }
}

impl HgId {
    /// Every `HgId` holds exactly `ID_LEN` bytes.
    #[verifier::type_invariant]
    pub closed spec fn inv(self) -> bool {
        self.bytes@.len() == ID_LEN
    }

    /// The width invariant, in terms of the view: usable by callers through
    /// `use_type_invariant`.
    pub proof fn lemma_wf(&self)
        requires
            self.inv(),
        ensures
            self@.len() == ID_LEN,
    {
    }

    /// The reserved all-zero identifier.
    pub fn null() -> (r: HgId)
        ensures
            r@ == null_id_seq(),
    {
        let bytes: Vec<u8> = vec![0u8; ID_LEN];
        assert(bytes@ =~= null_id_seq());
        HgId { bytes }
    }

    /// Accepts exactly `ID_LEN` bytes; any other width is rejected.
    pub fn from_slice(s: &[u8]) -> (r: Option<HgId>)
        ensures
            s@.len() == ID_LEN ==> (r matches Some(id) && id@ == s@),
            s@.len() != ID_LEN ==> r is None,
    {
        if s.len() == ID_LEN {
            let mut bytes: Vec<u8> = Vec::new();
            let mut i: usize = 0;
            while i < s.len()
                invariant
                    i <= s@.len(),
                    bytes@ == s@.take(i as int),
                decreases s@.len() - i,
            {
                bytes.push(s[i]);
                i = i + 1;
                assert(bytes@ =~= s@.take(i as int));
            }
            assert(bytes@ =~= s@);
            Some(HgId { bytes })
        } else {
            None
        }
    }

    /// The identifier's bytes.
    pub fn as_bytes(&self) -> (r: &[u8])
        ensures
            r@ == self@,
    {
        self.bytes.as_slice()
    }

    /// Whether this is the reserved all-zero identifier.
    pub fn is_null(&self) -> (r: bool)
        ensures
            r == (self@ == null_id_seq()),
    {
        proof {
            use_type_invariant(self);
        }
        let mut i: usize = 0;
        while i < self.bytes.len()
            invariant
                self@.len() == ID_LEN,
                i <= ID_LEN,
                forall|j: int| 0 <= j < i ==> self@[j] == 0u8,
            decreases ID_LEN - i,
        {
            if self.bytes[i] != 0u8 {
                assert(self@[i as int] != null_id_seq()[i as int]);
                return false;
            }
            i = i + 1;
        }
        assert(self@ =~= null_id_seq());
        true
    }
}

/// Value of one ASCII hex digit, accepting both cases; `None` for any other
/// byte.
pub open spec fn hex_digit_val(c: u8) -> Option<u8> {
    if 48 <= c <= 57 {
        Some((c - 48) as u8)
    } else if 97 <= c <= 102 {
        Some((c - 87) as u8)
    } else if 65 <= c <= 70 {
        Some((c - 55) as u8)
    } else {
        None
    }
}

/// Whether `s` is a well-formed hex spelling of an identifier: exactly
/// `2 * ID_LEN` ASCII hex digits.
pub open spec fn hex_id_valid(s: Seq<u8>) -> bool {
    s.len() == 2 * ID_LEN && forall|i: int| 0 <= i < s.len() ==> #[trigger] hex_digit_val(s[i]) is Some
}

/// The identifier bytes spelled by a well-formed hex string.
pub open spec fn hex_id_decoded(s: Seq<u8>) -> Seq<u8> {
    Seq::new(
        ID_LEN as nat,
        |i: int| (hex_digit_val(s[2 * i]).unwrap() * 16 + hex_digit_val(s[2 * i + 1]).unwrap()) as u8,
    )
}

/// The lowercase hex character for a nibble value below 16.
pub open spec fn hex_char_of(n: u8) -> char {
    if n == 0 { '0' } else if n == 1 { '1' } else if n == 2 { '2' } else if n == 3 { '3' }
    else if n == 4 { '4' } else if n == 5 { '5' } else if n == 6 { '6' } else if n == 7 { '7' }
    else if n == 8 { '8' } else if n == 9 { '9' } else if n == 10 { 'a' } else if n == 11 { 'b' }
    else if n == 12 { 'c' } else if n == 13 { 'd' } else if n == 14 { 'e' } else { 'f' }
}

/// The lowercase hex spelling of a byte string, two characters per byte.
pub open spec fn hex_encoded(b: Seq<u8>) -> Seq<char> {
    Seq::new(2 * b.len(), |i: int| hex_char_of(if i % 2 == 0 { b[i / 2] / 16 } else { (b[i / 2] % 16) as u8 }))
}

fn hex_val(c: u8) -> (r: Option<u8>)
    ensures
        r == hex_digit_val(c),
        r matches Some(v) ==> v < 16,
{
    if 48 <= c && c <= 57 {
        Some(c - 48)
    } else if 97 <= c && c <= 102 {
        Some(c - 87)
    } else if 65 <= c && c <= 70 {
        Some(c - 55)
    } else {
        None
    }
}

fn nibble_str(n: u8) -> (s: &'static str)
    requires
        n < 16,
    ensures
        s@ == seq![hex_char_of(n)],
{
    proof {
        reveal_strlit("0");
        reveal_strlit("1");
        reveal_strlit("2");
        reveal_strlit("3");
        reveal_strlit("4");
        reveal_strlit("5");
        reveal_strlit("6");
        reveal_strlit("7");
        reveal_strlit("8");
        reveal_strlit("9");
        reveal_strlit("a");
        reveal_strlit("b");
        reveal_strlit("c");
        reveal_strlit("d");
        reveal_strlit("e");
        reveal_strlit("f");
    }
    let s: &'static str = match n {
        0 => "0",
        1 => "1",
        2 => "2",
        3 => "3",
        4 => "4",
        5 => "5",
        6 => "6",
        7 => "7",
        8 => "8",
        9 => "9",
        10 => "a",
        11 => "b",
        12 => "c",
        13 => "d",
        14 => "e",
        _ => "f",
    };
    assert(s@ =~= seq![hex_char_of(n)]);
    s
}

impl HgId {
    /// Parses a hex spelling: exactly `2 * ID_LEN` hex digits (either case),
    /// anything else is rejected.
    pub fn from_hex(s: &[u8]) -> (r: Option<HgId>)
        ensures
            hex_id_valid(s@) ==> (r matches Some(id) && id@ == hex_id_decoded(s@)),
            !hex_id_valid(s@) ==> r is None,
    {
        if s.len() != 2 * ID_LEN {
            return None;
        }
        let mut bytes: Vec<u8> = Vec::new();
        let mut i: usize = 0;
        while i < ID_LEN
            invariant
                s@.len() == 2 * ID_LEN,
                i <= ID_LEN,
                bytes@.len() == i,
                forall|j: int| 0 <= j < 2 * i ==> #[trigger] hex_digit_val(s@[j]) is Some,
                forall|j: int| 0 <= j < i ==> bytes@[j] == (hex_digit_val(s@[2 * j]).unwrap() * 16
                    + hex_digit_val(s@[2 * j + 1]).unwrap()) as u8,
            decreases ID_LEN - i,
        {
            let hi = match hex_val(s[2 * i]) {
                Some(v) => v,
                None => {
                    return None;
                },
            };
            let lo = match hex_val(s[2 * i + 1]) {
                Some(v) => v,
                None => {
                    return None;
                },
            };
            bytes.push(hi * 16 + lo);
            i = i + 1;
        }
        assert(bytes@ =~= hex_id_decoded(s@));
        Some(HgId { bytes })
    }

    /// The lowercase hex spelling of this identifier.
    pub fn to_hex(&self) -> (r: String)
        ensures
            r@ == hex_encoded(self@),
    {
        proof {
            use_type_invariant(self);
        }
        let mut r = String::new();
        let mut i: usize = 0;
        while i < self.bytes.len()
            invariant
                self@.len() == ID_LEN,
                i <= ID_LEN,
                r@ == hex_encoded(self@).take(2 * i as int),
            decreases ID_LEN - i,
        {
            let b = self.bytes[i];
            r.append(nibble_str(b / 16));
            r.append(nibble_str(b % 16));
            i = i + 1;
            assert(r@ =~= hex_encoded(self@).take(2 * i as int));
        }
        assert(r@ =~= hex_encoded(self@));
        r
    }
}

/// A (repository-relative path, identifier) pair naming one revision of a
/// file or tree. Two keys with the same identifier but different paths are
/// distinct.
#[derive(Debug)]
pub struct Key {
    /// Repository-relative path, as raw bytes.
    pub path: Vec<u8>,
    /// Content identifier of this revision.
    pub hgid: HgId,
}

impl View for Key {
    type V = (Seq<u8>, Seq<u8>);

    open spec fn view(&self) -> (Seq<u8>, Seq<u8>) {
        (self.path@, self.hgid@)
    }
}

impl Clone for Key {
    fn clone(&self) -> (r: Self)
        ensures
            r@ == self@,
    {
        let path = self.path.clone();
        assert(path@ =~= self.path@);
        Key { path, hgid: self.hgid.clone() }
    }
}

/// The two parent identifiers read from a record's fixed-width prefix.
#[derive(Debug)]
pub struct Parents {
    /// First parent; the null identifier when absent.
    pub p1: HgId,
    /// Second parent; the null identifier when absent.
    pub p2: HgId,
}

impl Clone for Parents {
    fn clone(&self) -> (r: Self)
        ensures
            r.p1@ == self.p1@,
            r.p2@ == self.p2@,
    {
        Parents { p1: self.p1.clone(), p2: self.p2.clone() }
    }
}

impl Clone for HgId {
    fn clone(&self) -> (r: Self)
        ensures
            r@ == self@,
    {
        proof {
            use_type_invariant(self);
        }
        let bytes = self.bytes.clone();
        assert(bytes@ =~= self.bytes@);
        HgId { bytes }
    }
}

impl PartialEq for HgId {
    fn eq(&self, other: &HgId) -> (r: bool) {
        let r = self.bytes == other.bytes;
        proof {
            if self.bytes@ =~= other.bytes@ {
            }
        }
        r
    }
}

impl Eq for HgId {}

impl vstd::std_specs::cmp::PartialEqSpecImpl for HgId {
    open spec fn obeys_eq_spec() -> bool {
        true
    }

    open spec fn eq_spec(&self, other: &HgId) -> bool {
        self@ == other@
    }
}

/// One file revision returned by the `files` operation.
#[derive(Debug)]
pub struct FileEntry {
    /// The key this entry answers.
    pub key: Key,
    /// Parents read from the record prefix.
    pub parents: Parents,
    /// The record body (parent prefix stripped, rename header kept).
    pub data: Vec<u8>,
}

/// Parent keys and link identifier of one history entry. The local store
/// tracks no separate linking-changeset concept, so the link identifier is
/// always the null identifier.
#[derive(Debug)]
pub struct NodeInfo {
    /// Parent keys, in slot order (`p1` slot first). Slot order is not a
    /// canonical parent order; no parent-order metadata is retained.
    pub parents: (Key, Key),
    /// Always the null identifier here.
    pub linknode: HgId,
}

/// One ancestor visited by the `history` operation.
#[derive(Debug)]
pub struct HistoryEntry {
    /// The visited (path, identifier) key.
    pub key: Key,
    /// Its parent keys and (null) link identifier.
    pub nodeinfo: NodeInfo,
}

/// Which parts of a tree revision the `trees` operation should return.
#[derive(Debug)]
pub struct TreeAttributes {
    /// Return the record body.
    pub manifest_blob: bool,
    /// Return the parent identifiers.
    pub parents: bool,
    /// Per-child metadata: this store cannot compute it; requesting it
    /// rejects the whole call.
    pub child_metadata: bool,
}

impl Default for TreeAttributes {
    /// Body and parents, no child metadata.
    fn default() -> (r: TreeAttributes)
        ensures
            r.manifest_blob && r.parents && !r.child_metadata,
    {
        TreeAttributes { manifest_blob: true, parents: true, child_metadata: false }
    }
}

/// One tree revision returned by the `trees` operation.
#[derive(Debug)]
pub struct TreeEntry {
    /// The key this entry answers.
    pub key: Key,
    /// The record body, when `manifest_blob` was requested.
    pub data: Option<Vec<u8>>,
    /// The parents, when `parents` was requested.
    pub parents: Option<Parents>,
}

/// The raw stored record of one commit, parent prefix included.
#[derive(Debug)]
pub struct CommitRevlogData {
    /// The commit identifier.
    pub hgid: HgId,
    /// The stored bytes, exactly as in the store.
    pub revlog_data: Vec<u8>,
}

/// Membership answer for one identifier.
#[derive(Debug)]
pub struct CommitKnownResponse {
    /// The identifier asked about.
    pub hgid: HgId,
    /// Whether a record for it exists in the store.
    pub known: bool,
}

/// Resolution of one bookmark name.
#[derive(Debug)]
pub struct BookmarkEntry {
    /// The requested name.
    pub bookmark: String,
    /// The stored identifier, or `None` when the name is absent; absence is
    /// not an error.
    pub hgid: Option<HgId>,
}

/// One vertex of the commit graph with its parent identifiers.
#[derive(Debug)]
pub struct CommitGraphEntry {
    /// The vertex identifier.
    pub hgid: HgId,
    /// Its parents' identifiers.
    pub parents: Vec<HgId>,
}

/// A relative, compact graph address: `distance` first-parent steps up from
/// `descendant`.
#[derive(Debug)]
pub struct Location {
    /// The known descendant the address is relative to.
    pub descendant: HgId,
    /// Upward distance from the descendant.
    pub distance: u64,
}

impl Clone for Location {
    fn clone(&self) -> (r: Self)
        ensures
            r.descendant@ == self.descendant@,
            r.distance == self.distance,
    {
        Location { descendant: self.descendant.clone(), distance: self.distance }
    }
}

/// One `commit_location_to_hash` request item.
#[derive(Debug)]
pub struct CommitLocationToHashRequest {
    /// The address to resolve.
    pub location: Location,
    /// How many successive ancestors to return, starting at the address.
    pub count: u64,
}

/// One `commit_location_to_hash` response item.
#[derive(Debug)]
pub struct CommitLocationToHashResponse {
    /// The address that was resolved.
    pub location: Location,
    /// Number of identifiers actually resolved; may be fewer than requested.
    pub count: u64,
    /// The resolved identifiers, nearest first.
    pub hgids: Vec<HgId>,
}

/// One `commit_hash_to_location` response item.
#[derive(Debug)]
pub struct CommitHashToLocationResponse {
    /// The identifier that was resolved.
    pub hgid: HgId,
    /// Its address relative to the known heads.
    pub result: Option<Location>,
}

/// A token acknowledging an upload. The mutation path is out of scope, so
/// no operation here ever produces one.
#[derive(Debug)]
pub struct UploadToken {
    /// Identifier of the uploaded item.
    pub id: HgId,
}

/// Answer to one `lookup_batch` item; never produced here.
#[derive(Debug)]
pub struct LookupResponse {
    /// Position of the item in the request.
    pub index: usize,
    /// Token for the item, when present.
    pub token: Option<UploadToken>,
}

/// One filenode offered for upload; never accepted here.
#[derive(Debug)]
pub struct HgFilenodeData {
    /// Identifier of the filenode.
    pub node_id: HgId,
    /// Its parents.
    pub parents: Parents,
    /// Its record body.
    pub data: Vec<u8>,
}

/// Answer to one uploaded filenode; never produced here.
#[derive(Debug)]
pub struct UploadHgFilenodeResponse {
    /// Position of the item in the request.
    pub index: usize,
    /// Token for the item.
    pub token: UploadToken,
}

/// One tree revision offered for upload; never accepted here.
#[derive(Debug)]
pub struct UploadTreeEntry {
    /// Identifier of the tree revision.
    pub node_id: HgId,
    /// Its record body.
    pub data: Vec<u8>,
    /// Its parents.
    pub parents: Parents,
}

/// Answer to one uploaded tree; never produced here.
#[derive(Debug)]
pub struct UploadTreeResponse {
    /// Position of the item in the request.
    pub index: usize,
    /// Token for the item.
    pub token: UploadToken,
}

/// One changeset offered for upload; never accepted here.
#[derive(Debug)]
pub struct UploadHgChangeset {
    /// Identifier of the changeset.
    pub node_id: HgId,
    /// Its serialized content.
    pub changeset_content: Vec<u8>,
}

/// One mutation record offered alongside uploaded changesets; never
/// accepted here.
#[derive(Debug)]
pub struct HgMutationEntryContent {
    /// The successor changeset.
    pub successor: HgId,
    /// The predecessor changesets.
    pub predecessors: Vec<HgId>,
}

/// Answer to one uploaded changeset; never produced here.
#[derive(Debug)]
pub struct UploadHgChangesetsResponse {
    /// Position of the item in the request.
    pub index: usize,
    /// Token for the item.
    pub token: UploadToken,
}

/// Canned health answer: there is no network layer to probe.
#[derive(Debug)]
pub struct ResponseMeta {
    /// HTTP-compatible status code.
    pub status: u16,
    /// Server name.
    pub server: Option<String>,
}

} // verus!
