//! Record codec: the on-disk blob record layout.
//!
//! A record is `[p1][p2][body]` — a fixed-width two-slot parent prefix
//! followed by the body. The body may itself begin with a rename header
//! bounded by the two-byte sentinel `0x01 0x0A` on both sides: ASCII text of
//! newline-separated `key: value` lines, of which only `copy` (source path)
//! and `copyrev` (hex source identifier) are consulted.

use vstd::prelude::*;

use crate::types::{hex_id_decoded, hex_id_valid, HgId, Key, ID_LEN};

verus! {

/// First parent slot of a record: the leading `ID_LEN` bytes.
pub open spec fn spec_p1(data: Seq<u8>) -> Seq<u8>
    recommends
        data.len() >= 2 * ID_LEN,
{
    data.subrange(0, ID_LEN as int)
}

/// Second parent slot of a record: the next `ID_LEN` bytes.
pub open spec fn spec_p2(data: Seq<u8>) -> Seq<u8>
    recommends
        data.len() >= 2 * ID_LEN,
{
    data.subrange(ID_LEN as int, 2 * ID_LEN as int)
}

/// Body of a record: everything after the two parent slots.
pub open spec fn spec_body(data: Seq<u8>) -> Seq<u8>
    recommends
        data.len() >= 2 * ID_LEN,
{
    data.skip(2 * ID_LEN as int)
}

/// Extracts `(p1, p2)` from the fixed-width prefix. A record shorter than the
/// prefix is a store-invariant violation and is ruled out by the caller.
pub fn extract_p1_p2(data: &[u8]) -> (r: (HgId, HgId))
    requires
        data@.len() >= 2 * ID_LEN,
    ensures
        r.0@ == spec_p1(data@),
        r.1@ == spec_p2(data@),
{
    let s1 = vstd::slice::slice_subrange(data, 0, ID_LEN);
    let s2 = vstd::slice::slice_subrange(data, ID_LEN, 2 * ID_LEN);
    let p1 = match HgId::from_slice(s1) {
        Some(id) => id,
        None => {
            assert(false);
            HgId::null()
        },
    };
    let p2 = match HgId::from_slice(s2) {
        Some(id) => id,
        None => {
            assert(false);
            HgId::null()
        },
    };
    (p1, p2)
}

/// Extracts the body: the record with the parent prefix stripped.
pub fn extract_body(data: &[u8]) -> (r: Vec<u8>)
    requires
        data@.len() >= 2 * ID_LEN,
    ensures
        r@ == spec_body(data@),
{
    let s = vstd::slice::slice_subrange(data, 2 * ID_LEN, data.len());
    vstd::slice::slice_to_vec(s)
}

/// Builds a record from two parents and a body, in the exact on-disk layout.
pub fn encode_record(p1: &HgId, p2: &HgId, body: &[u8]) -> (r: Vec<u8>)
    ensures
        r@ == p1@ + p2@ + body@,
        spec_p1(r@) == p1@,
        spec_p2(r@) == p2@,
        spec_body(r@) == body@,
{
    proof {
        use_type_invariant(p1);
        use_type_invariant(p2);
        p1.lemma_wf();
        p2.lemma_wf();
    }
    let mut r: Vec<u8> = Vec::new();
    r.extend_from_slice(p1.as_bytes());
    r.extend_from_slice(p2.as_bytes());
    r.extend_from_slice(body);
    assert(r@ =~= p1@ + p2@ + body@);
    proof {
        lemma_record_round_trip(p1@, p2@, body@);
    }
    r
}

/// Round trip: decoding a record built from any two identifiers and any body
/// recovers exactly those parents and that body.
pub proof fn lemma_record_round_trip(p1: Seq<u8>, p2: Seq<u8>, body: Seq<u8>)
    requires
        p1.len() == ID_LEN,
        p2.len() == ID_LEN,
    ensures
        spec_p1(p1 + p2 + body) == p1,
        spec_p2(p1 + p2 + body) == p2,
        spec_body(p1 + p2 + body) == body,
{
    assert(spec_p1(p1 + p2 + body) =~= p1);
    assert(spec_p2(p1 + p2 + body) =~= p2);
    assert(spec_body(p1 + p2 + body) =~= body);
}

/// Least index `i >= from` at which the two-byte pattern `x y` occurs in `s`.
pub open spec fn find_pair_from(s: Seq<u8>, x: u8, y: u8, from: int) -> Option<int>
    decreases s.len() - from,
    when 0 <= from
{
    if from + 2 > s.len() {
        None
    } else if s[from] == x && s[from + 1] == y {
        Some(from)
    } else {
        find_pair_from(s, x, y, from + 1)
    }
}

/// Least index `i >= from` at which byte `x` occurs in `s`.
pub open spec fn find_byte_from(s: Seq<u8>, x: u8, from: int) -> Option<int>
    decreases s.len() - from,
    when 0 <= from
{
    if from >= s.len() {
        None
    } else if s[from] == x {
        Some(from)
    } else {
        find_byte_from(s, x, from + 1)
    }
}

/// A header line with one trailing carriage return stripped, as `str::lines`
/// strips it before a newline.
pub open spec fn strip_cr(line: Seq<u8>) -> Seq<u8> {
    if line.len() > 0 && line.last() == 13 {
        line.drop_last()
    } else {
        line
    }
}

/// The bytes of the recognized key `copy`.
pub open spec fn copy_key() -> Seq<u8> {
    seq![99u8, 111u8, 112u8, 121u8]
}

/// The bytes of the recognized key `copyrev`.
pub open spec fn copyrev_key() -> Seq<u8> {
    seq![99u8, 111u8, 112u8, 121u8, 114u8, 101u8, 118u8]
}

/// Splits a header line at `": "`. The line parses only if the separator
/// occurs exactly once (splitting would give exactly two parts); otherwise it
/// is ignored.
pub open spec fn parse_line(line: Seq<u8>) -> Option<(Seq<u8>, Seq<u8>)> {
    match find_pair_from(line, 58, 32, 0) {
        None => None,
        Some(i) => match find_pair_from(line, 58, 32, i + 2) {
            Some(_) => None,
            None => Some((line.take(i), line.skip(i + 2))),
        },
    }
}

/// Whether one slash-separated path component is acceptable: non-empty, not
/// `.` or `..`, and free of NUL bytes.
pub open spec fn component_ok(c: Seq<u8>) -> bool {
    &&& c.len() > 0
    &&& c != seq![46u8]
    &&& c != seq![46u8, 46u8]
    &&& !c.contains(0u8)
}

/// Whether every slash-separated component of `p` from `from` on is
/// acceptable.
pub open spec fn components_ok_from(p: Seq<u8>, from: int) -> bool
    decreases p.len() - from,
    when 0 <= from
    via components_ok_from_decreases
{
    match find_byte_from(p, 47, from) {
        None => component_ok(p.subrange(from, p.len() as int)),
        Some(i) => component_ok(p.subrange(from, i)) && components_ok_from(p, i + 1),
    }
}

#[via_fn]
proof fn components_ok_from_decreases(p: Seq<u8>, from: int) {
    lemma_find_byte_bounds(p, 47, from);
}

/// Whether `p` is a well-formed repository-relative path: non-empty, with
/// every slash-separated component acceptable. A malformed path in a rename
/// header counts as no rename, like a malformed identifier.
pub open spec fn repo_path_valid(p: Seq<u8>) -> bool {
    components_ok_from(p, 0)
}

/// Parser state: the last values seen for `copy` and `copyrev`. A later line
/// for the same key overwrites the earlier one, a malformed value overwrites
/// it with nothing.
pub open spec fn apply_line(st: (Option<Seq<u8>>, Option<Seq<u8>>), line: Seq<u8>) -> (
    Option<Seq<u8>>,
    Option<Seq<u8>>,
) {
    match parse_line(line) {
        None => st,
        Some((k, v)) => if k == copy_key() {
            (if repo_path_valid(v) { Some(v) } else { None }, st.1)
        } else if k == copyrev_key() {
            (st.0, if hex_id_valid(v) { Some(hex_id_decoded(v)) } else { None })
        } else {
            st
        },
    }
}

/// Folds `apply_line` over the newline-separated lines of `h` starting at
/// `from`, as `str::lines` produces them: a line before a newline has one
/// trailing carriage return stripped, the final line is taken as-is, and a
/// trailing empty segment is no line.
pub open spec fn scan_header_from(h: Seq<u8>, from: int, st: (Option<Seq<u8>>, Option<Seq<u8>>)) -> (
    Option<Seq<u8>>,
    Option<Seq<u8>>,
)
    decreases h.len() - from,
    when 0 <= from
    via scan_header_from_decreases
{
    if from >= h.len() {
        st
    } else {
        match find_byte_from(h, 10, from) {
            None => apply_line(st, h.subrange(from, h.len() as int)),
            Some(i) => scan_header_from(h, i + 1, apply_line(st, strip_cr(h.subrange(from, i)))),
        }
    }
}

#[via_fn]
proof fn scan_header_from_decreases(h: Seq<u8>, from: int, st: (Option<Seq<u8>>, Option<Seq<u8>>)) {
    lemma_find_byte_bounds(h, 10, from);
}

/// A found byte index lies in range and matches.
pub proof fn lemma_find_byte_bounds(s: Seq<u8>, x: u8, from: int)
    requires
        0 <= from,
    ensures
        find_byte_from(s, x, from) matches Some(i) ==> from <= i < s.len() && s[i] == x,
    decreases s.len() - from,
{
    if from >= s.len() {
    } else if s[from] == x {
    } else {
        lemma_find_byte_bounds(s, x, from + 1);
    }
}

/// Rename metadata of a body, if any: the body starts with the sentinel, a
/// closing sentinel exists, and the header between them yields both a `copy`
/// path and a well-formed `copyrev` identifier. Anything else — missing
/// sentinel, missing boundary, either key absent or malformed — is no rename,
/// never a partial result.
pub open spec fn spec_rename(body: Seq<u8>) -> Option<(Seq<u8>, Seq<u8>)> {
    if body.len() >= 2 && body[0] == 1 && body[1] == 10 {
        let rest = body.skip(2);
        match find_pair_from(rest, 1, 10, 0) {
            None => None,
            Some(pos) => {
                let st = scan_header_from(rest.take(pos), 0, (None, None));
                match st {
                    (Some(p), Some(r)) => Some((p, r)),
                    _ => None,
                }
            },
        }
    } else {
        None
    }
}

/// Bytewise equality of two slices.
pub(crate) fn bytes_eq(a: &[u8], b: &[u8]) -> (r: bool)
    ensures
        r == (a@ == b@),
{
    if a.len() != b.len() {
        return false;
    }
    let mut i: usize = 0;
    while i < a.len()
        invariant
            a@.len() == b@.len(),
            i <= a@.len(),
            forall|j: int| 0 <= j < i ==> a@[j] == b@[j],
        decreases a@.len() - i,
    {
        if a[i] != b[i] {
            return false;
        }
        i = i + 1;
    }
    assert(a@ =~= b@);
    true
}

/// Least occurrence of the two-byte pattern `x y` in `s` at or after `from`.
fn find_pair(s: &[u8], x: u8, y: u8, from: usize) -> (r: Option<usize>)
    requires
        from <= s@.len(),
    ensures
        match r {
            Some(i) => from <= i && i + 2 <= s@.len() && find_pair_from(s@, x, y, from as int)
                == Some(i as int),
            None => find_pair_from(s@, x, y, from as int) is None,
        },
{
    if s.len() < 2 {
        return None;
    }
    let mut i: usize = from;
    while i <= s.len() - 2
        invariant
            from <= i <= s@.len(),
            s@.len() >= 2,
            find_pair_from(s@, x, y, from as int) == find_pair_from(s@, x, y, i as int),
        decreases s@.len() - i,
    {
        if s[i] == x && s[i + 1] == y {
            return Some(i);
        }
        i = i + 1;
    }
    None
}

/// Whether the line parses as `key: value` with the given key.
fn line_key_value(line: &[u8]) -> (r: Option<(&[u8], &[u8])>)
    ensures
        match r {
            Some((k, v)) => parse_line(line@) == Some((k@, v@)),
            None => parse_line(line@) is None,
        },
{
    let n = line.len();
    match find_pair(line, 58, 32, 0) {
        None => None,
        Some(i) => {
            assert(i + 2 <= n);
            match find_pair(line, 58, 32, i + 2) {
                Some(_) => None,
                None => {
                    let k = vstd::slice::slice_subrange(line, 0, i);
                    let v = vstd::slice::slice_subrange(line, i + 2, line.len());
                    assert(k@ == line@.take(i as int));
                    assert(v@ == line@.skip(i as int + 2));
                    Some((k, v))
                },
            }
        },
    }
}

/// State view of the in-progress header scan.
pub open spec fn rename_state_view(path: Option<Vec<u8>>, rev: Option<HgId>) -> (
    Option<Seq<u8>>,
    Option<Seq<u8>>,
) {
    (
        match path {
            Some(p) => Some(p@),
            None => None,
        },
        match rev {
            Some(r) => Some(r@),
            None => None,
        },
    )
}

/// Extracts rename metadata from a body (not prefixed by the parent slots),
/// exactly as [`spec_rename`] describes it.
pub fn extract_rename(body: &[u8]) -> (r: Option<Key>)
    ensures
        match r {
            Some(k) => spec_rename(body@) == Some((k.path@, k.hgid@)),
            None => spec_rename(body@) is None,
        },
{
    if body.len() < 2 || body[0] != 1 || body[1] != 10 {
        return None;
    }
    let rest = vstd::slice::slice_subrange(body, 2, body.len());
    assert(rest@ == body@.skip(2));
    let pos = match find_pair(rest, 1, 10, 0) {
        Some(p) => p,
        None => {
            return None;
        },
    };
    let header = vstd::slice::slice_subrange(rest, 0, pos);
    assert(header@ == rest@.take(pos as int));

    let mut path: Option<Vec<u8>> = None;
    let mut rev: Option<HgId> = None;
    let mut start: usize = 0;
    let h_len = header.len();
    while start < h_len
        invariant
            start <= h_len,
            h_len == header@.len(),
            scan_header_from(header@, 0, (None, None)) == scan_header_from(
                header@,
                start as int,
                rename_state_view(path, rev),
            ),
        decreases h_len - start,
    {
        let line_end: usize;
        let next_start: usize;
        let had_newline: bool;
        match find_byte(header, 10, start) {
            Some(i) => {
                line_end = i;
                next_start = i + 1;
                had_newline = true;
            },
            None => {
                line_end = h_len;
                next_start = h_len;
                had_newline = false;
            },
        }
        let mut line = vstd::slice::slice_subrange(header, start, line_end);
        assert(line@ == header@.subrange(start as int, line_end as int));
        if had_newline && line.len() > 0 && line[line.len() - 1] == 13 {
            line = vstd::slice::slice_subrange(line, 0, line.len() - 1);
        }
        proof {
            if had_newline {
                assert(line@ =~= strip_cr(header@.subrange(start as int, line_end as int)));
            } else {
                assert(line@ =~= header@.subrange(start as int, h_len as int));
            }
        }
        match line_key_value(line) {
            None => {},
            Some((k, v)) => {
                if is_copy_key(k) {
                    path = if is_valid_repo_path(v) {
                        Some(vstd::slice::slice_to_vec(v))
                    } else {
                        None
                    };
                } else if is_copyrev_key(k) {
                    rev = HgId::from_hex(v);
                }
            },
        }
        start = next_start;
    }
    match (path, rev) {
        (Some(p), Some(r)) => Some(Key { path: p, hgid: r }),
        _ => None,
    }
}

/// Least occurrence of byte `x` in `s` at or after `from`.
fn find_byte(s: &[u8], x: u8, from: usize) -> (r: Option<usize>)
    requires
        from <= s@.len(),
    ensures
        match r {
            Some(i) => from <= i < s@.len() && find_byte_from(s@, x, from as int) == Some(i as int),
            None => find_byte_from(s@, x, from as int) is None,
        },
{
    let mut i: usize = from;
    while i < s.len()
        invariant
            from <= i <= s@.len(),
            find_byte_from(s@, x, from as int) == find_byte_from(s@, x, i as int),
        decreases s@.len() - i,
    {
        if s[i] == x {
            return Some(i);
        }
        i = i + 1;
    }
    None
}

fn check_component(c: &[u8]) -> (r: bool)
    ensures
        r == component_ok(c@),
{
    if c.len() == 0 {
        return false;
    }
    let mut i: usize = 0;
    while i < c.len()
        invariant
            i <= c@.len(),
            forall|j: int| 0 <= j < i ==> c@[j] != 0u8,
        decreases c@.len() - i,
    {
        if c[i] == 0 {
            assert(c@[i as int] == 0u8);
            assert(c@.contains(0u8));
            return false;
        }
        i = i + 1;
    }
    assert(!c@.contains(0u8)) by {
        if c@.contains(0u8) {
            let j = choose|j: int| 0 <= j < c@.len() && c@[j] == 0u8;
        }
    }
    if c.len() == 1 && c[0] == 46 {
        assert(c@ =~= seq![46u8]);
        return false;
    }
    if c.len() == 2 && c[0] == 46 && c[1] == 46 {
        assert(c@ =~= seq![46u8, 46u8]);
        return false;
    }
    proof {
        if c@ == seq![46u8] {
            assert(c@.len() == 1 && c@[0] == 46u8);
        }
        if c@ == seq![46u8, 46u8] {
            assert(c@.len() == 2 && c@[0] == 46u8 && c@[1] == 46u8);
        }
    }
    true
}

/// Whether the bytes spell a well-formed repository-relative path, exactly
/// as [`repo_path_valid`] states.
pub fn is_valid_repo_path(p: &[u8]) -> (r: bool)
    ensures
        r == repo_path_valid(p@),
{
    let n = p.len();
    let mut start: usize = 0;
    loop
        invariant
            start <= n,
            n == p@.len(),
            repo_path_valid(p@) == components_ok_from(p@, start as int),
        decreases n - start,
    {
        match find_byte(p, 47, start) {
            Some(i) => {
                let comp = vstd::slice::slice_subrange(p, start, i);
                assert(comp@ == p@.subrange(start as int, i as int));
                if !check_component(comp) {
                    return false;
                }
                start = i + 1;
            },
            None => {
                let comp = vstd::slice::slice_subrange(p, start, n);
                assert(comp@ == p@.subrange(start as int, n as int));
                return check_component(comp);
            },
        }
    }
}

fn is_copy_key(k: &[u8]) -> (r: bool)
    ensures
        r == (k@ == copy_key()),
{
    let mut pat: Vec<u8> = Vec::new();
    pat.push(99);
    pat.push(111);
    pat.push(112);
    pat.push(121);
    assert(pat@ =~= copy_key());
    bytes_eq(k, pat.as_slice())
}

fn is_copyrev_key(k: &[u8]) -> (r: bool)
    ensures
        r == (k@ == copyrev_key()),
{
    let mut pat: Vec<u8> = Vec::new();
    pat.push(99);
    pat.push(111);
    pat.push(112);
    pat.push(121);
    pat.push(114);
    pat.push(101);
    pat.push(118);
    assert(pat@ =~= copyrev_key());
    bytes_eq(k, pat.as_slice())
}

} // verus!
