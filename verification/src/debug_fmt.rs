//! Debug formatting of request lists: at most five items are spelled out,
//! the rest are summarized by their count.

use vstd::prelude::*;
use vstd::string::StringExecFns;

use crate::types::{hex_encoded, HgId, Key};

verus! {

/// How many list items are spelled out before the rest are summarized.
pub const DEBUG_LIST_LIMIT: usize = 5;

/// The decimal character of a digit value below ten.
pub open spec fn dec_char_of(d: nat) -> char {
    if d == 0 { '0' } else if d == 1 { '1' } else if d == 2 { '2' } else if d == 3 { '3' }
    else if d == 4 { '4' } else if d == 5 { '5' } else if d == 6 { '6' } else if d == 7 { '7' }
    else if d == 8 { '8' } else { '9' }
}

/// The decimal spelling of a natural number.
pub open spec fn dec_spelling(n: nat) -> Seq<char>
    decreases n,
{
    if n < 10 {
        seq![dec_char_of(n)]
    } else {
        dec_spelling(n / 10).push(dec_char_of(n % 10))
    }
}

/// The parts joined by `", "`.
pub open spec fn joined_parts(parts: Seq<Seq<char>>) -> Seq<char>
    decreases parts.len(),
{
    if parts.len() == 0 {
        Seq::empty()
    } else if parts.len() == 1 {
        parts[0]
    } else {
        joined_parts(parts.drop_last()) + ", "@ + parts.last()
    }
}

/// The rendered list: the given parts joined, and — when the total count
/// exceeds the limit — `" and "`, the count of items left out, `" more"`.
pub open spec fn spec_debug_list(parts: Seq<Seq<char>>, total: nat) -> Seq<char> {
    if total > DEBUG_LIST_LIMIT {
        joined_parts(parts) + " and "@ + dec_spelling((total - DEBUG_LIST_LIMIT) as nat)
            + " more"@
    } else {
        joined_parts(parts)
    }
}

fn dec_digit_str(d: usize) -> (s: &'static str)
    requires
        d < 10,
    ensures
        s@ == seq![dec_char_of(d as nat)],
{
    proof {
        reveal_strlit("0");
        reveal_strlit("1");
        reveal_strlit("2");
        reveal_strlit("3");
        reveal_strlit("4");
        reveal_strlit("5");
        reveal_strlit("6");
        reveal_strlit("7");
        reveal_strlit("8");
        reveal_strlit("9");
    }
    let s: &'static str = match d {
        0 => "0",
        1 => "1",
        2 => "2",
        3 => "3",
        4 => "4",
        5 => "5",
        6 => "6",
        7 => "7",
        8 => "8",
        _ => "9",
    };
    assert(s@ =~= seq![dec_char_of(d as nat)]);
    s
}

/// The decimal spelling of a count.
pub fn dec_string(n: usize) -> (s: String)
    ensures
        s@ == dec_spelling(n as nat),
    decreases n,
{
    if n < 10 {
        String::from_str(dec_digit_str(n))
    } else {
        let mut s = dec_string(n / 10);
        s.append(dec_digit_str(n % 10));
        assert(s@ =~= dec_spelling(n as nat));
        s
    }
}

/// Joins already-rendered parts and appends the left-out count: exactly
/// [`spec_debug_list`] of the parts and the total.
pub fn debug_join(parts: &Vec<String>, total: usize) -> (r: String)
    requires
        parts@.len() <= DEBUG_LIST_LIMIT,
        total > DEBUG_LIST_LIMIT ==> parts@.len() == DEBUG_LIST_LIMIT,
    ensures
        r@ == spec_debug_list(parts@.map_values(|s: String| s@), total as nat),
{
    let ghost views = parts@.map_values(|s: String| s@);
    let mut msg = String::new();
    let mut i: usize = 0;
    while i < parts.len()
        invariant
            i <= parts@.len(),
            views == parts@.map_values(|s: String| s@),
            msg@ == joined_parts(views.take(i as int)),
        decreases parts@.len() - i,
    {
        if i > 0 {
            msg.append(", ");
        }
        msg.append(parts[i].as_str());
        proof {
            let t = views.take(i + 1 as int);
            assert(t.drop_last() =~= views.take(i as int));
            assert(t.last() == views[i as int]);
            if i == 0 {
                assert(msg@ =~= joined_parts(t));
            } else {
                assert(msg@ =~= joined_parts(t));
            }
        }
        i = i + 1;
    }
    assert(views.take(parts@.len() as int) =~= views);
    if total > DEBUG_LIST_LIMIT {
        msg.append(" and ");
        msg.append(dec_string(total - DEBUG_LIST_LIMIT).as_str());
        msg.append(" more");
        assert(msg@ =~= spec_debug_list(views, total as nat));
    }
    msg
}

/// What the generic renderer promises: the result is exactly the
/// [`debug_join`] layout of some outputs of the caller's formatter — one
/// output per rendered element, in element order. What each output holds is
/// the formatter's own affair; the fixed-formatter variants below pin it.
pub open spec fn debug_list_post<T, F: Fn(&T) -> String>(
    keys: Seq<T>,
    func: F,
    parts: Seq<String>,
    res: Seq<char>,
) -> bool {
    &&& parts.len() == (if keys.len() > DEBUG_LIST_LIMIT {
        DEBUG_LIST_LIMIT as int
    } else {
        keys.len() as int
    })
    &&& (forall|i: int| 0 <= i < parts.len() ==> #[trigger] func.ensures((&keys[i],), parts[i]))
    &&& res == spec_debug_list(parts.map_values(|s: String| s@), keys.len() as nat)
}

/// Renders a list for debug output with a caller-supplied formatter: the
/// first items (at most [`DEBUG_LIST_LIMIT`]) rendered by `func` and joined
/// by `", "`, and — when more were given — the count of the rest, exactly
/// as [`debug_join`] lays them out.
pub fn debug_list<T, F: Fn(&T) -> String>(keys: &[T], func: F) -> (r: String)
    requires
        forall|i: int| 0 <= i < keys@.len() ==> func.requires((&keys@[i],)),
    ensures
        exists|parts: Seq<String>| debug_list_post(keys@, func, parts, r@),
{
    let limit = DEBUG_LIST_LIMIT;
    let mut parts: Vec<String> = Vec::new();
    let mut i: usize = 0;
    while i < keys.len() && i < limit
        invariant
            limit == DEBUG_LIST_LIMIT,
            i <= keys@.len(),
            i <= limit,
            keys@.len() > limit ==> i <= limit,
            parts@.len() == i,
            forall|j: int| 0 <= j < i ==> #[trigger] func.ensures((&keys@[j],), parts@[j]),
            forall|j: int| 0 <= j < keys@.len() ==> func.requires((&keys@[j],)),
        decreases keys@.len() - i,
    {
        let rendered = func(&keys[i]);
        let ghost old_parts = parts@;
        parts.push(rendered);
        proof {
            assert forall|j: int| 0 <= j < i + 1 implies #[trigger] func.ensures(
                (&keys@[j],),
                parts@[j],
            ) by {
                if j < i {
                    assert(parts@[j] == old_parts[j]);
                } else {
                    assert(parts@[j] == rendered);
                }
            }
        }
        i = i + 1;
    }
    let r = debug_join(&parts, keys.len());
    proof {
        assert(debug_list_post(keys@, func, parts@, r@));
    }
    r
}

/// Renders a list of plain strings for debug output.
pub fn debug_string_list(s: &[String]) -> (r: String)
    ensures
        r@ == spec_debug_list(
            (if s@.len() > DEBUG_LIST_LIMIT {
                s@.take(DEBUG_LIST_LIMIT as int)
            } else {
                s@
            }).map_values(|x: String| x@),
            s@.len() as nat,
        ),
{
    let mut parts: Vec<String> = Vec::new();
    let mut i: usize = 0;
    while i < s.len() && i < DEBUG_LIST_LIMIT
        invariant
            i <= s@.len(),
            i <= DEBUG_LIST_LIMIT,
            s@.len() > DEBUG_LIST_LIMIT ==> i <= DEBUG_LIST_LIMIT,
            parts@.len() == i,
            forall|j: int| 0 <= j < i ==> #[trigger] parts@[j]@ == s@[j]@,
        decreases s@.len() - i,
    {
        parts.push(s[i].clone());
        i = i + 1;
    }
    let r = debug_join(&parts, s.len());
    proof {
        let lhs = parts@.map_values(|x: String| x@);
        let rhs = (if s@.len() > DEBUG_LIST_LIMIT {
            s@.take(DEBUG_LIST_LIMIT as int)
        } else {
            s@
        }).map_values(|x: String| x@);
        assert(lhs =~= rhs);
    }
    r
}

/// Renders a list of identifiers for debug output, as lowercase hex.
pub fn debug_hgid_list(ids: &[HgId]) -> (r: String)
    ensures
        r@ == spec_debug_list(
            (if ids@.len() > DEBUG_LIST_LIMIT {
                ids@.take(DEBUG_LIST_LIMIT as int)
            } else {
                ids@
            }).map_values(|x: HgId| hex_encoded(x@)),
            ids@.len() as nat,
        ),
{
    let mut parts: Vec<String> = Vec::new();
    let mut i: usize = 0;
    while i < ids.len() && i < DEBUG_LIST_LIMIT
        invariant
            i <= ids@.len(),
            i <= DEBUG_LIST_LIMIT,
            ids@.len() > DEBUG_LIST_LIMIT ==> i <= DEBUG_LIST_LIMIT,
            parts@.len() == i,
            forall|j: int| 0 <= j < i ==> #[trigger] parts@[j]@ == hex_encoded(ids@[j]@),
        decreases ids@.len() - i,
    {
        parts.push(ids[i].to_hex());
        i = i + 1;
    }
    let r = debug_join(&parts, ids.len());
    proof {
        let lhs = parts@.map_values(|x: String| x@);
        let rhs = (if ids@.len() > DEBUG_LIST_LIMIT {
            ids@.take(DEBUG_LIST_LIMIT as int)
        } else {
            ids@
        }).map_values(|x: HgId| hex_encoded(x@));
        assert(lhs =~= rhs);
    }
    r
}

/// Renders a list of keys for debug output, as the hex of their
/// identifiers.
pub fn debug_key_list(keys: &[Key]) -> (r: String)
    ensures
        r@ == spec_debug_list(
            (if keys@.len() > DEBUG_LIST_LIMIT {
                keys@.take(DEBUG_LIST_LIMIT as int)
            } else {
                keys@
            }).map_values(|x: Key| hex_encoded(x.hgid@)),
            keys@.len() as nat,
        ),
{
    let mut parts: Vec<String> = Vec::new();
    let mut i: usize = 0;
    while i < keys.len() && i < DEBUG_LIST_LIMIT
        invariant
            i <= keys@.len(),
            i <= DEBUG_LIST_LIMIT,
            keys@.len() > DEBUG_LIST_LIMIT ==> i <= DEBUG_LIST_LIMIT,
            parts@.len() == i,
            forall|j: int| 0 <= j < i ==> #[trigger] parts@[j]@ == hex_encoded(keys@[j].hgid@),
        decreases keys@.len() - i,
    {
        parts.push(keys[i].hgid.to_hex());
        i = i + 1;
    }
    let r = debug_join(&parts, keys.len());
    proof {
        let lhs = parts@.map_values(|x: String| x@);
        let rhs = (if keys@.len() > DEBUG_LIST_LIMIT {
            keys@.take(DEBUG_LIST_LIMIT as int)
        } else {
            keys@
        }).map_values(|x: Key| hex_encoded(x.hgid@));
        assert(lhs =~= rhs);
    }
    r
}

} // verus!
