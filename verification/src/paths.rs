//! Classification of request paths against the Grid's session collection
//! route: is a path a brand-new-session request, and which session id does
//! it address?

use vstd::prelude::*;
use vstd::string::StrSliceExecFns;

verus! {

/// The session collection route, as a sequence of characters.
pub open spec fn route() -> Seq<char> {
    seq!['/', 'w', 'd', '/', 'h', 'u', 'b', '/', 's', 'e', 's', 's', 'i', 'o', 'n']
}

/// The pattern `pat` occurs in `s` starting at index `i`.
pub open spec fn occurs_at(s: Seq<char>, pat: Seq<char>, i: int) -> bool {
    0 <= i && i + pat.len() <= s.len() && s.subrange(i, i + pat.len() as int) == pat
}

/// The pattern `pat` occurs somewhere in `s`.
pub open spec fn contains_pat(s: Seq<char>, pat: Seq<char>) -> bool {
    exists|i: int| occurs_at(s, pat, i)
}

/// `s` with every occurrence of the route removed, scanning left to right.
pub open spec fn strip_route(s: Seq<char>) -> Seq<char>
    decreases s.len(),
{
    if s.len() == 0 {
        s
    } else if occurs_at(s, route(), 0) {
        strip_route(s.skip(route().len() as int))
    } else {
        seq![s[0]] + strip_route(s.skip(1))
    }
}

/// Every character of `s` is a slash.
pub open spec fn all_slashes(s: Seq<char>) -> bool {
    forall|i: int| 0 <= i < s.len() ==> s[i] == '/'
}

/// A path addresses a brand-new session when, after removing every
/// occurrence of the collection route, only slashes remain.
pub open spec fn is_new_session_path(p: Seq<char>) -> bool {
    all_slashes(strip_route(p))
}

/// The first position at or after `i` where the route occurs; the length of
/// `s` when it occurs nowhere from `i` on.
pub open spec fn next_route_at(s: Seq<char>, i: int) -> int
    decreases s.len() - i,
{
    if i >= s.len() {
        s.len() as int
    } else if occurs_at(s, route(), i) {
        i
    } else {
        next_route_at(s, i + 1)
    }
}

/// The first position in `[i, b)` holding a character other than a slash,
/// or `b` when there is none.
pub open spec fn seg_start(s: Seq<char>, i: int, b: int) -> int
    decreases b - i,
{
    if i < b && 0 <= i < s.len() && s[i] == '/' {
        seg_start(s, i + 1, b)
    } else {
        i
    }
}

/// The first position in `[i, b)` holding a slash, or `b` when there is
/// none.
pub open spec fn seg_end(s: Seq<char>, i: int, b: int) -> int
    decreases b - i,
{
    if i < b && 0 <= i < s.len() && s[i] != '/' {
        seg_end(s, i + 1, b)
    } else {
        i
    }
}

/// The session id a path addresses: the first non-empty slash segment of
/// the text that follows the collection route. A path that does not
/// contain the route — anchored on the full `/wd/hub/session`, so that
/// unrelated routes never match — addresses no session at all; so does one
/// where only empty segments follow the route.
pub open spec fn session_id_spec(p: Seq<char>) -> Option<Seq<char>> {
    let r = next_route_at(p, 0);
    if r == p.len() {
        None
    } else {
        let c = seg_start(p, r + route().len(), p.len() as int);
        if c < p.len() {
            Some(p.subrange(c, seg_end(p, c, p.len() as int)))
        } else {
            None
        }
    }
}

/// The session id of a path, or the empty sequence when it has none.
pub open spec fn session_id_or_empty(p: Seq<char>) -> Seq<char> {
    match session_id_spec(p) {
        Some(id) => id,
        None => Seq::empty(),
    }
}

/// The name of the navigation command segment.
pub open spec fn url_seg() -> Seq<char> {
    seq!['u', 'r', 'l']
}

/// Position `j` is the end of a final `url` segment: the three characters
/// before `j` spell `url`, a slash or the start of the path stands before
/// them, and only slashes follow.
pub open spec fn is_url_end(p: Seq<char>, j: int) -> bool {
    &&& 3 <= j <= p.len()
    &&& p.subrange(j - 3, j) == url_seg()
    &&& (j == 3 || p[j - 4] == '/')
    &&& (forall|m: int| j <= m < p.len() ==> p[m] == '/')
}

/// The final non-empty slash segment of the path is exactly `url`.
pub open spec fn ends_with_url_segment(p: Seq<char>) -> bool {
    exists|j: int| is_url_end(p, j)
}

/// The collection route as a string slice.
fn route_str() -> (r: &'static str)
    ensures
        r@ == route(),
{
    proof {
        reveal_strlit("/wd/hub/session");
        assert(("/wd/hub/session")@ =~= route());
    }
    "/wd/hub/session"
}

/// Whether `pat` occurs in `s` at index `i`.
fn match_at(s: &str, i: usize, pat: &str) -> (b: bool)
    ensures
        b == occurs_at(s@, pat@, i as int),
{
    let n = s.unicode_len();
    let m = pat.unicode_len();
    if i > n || m > n - i {
        return false;
    }
    let mut j: usize = 0;
    while j < m
        invariant
            n == s@.len(),
            m == pat@.len(),
            i + m <= n,
            0 <= j <= m,
            forall|k: int| 0 <= k < j ==> s@[i + k] == pat@[k],
        decreases m - j,
    {
        if s.get_char(i + j) != pat.get_char(j) {
            proof {
                if occurs_at(s@, pat@, i as int) {
                    assert(s@.subrange(i as int, i + m as int)[j as int] == s@[i + j]);
                }
            }
            return false;
        }
        j += 1;
    }
    proof {
        assert(s@.subrange(i as int, i + m as int) =~= pat@);
    }
    true
}

/// Finds the next route occurrence at or after `from`.
fn find_next_route(s: &str, from: usize) -> (r: usize)
    requires
        from as int <= s@.len(),
    ensures
        r as int == next_route_at(s@, from as int),
        from <= r,
        r as int <= s@.len(),
{
    let n = s.unicode_len();
    let rstr = route_str();
    let mut i: usize = from;
    while i < n
        invariant
            n == s@.len(),
            from <= i <= n,
            rstr@ == route(),
            next_route_at(s@, from as int) == next_route_at(s@, i as int),
        decreases n - i,
    {
        if match_at(s, i, rstr) {
            return i;
        }
        i = i + 1;
    }
    i
}

/// Skips slashes from `from` up to the bound `b`.
fn find_seg_start(s: &str, from: usize, b: usize) -> (r: usize)
    requires
        from <= b,
        b as int <= s@.len(),
    ensures
        r as int == seg_start(s@, from as int, b as int),
        from <= r <= b,
{
    let mut i: usize = from;
    while i < b
        invariant
            from <= i <= b,
            b as int <= s@.len(),
            seg_start(s@, from as int, b as int) == seg_start(s@, i as int, b as int),
        decreases b - i,
    {
        if s.get_char(i) != '/' {
            return i;
        }
        i = i + 1;
    }
    i
}

/// Skips characters other than slashes from `from` up to the bound `b`.
fn find_seg_end(s: &str, from: usize, b: usize) -> (r: usize)
    requires
        from <= b,
        b as int <= s@.len(),
    ensures
        r as int == seg_end(s@, from as int, b as int),
        from <= r <= b,
{
    let mut i: usize = from;
    while i < b
        invariant
            from <= i <= b,
            b as int <= s@.len(),
            seg_end(s@, from as int, b as int) == seg_end(s@, i as int, b as int),
        decreases b - i,
    {
        if s.get_char(i) == '/' {
            return i;
        }
        i = i + 1;
    }
    i
}

/// When the scan stops short of the end, it stopped on an occurrence.
proof fn lemma_next_route_found(s: Seq<char>, i: int)
    requires
        0 <= i <= s.len(),
        next_route_at(s, i) < s.len(),
    ensures
        occurs_at(s, route(), next_route_at(s, i)),
    decreases s.len() - i,
{
    if i < s.len() && !occurs_at(s, route(), i) {
        lemma_next_route_found(s, i + 1);
    }
}

/// Tries to retrieve the session id a path addresses: the first non-empty
/// slash segment of the text that follows the collection route.
pub fn session_id_of_path(path: String) -> (r: Option<String>)
    ensures
        r.deep_view() == session_id_spec(path@),
{
    let s = path.as_str();
    let n = s.unicode_len();
    let r0 = find_next_route(s, 0);
    if r0 == n {
        return None;
    }
    proof {
        lemma_next_route_found(s@, 0);
    }
    let start = r0 + 15;
    let c = find_seg_start(s, start, n);
    if c < n {
        let e = find_seg_end(s, c, n);
        let id = s.substring_char(c, e).to_owned();
        Some(id)
    } else {
        None
    }
}

/// The command segment name as a string slice.
fn url_str() -> (r: &'static str)
    ensures
        r@ == url_seg(),
{
    proof {
        reveal_strlit("url");
        assert(("url")@ =~= url_seg());
    }
    "url"
}

/// Whether the final non-empty slash segment of the path is exactly `url`.
pub fn path_ends_with_url(path: &str) -> (b: bool)
    ensures
        b == ends_with_url_segment(path@),
{
    let n = path.unicode_len();
    let mut j: usize = n;
    while j > 0 && path.get_char(j - 1) == '/'
        invariant
            n == path@.len(),
            0 <= j <= n,
            forall|m: int| j <= m < n ==> path@[m] == '/',
        decreases j,
    {
        j = j - 1;
    }
    if j == 0 {
        proof {
            if ends_with_url_segment(path@) {
                let jj = choose|jj: int| is_url_end(path@, jj);
                assert(path@.subrange(jj - 3, jj)[2] == path@[jj - 1]);
            }
        }
        return false;
    }
    let matched = j >= 3 && match_at(path, j - 3, url_str());
    if matched && (j == 3 || path.get_char(j - 4) == '/') {
        proof {
            assert(path@.subrange(j - 3, j as int) =~= path@.subrange(
                j - 3,
                j - 3 + url_seg().len() as int,
            ));
            assert(is_url_end(path@, j as int));
        }
        true
    } else {
        proof {
            if ends_with_url_segment(path@) {
                let jj = choose|jj: int| is_url_end(path@, jj);
                assert(path@.subrange(jj - 3, jj)[2] == path@[jj - 1]);
                if jj > j {
                    assert(path@[jj - 1] == '/');
                } else if jj < j {
                    assert(path@[j - 1] == '/');
                } else {
                    assert(path@.subrange(jj - 3, jj) =~= path@.subrange(
                        j - 3,
                        j - 3 + url_seg().len() as int,
                    ));
                    assert(occurs_at(path@, url_seg(), j - 3));
                }
            }
        }
        false
    }
}

/// Character-wise equality of two string slices.
pub fn str_eq(a: &str, b: &str) -> (r: bool)
    ensures
        r == (a@ == b@),
{
    let n = a.unicode_len();
    let m = b.unicode_len();
    if n != m {
        return false;
    }
    let mut i: usize = 0;
    while i < n
        invariant
            n == a@.len(),
            n == b@.len(),
            0 <= i <= n,
            forall|k: int| 0 <= k < i ==> a@[k] == b@[k],
        decreases n - i,
    {
        if a.get_char(i) != b.get_char(i) {
            return false;
        }
        i = i + 1;
    }
    proof {
        assert(a@ =~= b@);
    }
    true
}

/// Occurrences in a suffix of `s` are occurrences in `s`, shifted.
proof fn lemma_occurs_at_skip(s: Seq<char>, pat: Seq<char>, i: int, j: int)
    requires
        0 <= i <= s.len(),
        0 <= j,
    ensures
        occurs_at(s.skip(i), pat, j) == occurs_at(s, pat, i + j),
{
    if j + pat.len() <= s.len() - i {
        assert(s.skip(i).subrange(j, j + pat.len() as int) =~= s.subrange(
            i + j,
            i + j + pat.len() as int,
        ));
    }
}

/// Unfolds `strip_route` one step at position `i` of `s`.
proof fn lemma_strip_route_step(s: Seq<char>, i: int)
    requires
        0 <= i <= s.len(),
    ensures
        occurs_at(s, route(), i) ==> strip_route(s.skip(i)) == strip_route(
            s.skip(i + route().len()),
        ),
        !occurs_at(s, route(), i) && i < s.len() ==> strip_route(s.skip(i)) == seq![s[i]]
            + strip_route(s.skip(i + 1)),
{
    let t = s.skip(i);
    lemma_occurs_at_skip(s, route(), i, 0);
    if occurs_at(s, route(), i) {
        assert(t.len() >= route().len());
        assert(t.skip(route().len() as int) =~= s.skip(i + route().len()));
    } else if i < s.len() {
        assert(t.len() > 0);
        assert(t[0] == s[i]);
        assert(t.skip(1) =~= s.skip(i + 1));
    }
}

/// Prepending one character: everything is a slash exactly when the
/// character is a slash and the rest is all slashes.
proof fn lemma_all_slashes_cons(c: char, rest: Seq<char>)
    ensures
        all_slashes(seq![c] + rest) == (c == '/' && all_slashes(rest)),
{
    let s = seq![c] + rest;
    assert(s[0] == c);
    if c == '/' && all_slashes(rest) {
        assert forall|k: int| 0 <= k < s.len() implies s[k] == '/' by {
            if k >= 1 {
                assert(s[k] == rest[k - 1]);
            }
        }
    }
    if all_slashes(s) {
        assert forall|k: int| 0 <= k < rest.len() implies rest[k] == '/' by {
            assert(s[k + 1] == rest[k]);
        }
    }
}

/// Whether the path addresses a brand-new session: after removing every
/// occurrence of the collection route, only slashes may remain.
pub fn is_a_new_session(path: &str) -> (b: bool)
    ensures
        b == is_new_session_path(path@),
{
    let n = path.unicode_len();
    let rstr = route_str();
    let mut i: usize = 0;
    proof {
        assert(path@.skip(0) =~= path@);
    }
    while i < n
        invariant
            n == path@.len(),
            0 <= i <= n,
            rstr@ == route(),
            is_new_session_path(path@) == all_slashes(strip_route(path@.skip(i as int))),
        decreases n - i,
    {
        if match_at(path, i, rstr) {
            proof {
                lemma_strip_route_step(path@, i as int);
            }
            i = i + 15;
        } else if path.get_char(i) == '/' {
            proof {
                lemma_strip_route_step(path@, i as int);
                lemma_all_slashes_cons(path@[i as int], strip_route(path@.skip(i + 1)));
            }
            i = i + 1;
        } else {
            proof {
                lemma_strip_route_step(path@, i as int);
                lemma_all_slashes_cons(path@[i as int], strip_route(path@.skip(i + 1)));
            }
            return false;
        }
    }
    proof {
        assert(path@.skip(i as int) =~= Seq::<char>::empty());
        assert(strip_route(path@.skip(i as int)) =~= Seq::<char>::empty());
    }
    true
}

/// Removing route occurrences from an all-slash sequence changes nothing.
proof fn lemma_strip_route_all_slashes(s: Seq<char>)
    requires
        all_slashes(s),
    ensures
        strip_route(s) == s,
    decreases s.len(),
{
    if s.len() > 0 {
        if occurs_at(s, route(), 0) {
            assert(s.subrange(0, route().len() as int)[1] == s[1]);
        }
        assert forall|k: int| 0 <= k < s.skip(1).len() implies s.skip(1)[k] == '/' by {
            assert(s[k + 1] == '/');
        }
        lemma_strip_route_all_slashes(s.skip(1));
        assert(seq![s[0]] + s.skip(1) =~= s);
    }
}

/// A sequence without any route occurrence is left whole by `strip_route`.
proof fn lemma_strip_route_no_occurrence(s: Seq<char>)
    requires
        forall|j: int| !occurs_at(s, route(), j),
    ensures
        strip_route(s) == s,
    decreases s.len(),
{
    if s.len() > 0 {
        assert forall|j: int| !occurs_at(s.skip(1), route(), j) by {
            if j >= 0 {
                lemma_occurs_at_skip(s, route(), 1, j);
            }
        }
        lemma_strip_route_no_occurrence(s.skip(1));
        assert(seq![s[0]] + s.skip(1) =~= s);
    }
}

/// When the route occurs nowhere at or after `i`, the scan for the next
/// occurrence runs to the end of the sequence.
proof fn lemma_next_route_none(s: Seq<char>, i: int)
    requires
        0 <= i <= s.len(),
        forall|j: int| i <= j ==> !occurs_at(s, route(), j),
    ensures
        next_route_at(s, i) == s.len(),
    decreases s.len() - i,
{
    if i < s.len() {
        lemma_next_route_none(s, i + 1);
    }
}

/// When no character in `[i, b)` is a slash, the segment runs to `b`.
proof fn lemma_seg_end_no_slash(s: Seq<char>, i: int, b: int)
    requires
        0 <= i <= b <= s.len(),
        forall|j: int| i <= j < b ==> s[j] != '/',
    ensures
        seg_end(s, i, b) == b,
    decreases b - i,
{
    if i < b {
        lemma_seg_end_no_slash(s, i + 1, b);
    }
}

/// The collection route itself, followed by nothing but slashes, is a
/// brand-new-session path.
pub proof fn lemma_route_with_trailing_slashes_is_new(p: Seq<char>)
    requires
        p.len() >= route().len(),
        p.subrange(0, route().len() as int) == route(),
        forall|i: int| route().len() <= i < p.len() ==> p[i] == '/',
    ensures
        is_new_session_path(p),
{
    assert(occurs_at(p, route(), 0));
    lemma_strip_route_step(p, 0);
    assert(p.skip(0) =~= p);
    let rest = p.skip(route().len() as int);
    assert forall|k: int| 0 <= k < rest.len() implies rest[k] == '/' by {
        assert(p[k + route().len()] == '/');
    }
    lemma_strip_route_all_slashes(rest);
}

/// A path that does not contain the collection route addresses no session.
pub proof fn lemma_no_route_no_session_id(p: Seq<char>)
    requires
        !contains_pat(p, route()),
    ensures
        session_id_spec(p) is None,
{
    lemma_next_route_none(p, 0);
}

/// In the path "route, slash, id", the route occurs nowhere at or after
/// the end of its occurrence at the start.
proof fn lemma_route_slash_id_occurrence(id: Seq<char>, i: int)
    requires
        id.len() > 0,
        forall|k: int| 0 <= k < id.len() ==> id[k] != '/',
        route().len() <= i,
    ensures
        !occurs_at(route() + seq!['/'] + id, route(), i),
{
    let p = route() + seq!['/'] + id;
    let rl = route().len() as int;
    if occurs_at(p, route(), i) {
        assert(p.subrange(i, i + rl)[0] == p[i]);
        assert(p.subrange(i, i + rl)[3] == p[i + 3]);
        if i == rl {
            assert(p[i + 3] == id[2]);
        } else {
            assert(p[i] == id[i - rl - 1]);
        }
    }
}

/// The collection route, one slash, and a non-empty id without slashes: not
/// a new-session path, and the id is exactly the session id retrieved.
#[verifier::rlimit(50)]
pub proof fn lemma_route_slash_id(id: Seq<char>)
    requires
        id.len() > 0,
        forall|k: int| 0 <= k < id.len() ==> id[k] != '/',
    ensures
        !is_new_session_path(route() + seq!['/'] + id),
        session_id_spec(route() + seq!['/'] + id) == Some(id),
{
    let p = route() + seq!['/'] + id;
    let rl = route().len() as int;
    assert(p.len() == rl + 1 + id.len());
    assert forall|m: int| 0 <= m < rl implies p[m] == route()[m] by {
        assert((route() + seq!['/'])[m] == route()[m]);
    }
    assert(p[rl] == '/') by {
        assert((route() + seq!['/'])[rl] == '/');
    }
    assert forall|m: int| rl + 1 <= m < p.len() implies p[m] == id[m - rl - 1] by {}

    // the route occurs right at the start
    assert(p.subrange(0, rl) =~= route());
    assert(occurs_at(p, route(), 0));

    // not a new-session path: what remains after the route is "/" + id
    lemma_strip_route_step(p, 0);
    assert(p.skip(0) =~= p);
    let rest = p.skip(rl);
    assert forall|j: int| !occurs_at(rest, route(), j) by {
        if j >= 0 {
            lemma_occurs_at_skip(p, route(), rl, j);
            lemma_route_slash_id_occurrence(id, rl + j);
        }
    }
    lemma_strip_route_no_occurrence(rest);
    assert(rest[1] == id[0]);
    assert(!all_slashes(strip_route(p)));

    // the session id: the segment begins right after the route and the
    // slash that follows it
    assert(next_route_at(p, 0) == 0);
    let b = p.len() as int;
    assert(seg_start(p, rl, b) == seg_start(p, rl + 1, b));
    assert(p[rl + 1] == id[0]);
    assert(seg_start(p, rl + 1, b) == rl + 1);
    lemma_seg_end_no_slash(p, rl + 1, b);
    assert(p.subrange(rl + 1, b) =~= id);
}

} // verus!
