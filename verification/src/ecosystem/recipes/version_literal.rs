//! Finding the version string of a JSON manifest in its text, so that a bump
//! can replace just those characters and leave the rest of the file as it
//! was written.
//!
//! The text is scanned with its nesting depth and whether it is inside a
//! string literal. The pattern looked for is `"version"` directly in the
//! outermost object (not inside a nested object or array, nor inside a
//! string), optional whitespace, `:`, optional whitespace, then the current
//! version between double quotes. The last place it occurs is taken, as a
//! JSON reader keeps the last of repeated members.

use vstd::prelude::*;

use crate::text::{chars_of, occurs_at, push_char};

verus! {

/// JSON's insignificant whitespace.
pub open spec fn is_json_ws(c: char) -> bool {
    c == ' ' || c == '\t' || c == '\n' || c == '\r'
}

/// The first position at or after `j` that does not hold whitespace.
pub open spec fn skip_ws(t: Seq<char>, j: int) -> int
    decreases t.len() - j,
{
    if 0 <= j < t.len() && is_json_ws(t[j]) {
        skip_ws(t, j + 1)
    } else {
        j
    }
}

/// The quoted member name `"version"`.
pub open spec fn version_key() -> Seq<char> {
    "\"version\""@
}

/// Where the characters of `v` stand, as the quoted value of a `"version"`
/// member whose name starts at `i`, if the pattern occurs there (whatever
/// the nesting).
pub open spec fn version_pattern_at(t: Seq<char>, i: int, v: Seq<char>) -> Option<(int, int)> {
    let key = version_key();
    if 0 <= i && i + key.len() <= t.len() && t.subrange(i, i + key.len()) == key {
        let j = skip_ws(t, i + key.len());
        if j < t.len() && t[j] == ':' {
            let k = skip_ws(t, j + 1);
            if k < t.len() && t[k] == '"' && k + 1 + v.len() < t.len() && t.subrange(
                k + 1,
                k + 1 + v.len(),
            ) == v && t[k + 1 + v.len()] == '"' {
                Some((k + 1, k + 1 + v.len()))
            } else {
                None
            }
        } else {
            None
        }
    } else {
        None
    }
}

/// What a left-to-right scan knows before a position: how many `{`/`[`
/// and how many `}`/`]` it has passed outside string literals, whether it
/// is inside a string literal, and whether the previous character inside
/// the literal was an escaping backslash.
pub open spec fn scan_step(st: (nat, nat, bool, bool), c: char) -> (nat, nat, bool, bool) {
    if st.2 {
        if st.3 {
            (st.0, st.1, true, false)
        } else if c == '\\' {
            (st.0, st.1, true, true)
        } else if c == '"' {
            (st.0, st.1, false, false)
        } else {
            st
        }
    } else if c == '"' {
        (st.0, st.1, true, false)
    } else if c == '{' || c == '[' {
        (st.0 + 1, st.1, false, false)
    } else if c == '}' || c == ']' {
        (st.0, st.1 + 1, false, false)
    } else {
        st
    }
}

/// The scan's knowledge before position `i` of `t`.
pub open spec fn scan_state(t: Seq<char>, i: int) -> (nat, nat, bool, bool)
    decreases i,
{
    if i <= 0 || i > t.len() {
        (0, 0, false, false)
    } else {
        scan_step(scan_state(t, i - 1), t[i - 1])
    }
}

/// Whether position `i` lies directly in the outermost object or array and
/// outside any string literal.
pub open spec fn at_top_level(t: Seq<char>, i: int) -> bool {
    let st = scan_state(t, i);
    !st.2 && st.0 == st.1 + 1
}

/// The version pattern at `i`, where `i` is at the top level.
pub open spec fn version_value_at(t: Seq<char>, i: int, v: Seq<char>) -> Option<(int, int)> {
    if at_top_level(t, i) {
        version_pattern_at(t, i, v)
    } else {
        None
    }
}

/// The last top-level occurrence of the pattern before position `upto`.
pub open spec fn last_version_value(t: Seq<char>, v: Seq<char>, upto: int) -> Option<(int, int)>
    decreases upto,
{
    if upto <= 0 {
        None
    } else {
        match version_value_at(t, upto - 1, v) {
            Some(p) => Some(p),
            None => last_version_value(t, v, upto - 1),
        }
    }
}

/// The text with the found version string replaced by `next`.
pub open spec fn spliced_version(t: Seq<char>, v: Seq<char>, next: Seq<char>) -> Option<Seq<char>> {
    match last_version_value(t, v, t.len() as int) {
        Some((s, e)) => Some(t.take(s) + next + t.skip(e)),
        None => None,
    }
}

proof fn lemma_skip_ws_bounds(t: Seq<char>, j: int)
    requires
        0 <= j <= t.len(),
    ensures
        j <= skip_ws(t, j) <= t.len(),
    decreases t.len() - j,
{
    if j < t.len() && is_json_ws(t[j]) {
        lemma_skip_ws_bounds(t, j + 1);
    }
}

/// The pattern found at a position spells `v` inside the text.
proof fn lemma_pattern_span(t: Seq<char>, i: int, v: Seq<char>)
    ensures
        version_pattern_at(t, i, v) matches Some((s, e)) ==> 0 <= s && e == s + v.len() && e
            < t.len() && t.subrange(s, e) == v,
{
    let key = version_key();
    if 0 <= i && i + key.len() <= t.len() && t.subrange(i, i + key.len()) == key {
        lemma_skip_ws_bounds(t, i + key.len());
        let j = skip_ws(t, i + key.len());
        if j < t.len() {
            lemma_skip_ws_bounds(t, j + 1);
        }
    }
}

/// A found version string is the characters of `v`, inside the text.
pub proof fn lemma_found_version_span(t: Seq<char>, v: Seq<char>, upto: int)
    ensures
        last_version_value(t, v, upto) matches Some((s, e)) ==> 0 <= s && e == s + v.len() && e
            < t.len() && t.subrange(s, e) == v,
    decreases upto,
{
    if upto > 0 {
        lemma_pattern_span(t, upto - 1, v);
        lemma_found_version_span(t, v, upto - 1);
    }
}

fn skip_ws_exec(t: &Vec<char>, j: usize) -> (r: usize)
    requires
        j <= t@.len(),
    ensures
        r == skip_ws(t@, j as int),
        j <= r <= t@.len(),
{
    proof {
        lemma_skip_ws_bounds(t@, j as int);
    }
    let mut k = j;
    while k < t.len() && (t[k] == ' ' || t[k] == '\t' || t[k] == '\n' || t[k] == '\r')
        invariant
            j <= k <= t@.len(),
            skip_ws(t@, k as int) == skip_ws(t@, j as int),
        decreases t@.len() - k,
    {
        k = k + 1;
    }
    k
}

fn version_pattern_at_exec(t: &Vec<char>, key: &Vec<char>, v: &Vec<char>, i: usize) -> (r: Option<(usize, usize)>)
    requires
        key@ == version_key(),
        i < t@.len(),
    ensures
        match r {
            Some((s, e)) => version_pattern_at(t@, i as int, v@) == Some((s as int, e as int)) && s
                <= e < t@.len(),
            None => version_pattern_at(t@, i as int, v@) is None,
        },
{
    let n = t.len();
    if key.len() > n - i {
        return None;
    }
    if !occurs_at(t, key, i) {
        return None;
    }
    let j = skip_ws_exec(t, i + key.len());
    if !(j < n && t[j] == ':') {
        return None;
    }
    let k = skip_ws_exec(t, j + 1);
    if !(k < n && t[k] == '"') {
        return None;
    }
    if v.len() >= n - (k + 1) {
        return None;
    }
    if !occurs_at(t, v, k + 1) {
        return None;
    }
    if t[k + 1 + v.len()] != '"' {
        return None;
    }
    Some((k + 1, k + 1 + v.len()))
}

/// Finds the last top-level occurrence of the version pattern for the
/// version `v`.
fn find_version_value(t: &Vec<char>, v: &Vec<char>) -> (r: Option<(usize, usize)>)
    ensures
        match r {
            Some((s, e)) => last_version_value(t@, v@, t@.len() as int) == Some((s as int, e as int))
                && s <= e < t@.len(),
            None => last_version_value(t@, v@, t@.len() as int) is None,
        },
{
    let key = chars_of("\"version\"");
    let n = t.len();
    let mut opened: usize = 0;
    let mut closed: usize = 0;
    let mut in_string = false;
    let mut escaped = false;
    let mut found: Option<(usize, usize)> = None;
    let mut i: usize = 0;
    while i < n
        invariant
            key@ == version_key(),
            n == t@.len(),
            i <= n,
            opened <= i,
            closed <= i,
            scan_state(t@, i as int) == (opened as nat, closed as nat, in_string, escaped),
            !in_string ==> !escaped,
            match found {
                Some((s, e)) => last_version_value(t@, v@, i as int) == Some((s as int, e as int))
                    && s <= e < t@.len(),
                None => last_version_value(t@, v@, i as int) is None,
            },
        decreases n - i,
    {
        if !in_string && opened == closed + 1 {
            match version_pattern_at_exec(t, &key, v, i) {
                Some(p) => {
                    found = Some(p);
                },
                None => {},
            }
        }
        let c = t[i];
        let ghost before = (opened as nat, closed as nat, in_string, escaped);
        if in_string {
            if escaped {
                escaped = false;
            } else if c == '\\' {
                escaped = true;
            } else if c == '"' {
                in_string = false;
            }
        } else if c == '"' {
            in_string = true;
        } else if c == '{' || c == '[' {
            opened = opened + 1;
        } else if c == '}' || c == ']' {
            closed = closed + 1;
        }
        assert(scan_state(t@, i + 1) == scan_step(scan_state(t@, i as int), c));
        assert((opened as nat, closed as nat, in_string, escaped) == scan_step(before, c));
        i = i + 1;
    }
    found
}

/// `t[..s] + mid + t[e..]` as a string.
fn splice(t: &Vec<char>, s: usize, e: usize, mid: &str) -> (r: String)
    requires
        s <= e <= t@.len(),
    ensures
        r@ == t@.take(s as int) + mid@ + t@.skip(e as int),
{
    let mut out = String::new();
    let mut i: usize = 0;
    while i < s
        invariant
            s <= e <= t@.len(),
            i <= s,
            out@ == t@.take(i as int),
        decreases s - i,
    {
        push_char(&mut out, t[i]);
        i = i + 1;
        assert(out@ =~= t@.take(i as int));
    }
    out.append(mid);
    let ghost prefix = out@;
    let mut j: usize = e;
    while j < t.len()
        invariant
            e <= j <= t@.len(),
            out@ == prefix + t@.subrange(e as int, j as int),
        decreases t@.len() - j,
    {
        push_char(&mut out, t[j]);
        j = j + 1;
        assert(out@ =~= prefix + t@.subrange(e as int, j as int));
    }
    assert(t@.subrange(e as int, j as int) =~= t@.skip(e as int));
    out
}

/// The text with its version string `current` replaced by `next`, where the
/// pattern is found.
pub fn splice_version(text: &str, current: &str, next: &str) -> (r: Option<String>)
    ensures
        match r {
            Some(out) => spliced_version(text@, current@, next@) == Some(out@),
            None => spliced_version(text@, current@, next@) is None,
        },
{
    let t = chars_of(text);
    let v = chars_of(current);
    match find_version_value(&t, &v) {
        Some((s, e)) => Some(splice(&t, s, e, next)),
        None => None,
    }
}

} // verus!
