//! Semantic-version arithmetic on version strings.
//!
//! A version string is read as the numbers found between its dots: every
//! piece that parses as a `u32` counts, the others are skipped, and the
//! first three numbers found are the major, minor and patch components
//! (a missing one is zero).

use vstd::prelude::*;

use crate::ecosystem::types::ReleaseKind;
use crate::text::{
    all_digits, chars_of, decimal, is_digit, lemma_decimal_digits, lemma_parse_decimal, lemma_split_on_nonempty, parse_u32_range, parse_u32_spec, push_char,
    push_decimal, split_on,
};

verus! {

/// The numbers that the pieces of a version string parse to, in order,
/// skipping the pieces that do not parse.
pub open spec fn parsed_numbers(pieces: Seq<Seq<char>>) -> Seq<u32>
    decreases pieces.len(),
{
    if pieces.len() == 0 {
        Seq::empty()
    } else {
        let init = parsed_numbers(pieces.drop_last());
        match parse_u32_spec(pieces.last()) {
            Some(v) => init.push(v),
            None => init,
        }
    }
}

/// The numbers of a version string.
pub open spec fn version_numbers(s: Seq<char>) -> Seq<u32> {
    parsed_numbers(split_on(s, '.'))
}

/// The `i`-th number of a list, or zero where the list is too short.
pub open spec fn nth_or_zero(ns: Seq<u32>, i: int) -> u32 {
    if 0 <= i < ns.len() {
        ns[i]
    } else {
        0
    }
}

/// The major, minor and patch components of a version string.
pub open spec fn spec_version_parts(s: Seq<char>) -> (u32, u32, u32) {
    let ns = version_numbers(s);
    (nth_or_zero(ns, 0), nth_or_zero(ns, 1), nth_or_zero(ns, 2))
}

/// The components after a release of the given kind: the chosen component
/// goes up by one and the ones after it are reset to zero.
pub open spec fn bumped_parts(parts: (u32, u32, u32), kind: ReleaseKind) -> (nat, nat, nat) {
    match kind {
        ReleaseKind::Major => ((parts.0 + 1) as nat, 0, 0),
        ReleaseKind::Minor => (parts.0 as nat, (parts.1 + 1) as nat, 0),
        ReleaseKind::Patch => (parts.0 as nat, parts.1 as nat, (parts.2 + 1) as nat),
    }
}

/// Whether the component that a release increments is already `u32::MAX`,
/// so that the increment overflows.
pub open spec fn spec_bump_overflows(s: Seq<char>, kind: ReleaseKind) -> bool {
    let parts = spec_version_parts(s);
    match kind {
        ReleaseKind::Major => parts.0 == u32::MAX,
        ReleaseKind::Minor => parts.1 == u32::MAX,
        ReleaseKind::Patch => parts.2 == u32::MAX,
    }
}

/// `major.minor.patch` in decimal.
pub open spec fn render_version(parts: (nat, nat, nat)) -> Seq<char> {
    decimal(parts.0) + seq!['.'] + decimal(parts.1) + seq!['.'] + decimal(parts.2)
}

/// The version string that follows `s` for a release of the given kind.
pub open spec fn spec_next_version(s: Seq<char>, kind: ReleaseKind) -> Seq<char> {
    render_version(bumped_parts(spec_version_parts(s), kind))
}

/// The numbers of a version string, in order.
fn collect_numbers(chars: &Vec<char>) -> (ns: Vec<u32>)
    ensures
        ns@ == version_numbers(chars@),
{
    let n = chars.len();
    let mut ns: Vec<u32> = Vec::new();
    let mut start: usize = 0;
    let mut i: usize = 0;
    let ghost mut done: Seq<Seq<char>> = Seq::empty();
    assert(chars@.take(0) =~= Seq::<char>::empty());
    assert(chars@.subrange(0, 0) =~= Seq::<char>::empty());
    assert(split_on(Seq::<char>::empty(), '.') =~= done.push(Seq::<char>::empty()));
    while i < n
        invariant
            n == chars@.len(),
            start <= i <= n,
            split_on(chars@.take(i as int), '.') == done.push(chars@.subrange(start as int, i as int)),
            ns@ == parsed_numbers(done),
        decreases n - i,
    {
        let c = chars[i];
        let ghost prev = chars@.take(i as int);
        let ghost cur = chars@.take(i + 1);
        assert(cur.drop_last() =~= prev);
        assert(cur.last() == c);
        proof { lemma_split_on_nonempty(prev, '.'); }
        if c == '.' {
            let piece = parse_u32_range(chars, start, i);
            let ghost seg = chars@.subrange(start as int, i as int);
            proof {
                assert(done.push(seg).drop_last() =~= done);
                assert(done.push(seg).last() == seg);
            }
            match piece {
                Some(v) => {
                    ns.push(v);
                },
                None => {},
            }
            proof {
                done = done.push(seg);
            }
            start = i + 1;
            assert(chars@.subrange(start as int, i + 1) =~= Seq::<char>::empty());
        } else {
            assert(chars@.subrange(start as int, i + 1) =~= chars@.subrange(
                start as int,
                i as int,
            ).push(c));
            assert(split_on(cur, '.') =~= done.push(chars@.subrange(start as int, i + 1)));
        }
        i = i + 1;
    }
    assert(chars@.take(n as int) =~= chars@);
    let last = parse_u32_range(chars, start, n);
    let ghost seg = chars@.subrange(start as int, n as int);
    proof {
        assert(done.push(seg).drop_last() =~= done);
        assert(done.push(seg).last() == seg);
    }
    match last {
        Some(v) => {
            ns.push(v);
        },
        None => {},
    }
    ns
}

/// The major, minor and patch components of a version string.
pub fn version_parts(current_version: &str) -> (r: (u32, u32, u32))
    ensures
        r == spec_version_parts(current_version@),
{
    let chars = chars_of(current_version);
    let ns = collect_numbers(&chars);
    let major = if ns.len() > 0 { ns[0] } else { 0 };
    let minor = if ns.len() > 1 { ns[1] } else { 0 };
    let patch = if ns.len() > 2 { ns[2] } else { 0 };
    (major, minor, patch)
}

/// Whether a release of the given kind would overflow the component it
/// increments.
pub fn bump_overflows(current_version: &str, kind: &ReleaseKind) -> (r: bool)
    ensures
        r == spec_bump_overflows(current_version@, *kind),
{
    let (major, minor, patch) = version_parts(current_version);
    match kind {
        ReleaseKind::Major => major == 4294967295,
        ReleaseKind::Minor => minor == 4294967295,
        ReleaseKind::Patch => patch == 4294967295,
    }
}

/// The version that follows `current_version` for a release of the given
/// kind, as `major.minor.patch`.
pub fn get_next_version(current_version: &str, kind: &ReleaseKind) -> (next: String)
    requires
        !spec_bump_overflows(current_version@, *kind),
    ensures
        next@ == spec_next_version(current_version@, *kind),
{
    let (mut major, mut minor, mut patch) = version_parts(current_version);
    match kind {
        ReleaseKind::Major => {
            major = major + 1;
            minor = 0;
            patch = 0;
        },
        ReleaseKind::Minor => {
            minor = minor + 1;
            patch = 0;
        },
        ReleaseKind::Patch => {
            patch = patch + 1;
        },
    }
    let mut out = String::new();
    push_decimal(&mut out, major as u64);
    push_char(&mut out, '.');
    push_decimal(&mut out, minor as u64);
    push_char(&mut out, '.');
    push_decimal(&mut out, patch as u64);
    assert(out@ =~= spec_next_version(current_version@, *kind));
    out
}


/// Splitting at a separator that follows `x` splits `x` and the rest apart.
pub proof fn lemma_split_on_concat(x: Seq<char>, y: Seq<char>, sep: char)
    ensures
        split_on(x.push(sep) + y, sep) == split_on(x, sep) + split_on(y, sep),
    decreases y.len(),
{
    if y.len() == 0 {
        assert(x.push(sep) + y =~= x.push(sep));
        assert(x.push(sep).drop_last() =~= x);
        assert(split_on(x, sep) + split_on(y, sep) =~= split_on(x, sep).push(Seq::<char>::empty()));
    } else {
        let y0 = y.drop_last();
        let whole = x.push(sep) + y;
        assert(whole.drop_last() =~= x.push(sep) + y0);
        assert(whole.last() == y.last());
        lemma_split_on_concat(x, y0, sep);
        lemma_split_on_nonempty(y0, sep);
        lemma_split_on_nonempty(x, sep);
        let a = split_on(x, sep);
        let b = split_on(y0, sep);
        if y.last() == sep {
            assert((a + b).push(Seq::<char>::empty()) =~= a + b.push(Seq::<char>::empty()));
        } else {
            assert((a + b).update((a + b).len() - 1, (a + b).last().push(y.last())) =~= a + b.update(
                b.len() - 1,
                b.last().push(y.last()),
            ));
        }
    }
}

/// A string of digits is a single piece when split at a dot.
pub proof fn lemma_split_digits(x: Seq<char>)
    requires
        all_digits(x),
    ensures
        split_on(x, '.') == seq![x],
    decreases x.len(),
{
    if x.len() == 0 {
        assert(x =~= Seq::<char>::empty());
    } else {
        let x0 = x.drop_last();
        assert(all_digits(x0)) by {
            assert forall|i: int| 0 <= i < x0.len() implies #[trigger] is_digit(x0[i]) by {
                assert(is_digit(x[i]));
            }
        }
        assert(is_digit(x[x.len() - 1]));
        lemma_split_digits(x0);
        assert(x0.push(x.last()) =~= x);
        assert(x.last() != '.');
        assert(x.drop_last() == x0);
        assert(split_on(x, '.') == seq![x0].update(0, x0.push(x.last())));
        assert(split_on(x, '.') =~= seq![x]);
    }
}

/// The numbers of consecutive pieces are the numbers of each part in turn.
pub proof fn lemma_parsed_numbers_concat(a: Seq<Seq<char>>, b: Seq<Seq<char>>)
    ensures
        parsed_numbers(a + b) == parsed_numbers(a) + parsed_numbers(b),
    decreases b.len(),
{
    if b.len() == 0 {
        assert(a + b =~= a);
        assert(parsed_numbers(a) + parsed_numbers(b) =~= parsed_numbers(a));
    } else {
        let b0 = b.drop_last();
        assert((a + b).drop_last() =~= a + b0);
        assert((a + b).last() == b.last());
        lemma_parsed_numbers_concat(a, b0);
        match parse_u32_spec(b.last()) {
            Some(v) => {
                assert((parsed_numbers(a) + parsed_numbers(b0)).push(v) =~= parsed_numbers(a)
                    + parsed_numbers(b0).push(v));
            },
            None => {},
        }
    }
}

/// The numbers of `major.minor.patch` rendered in decimal are those three.
pub proof fn lemma_numbers_of_rendered(a: u32, b: u32, c: u32)
    ensures
        version_numbers(render_version((a as nat, b as nat, c as nat))) == seq![a, b, c],
{
    let da = decimal(a as nat);
    let db = decimal(b as nat);
    let dc = decimal(c as nat);
    lemma_decimal_digits(a as nat);
    lemma_decimal_digits(b as nat);
    lemma_decimal_digits(c as nat);
    lemma_parse_decimal(a);
    lemma_parse_decimal(b);
    lemma_parse_decimal(c);
    let s = render_version((a as nat, b as nat, c as nat));
    assert(s =~= (da.push('.') + db).push('.') + dc);
    lemma_split_on_concat(da.push('.') + db, dc, '.');
    lemma_split_on_concat(da, db, '.');
    lemma_split_digits(da);
    lemma_split_digits(db);
    lemma_split_digits(dc);
    assert(split_on(s, '.') =~= seq![da, db, dc]);
    let p = seq![da, db, dc];
    assert(p.drop_last() =~= seq![da, db]);
    assert(seq![da, db].drop_last() =~= seq![da]);
    assert(seq![da].drop_last() =~= Seq::<Seq<char>>::empty());
    assert(seq![da].last() == da);
    assert(seq![da, db].last() == db);
    assert(p.last() == dc);
    assert(parsed_numbers(Seq::<Seq<char>>::empty()) =~= Seq::<u32>::empty());
    assert(parsed_numbers(seq![da]) =~= seq![a]);
    assert(parsed_numbers(seq![da, db]) =~= seq![a, b]);
    assert(parsed_numbers(p) =~= seq![a, b, c]);
}

/// Reading back a rendered `major.minor.patch` gives the same components.
pub proof fn lemma_parts_of_rendered(a: u32, b: u32, c: u32)
    ensures
        spec_version_parts(render_version((a as nat, b as nat, c as nat))) == (a, b, c),
{
    lemma_numbers_of_rendered(a, b, c);
}

/// The next version is always a canonical `major.minor.patch` whose
/// components read back as the incremented ones.
pub proof fn lemma_next_version_reads_back(s: Seq<char>, kind: ReleaseKind)
    requires
        !spec_bump_overflows(s, kind),
    ensures
        ({
            let n = bumped_parts(spec_version_parts(s), kind);
            spec_version_parts(spec_next_version(s, kind)) == (n.0 as u32, n.1 as u32, n.2 as u32)
        }),
{
    let n = bumped_parts(spec_version_parts(s), kind);
    lemma_parts_of_rendered(n.0 as u32, n.1 as u32, n.2 as u32);
}

/// Semantic versioning on a well-formed version: a major release gives
/// `(a+1).0.0`, a minor release `a.(b+1).0` and a patch release `a.b.(c+1)`.
pub proof fn lemma_semver_bump(a: u32, b: u32, c: u32, kind: ReleaseKind)
    requires
        !spec_bump_overflows(render_version((a as nat, b as nat, c as nat)), kind),
    ensures
        spec_next_version(render_version((a as nat, b as nat, c as nat)), kind) == match kind {
            ReleaseKind::Major => render_version(((a + 1) as nat, 0, 0)),
            ReleaseKind::Minor => render_version((a as nat, (b + 1) as nat, 0)),
            ReleaseKind::Patch => render_version((a as nat, b as nat, (c + 1) as nat)),
        },
{
    lemma_parts_of_rendered(a, b, c);
}

/// Lexicographic order on `major.minor.patch` components.
pub open spec fn parts_less(x: (nat, nat, nat), y: (nat, nat, nat)) -> bool {
    x.0 < y.0 || (x.0 == y.0 && (x.1 < y.1 || (x.1 == y.1 && x.2 < y.2)))
}

/// Every release moves to a strictly greater version.
pub proof fn lemma_next_version_increases(s: Seq<char>, kind: ReleaseKind)
    requires
        !spec_bump_overflows(s, kind),
    ensures
        ({
            let p = spec_version_parts(s);
            let q = spec_version_parts(spec_next_version(s, kind));
            parts_less((p.0 as nat, p.1 as nat, p.2 as nat), (q.0 as nat, q.1 as nat, q.2 as nat))
        }),
{
    lemma_next_version_reads_back(s, kind);
}

} // verus!
