//! Entry-point discovery: a lexical scan of a game module's entry source
//! text. It collects, ordered by first occurrence and deduplicated, every
//! name that follows the publicly-exported-function pattern
//! (`pub`, whitespace, `fn`, whitespace, identifier), and then every name
//! that follows the explicit export marker pattern
//! (`#`, `[`, the marker word, `]`, then the exported-function pattern),
//! with the exported-function names taking precedence in ordering.
//! The scan is purely lexical: no arity or return type is inspected.

use crate::text::{
    chars_of, find_ident_end, find_skip_spaces, ident_end, lemma_ident_end_bounds,
    lemma_skip_spaces_bounds, skip_spaces,
};
use vstd::prelude::*;
use vstd::string::{StrSliceExecFns, StringExecFns};

verus! {

/// A match of the exported-function pattern starting at position `i`:
/// `pub`, at least one whitespace character, `fn`, at least one
/// whitespace character, then a maximal identifier run of at least one
/// character. Returns the start and end positions of the name.
pub open spec fn pub_fn_match_at(t: Seq<char>, i: int) -> Option<(int, int)>
    recommends
        0 <= i <= t.len(),
{
    if i + 3 <= t.len() && t[i] == 'p' && t[i + 1] == 'u' && t[i + 2] == 'b' {
        let a = skip_spaces(t, i + 3);
        if a == i + 3 {
            None
        } else if a + 2 <= t.len() && t[a] == 'f' && t[a + 1] == 'n' {
            let b = skip_spaces(t, a + 2);
            if b == a + 2 {
                None
            } else {
                let e = ident_end(t, b);
                if e == b {
                    None
                } else {
                    Some((b, e))
                }
            }
        } else {
            None
        }
    } else {
        None
    }
}

pub proof fn lemma_pub_fn_match_bounds(t: Seq<char>, i: int)
    requires
        0 <= i <= t.len(),
        pub_fn_match_at(t, i) is Some,
    ensures
        i < pub_fn_match_at(t, i)->Some_0.0,
        pub_fn_match_at(t, i)->Some_0.0 < pub_fn_match_at(t, i)->Some_0.1,
        pub_fn_match_at(t, i)->Some_0.1 <= t.len(),
{
    lemma_skip_spaces_bounds(t, i + 3);
    let a = skip_spaces(t, i + 3);
    assert(a + 2 <= t.len());
    lemma_skip_spaces_bounds(t, a + 2);
    let b = skip_spaces(t, a + 2);
    lemma_ident_end_bounds(t, b);
}

/// The explicit export marker word, spelled out at position `i`.
pub open spec fn marker_at(t: Seq<char>, i: int) -> bool {
    &&& i + 13 <= t.len()
    &&& t[i] == 'p'
    &&& t[i + 1] == 'a'
    &&& t[i + 2] == 'n'
    &&& t[i + 3] == 'p'
    &&& t[i + 4] == 'a'
    &&& t[i + 5] == 'n'
    &&& t[i + 6] == '_'
    &&& t[i + 7] == 'e'
    &&& t[i + 8] == 'x'
    &&& t[i + 9] == 'p'
    &&& t[i + 10] == 'o'
    &&& t[i + 11] == 'r'
    &&& t[i + 12] == 't'
}

/// A match of the explicit export pattern starting at position `i`:
/// `#`, optional whitespace, `[`, optional whitespace, the marker word,
/// optional whitespace, `]`, optional whitespace, then the
/// exported-function pattern. Returns the name's start and end positions.
pub open spec fn marker_match_at(t: Seq<char>, i: int) -> Option<(int, int)>
    recommends
        0 <= i <= t.len(),
{
    if i < t.len() && t[i] == '#' {
        let a = skip_spaces(t, i + 1);
        if a < t.len() && t[a] == '[' {
            let b = skip_spaces(t, a + 1);
            if marker_at(t, b) {
                let c = skip_spaces(t, b + 13);
                if c < t.len() && t[c] == ']' {
                    let d = skip_spaces(t, c + 1);
                    pub_fn_match_at(t, d)
                } else {
                    None
                }
            } else {
                None
            }
        } else {
            None
        }
    } else {
        None
    }
}

pub proof fn lemma_marker_match_bounds(t: Seq<char>, i: int)
    requires
        0 <= i <= t.len(),
        marker_match_at(t, i) is Some,
    ensures
        i < marker_match_at(t, i)->Some_0.0,
        marker_match_at(t, i)->Some_0.0 < marker_match_at(t, i)->Some_0.1,
        marker_match_at(t, i)->Some_0.1 <= t.len(),
{
    lemma_skip_spaces_bounds(t, i + 1);
    let a = skip_spaces(t, i + 1);
    lemma_skip_spaces_bounds(t, a + 1);
    let b = skip_spaces(t, a + 1);
    assert(b + 13 <= t.len());
    lemma_skip_spaces_bounds(t, b + 13);
    let c = skip_spaces(t, b + 13);
    lemma_skip_spaces_bounds(t, c + 1);
    let d = skip_spaces(t, c + 1);
    lemma_pub_fn_match_bounds(t, d);
}

/// All names of exported-function matches, scanning left to right and
/// resuming each scan at the end of the previous match.
pub open spec fn pub_fn_names_from(t: Seq<char>, i: int) -> Seq<Seq<char>>
    recommends
        0 <= i <= t.len(),
    decreases t.len() - i when 0 <= i <= t.len() via pub_fn_names_from_dec
{
    if i >= t.len() {
        Seq::empty()
    } else {
        match pub_fn_match_at(t, i) {
            Some(m) => seq![t.subrange(m.0, m.1)] + pub_fn_names_from(t, m.1),
            None => pub_fn_names_from(t, i + 1),
        }
    }
}

#[via_fn]
proof fn pub_fn_names_from_dec(t: Seq<char>, i: int) {
    if i < t.len() && pub_fn_match_at(t, i) is Some {
        lemma_pub_fn_match_bounds(t, i);
    }
}

/// All names of explicit-export matches, scanning left to right.
pub open spec fn marker_names_from(t: Seq<char>, i: int) -> Seq<Seq<char>>
    recommends
        0 <= i <= t.len(),
    decreases t.len() - i when 0 <= i <= t.len() via marker_names_from_dec
{
    if i >= t.len() {
        Seq::empty()
    } else {
        match marker_match_at(t, i) {
            Some(m) => seq![t.subrange(m.0, m.1)] + marker_names_from(t, m.1),
            None => marker_names_from(t, i + 1),
        }
    }
}

#[via_fn]
proof fn marker_names_from_dec(t: Seq<char>, i: int) {
    if i < t.len() && marker_match_at(t, i) is Some {
        lemma_marker_match_bounds(t, i);
    }
}

/// Appends `n` to `acc` unless `acc` already holds it.
pub open spec fn push_unique(acc: Seq<Seq<char>>, n: Seq<char>) -> Seq<Seq<char>> {
    if acc.contains(n) {
        acc
    } else {
        acc.push(n)
    }
}

/// Appends each name of `names`, in order, unless already present.
pub open spec fn append_unique(acc: Seq<Seq<char>>, names: Seq<Seq<char>>) -> Seq<Seq<char>>
    decreases names.len(),
{
    if names.len() == 0 {
        acc
    } else {
        append_unique(push_unique(acc, names[0]), names.drop_first())
    }
}

pub proof fn lemma_append_unique_one(acc: Seq<Seq<char>>, n: Seq<char>)
    ensures
        append_unique(acc, seq![n]) == push_unique(acc, n),
{
    assert(seq![n].len() == 1);
    assert(seq![n][0] == n);
    assert(seq![n].drop_first() =~= Seq::<Seq<char>>::empty());
    assert(append_unique(push_unique(acc, n), Seq::<Seq<char>>::empty()) == push_unique(acc, n));
}

pub proof fn lemma_append_unique_concat(acc: Seq<Seq<char>>, s1: Seq<Seq<char>>, s2: Seq<Seq<char>>)
    ensures
        append_unique(acc, s1 + s2) == append_unique(append_unique(acc, s1), s2),
    decreases s1.len(),
{
    if s1.len() == 0 {
        assert(s1 + s2 =~= s2);
    } else {
        assert((s1 + s2)[0] == s1[0]);
        assert((s1 + s2).drop_first() =~= s1.drop_first() + s2);
        lemma_append_unique_concat(push_unique(acc, s1[0]), s1.drop_first(), s2);
    }
}

pub proof fn lemma_append_unique_membership(acc: Seq<Seq<char>>, names: Seq<Seq<char>>)
    ensures
        forall|n: Seq<char>|
            #[trigger] append_unique(acc, names).contains(n) <==> acc.contains(n)
                || names.contains(n),
    decreases names.len(),
{
    broadcast use vstd::seq_lib::lemma_seq_contains_after_push;

    if names.len() > 0 {
        lemma_append_unique_membership(push_unique(acc, names[0]), names.drop_first());
        assert forall|n: Seq<char>|
            names.contains(n) <==> (names[0] == n || names.drop_first().contains(n)) by {
            if names.contains(n) {
                let i = choose|i: int| 0 <= i < names.len() && names[i] == n;
                if i > 0 {
                    assert(names.drop_first()[i - 1] == n);
                }
            }
            if names.drop_first().contains(n) {
                let i = choose|i: int|
                    0 <= i < names.drop_first().len() && names.drop_first()[i] == n;
                assert(names[i + 1] == n);
            }
            if names[0] == n {
                assert(names.contains(n));
            }
        }
        assert forall|n: Seq<char>|
            #[trigger] push_unique(acc, names[0]).contains(n) <==> acc.contains(n) || names[0]
                == n by {
            if !acc.contains(names[0]) {
                assert(acc.push(names[0]).contains(n) <==> names[0] == n || acc.contains(n));
            }
        }
        assert(append_unique(acc, names) == append_unique(
            push_unique(acc, names[0]),
            names.drop_first(),
        ));
        assert forall|n: Seq<char>|
            #[trigger] append_unique(acc, names).contains(n) <==> acc.contains(n)
                || names.contains(n) by {
            assert(append_unique(push_unique(acc, names[0]), names.drop_first()).contains(n)
                <==> push_unique(acc, names[0]).contains(n) || names.drop_first().contains(n));
            assert(push_unique(acc, names[0]).contains(n) <==> acc.contains(n) || names[0] == n);
            assert(names.contains(n) <==> (names[0] == n || names.drop_first().contains(n)));
        }
    }
}

pub proof fn lemma_append_unique_no_duplicates(acc: Seq<Seq<char>>, names: Seq<Seq<char>>)
    requires
        acc.no_duplicates(),
    ensures
        append_unique(acc, names).no_duplicates(),
    decreases names.len(),
{
    if names.len() > 0 {
        let nm = names[0];
        if !acc.contains(nm) {
            assert forall|i: int, j: int|
                0 <= i < acc.push(nm).len() && 0 <= j < acc.push(nm).len() && i != j implies acc.push(
                nm,
            )[i] != acc.push(nm)[j] by {
                if i < acc.len() && j < acc.len() {
                    assert(acc[i] != acc[j]);
                } else if j == acc.len() && acc.push(nm)[i] == nm {
                    assert(acc.contains(nm));
                } else if i == acc.len() && acc.push(nm)[j] == nm {
                    assert(acc.contains(nm));
                }
            }
        }
        lemma_append_unique_no_duplicates(push_unique(acc, nm), names.drop_first());
    }
}

pub proof fn lemma_append_unique_prefix(acc: Seq<Seq<char>>, names: Seq<Seq<char>>)
    ensures
        append_unique(acc, names).len() >= acc.len(),
        forall|i: int| 0 <= i < acc.len() ==> #[trigger] append_unique(acc, names)[i] == acc[i],
    decreases names.len(),
{
    if names.len() > 0 {
        lemma_append_unique_prefix(push_unique(acc, names[0]), names.drop_first());
    }
}

/// The exported-function names take precedence in ordering: the marker
/// pass only appends, so the discovered sequence opens with the
/// deduplicated exported-function names, in first-occurrence order.
pub proof fn lemma_exported_names_first(t: Seq<char>)
    ensures
        ({
            let base = append_unique(Seq::empty(), pub_fn_names_from(t, 0));
            &&& discovered_entry_points(t).len() >= base.len()
            &&& forall|i: int|
                0 <= i < base.len() ==> #[trigger] discovered_entry_points(t)[i] == base[i]
        }),
{
    lemma_append_unique_prefix(
        append_unique(Seq::empty(), pub_fn_names_from(t, 0)),
        marker_names_from(t, 0),
    );
}

/// Discovery returns a set: it holds exactly the names its two scans
/// found — every exported-function and marker match is represented, and
/// nothing else is — and holds each name once.
pub proof fn lemma_discovered_entry_points_set(t: Seq<char>)
    ensures
        forall|n: Seq<char>|
            #[trigger] discovered_entry_points(t).contains(n) <==> pub_fn_names_from(
                t,
                0,
            ).contains(n) || marker_names_from(t, 0).contains(n),
        discovered_entry_points(t).no_duplicates(),
{
    let base = append_unique(Seq::empty(), pub_fn_names_from(t, 0));
    lemma_append_unique_membership(Seq::empty(), pub_fn_names_from(t, 0));
    lemma_append_unique_membership(base, marker_names_from(t, 0));
    lemma_append_unique_no_duplicates(Seq::empty(), pub_fn_names_from(t, 0));
    lemma_append_unique_no_duplicates(base, marker_names_from(t, 0));
}

/// The discovered entry points of a module's entry source text: the
/// exported-function names first, then the explicitly marked names,
/// each deduplicated by first occurrence.
pub open spec fn discovered_entry_points(t: Seq<char>) -> Seq<Seq<char>> {
    append_unique(
        append_unique(Seq::empty(), pub_fn_names_from(t, 0)),
        marker_names_from(t, 0),
    )
}

/// Discovery is a function of the source text alone: repeating it on
/// unchanged text yields the same ordered entry-point sequence.
pub proof fn lemma_discovery_idempotent(t1: Seq<char>, t2: Seq<char>)
    requires
        t1 == t2,
    ensures
        discovered_entry_points(t1) == discovered_entry_points(t2),
{
}

fn try_pub_fn_match(t: &Vec<char>, i: usize) -> (r: Option<(usize, usize)>)
    requires
        i <= t@.len(),
    ensures
        match r {
            Some(p) => {
                &&& pub_fn_match_at(t@, i as int) == Some((p.0 as int, p.1 as int))
                &&& i < p.0 < p.1 <= t@.len()
            },
            None => pub_fn_match_at(t@, i as int) is None,
        },
{
    let n = t.len();
    if n >= 3 && i <= n - 3 && t[i] == 'p' && t[i + 1] == 'u' && t[i + 2] == 'b' {
        let a = find_skip_spaces(t, i + 3);
        if a == i + 3 {
            None
        } else if a <= n - 2 && t[a] == 'f' && t[a + 1] == 'n' {
            let b = find_skip_spaces(t, a + 2);
            if b == a + 2 {
                None
            } else {
                let e = find_ident_end(t, b);
                if e == b {
                    None
                } else {
                    proof {
                        lemma_pub_fn_match_bounds(t@, i as int);
                    }
                    Some((b, e))
                }
            }
        } else {
            None
        }
    } else {
        None
    }
}

fn check_marker_word(t: &Vec<char>, b: usize) -> (r: bool)
    requires
        b <= t@.len(),
    ensures
        r == marker_at(t@, b as int),
{
    let n = t.len();
    n >= 13 && b <= n - 13 && t[b] == 'p' && t[b + 1] == 'a' && t[b + 2] == 'n' && t[b + 3] == 'p'
        && t[b + 4] == 'a' && t[b + 5] == 'n' && t[b + 6] == '_' && t[b + 7] == 'e' && t[b + 8]
        == 'x' && t[b + 9] == 'p' && t[b + 10] == 'o' && t[b + 11] == 'r' && t[b + 12] == 't'
}

fn try_marker_match(t: &Vec<char>, i: usize) -> (r: Option<(usize, usize)>)
    requires
        i <= t@.len(),
    ensures
        match r {
            Some(p) => {
                &&& marker_match_at(t@, i as int) == Some((p.0 as int, p.1 as int))
                &&& i < p.0 < p.1 <= t@.len()
            },
            None => marker_match_at(t@, i as int) is None,
        },
{
    let n = t.len();
    if i < n && t[i] == '#' {
        let a = find_skip_spaces(t, i + 1);
        if a < n && t[a] == '[' {
            let b = find_skip_spaces(t, a + 1);
            if check_marker_word(t, b) {
                let c = find_skip_spaces(t, b + 13);
                if c < n && t[c] == ']' {
                    let d = find_skip_spaces(t, c + 1);
                    let m = try_pub_fn_match(t, d);
                    proof {
                        if m is Some {
                            lemma_marker_match_bounds(t@, i as int);
                        }
                    }
                    m
                } else {
                    None
                }
            } else {
                None
            }
        } else {
            None
        }
    } else {
        None
    }
}

fn string_eq(a: &String, b: &String) -> (r: bool)
    ensures
        r == (a@ == b@),
{
    a.eq(b)
}

/// Appends `name` to `out` unless an equal name is already present.
fn push_if_absent(out: &mut Vec<String>, name: String)
    ensures
        final(out).deep_view() == push_unique(old(out).deep_view(), name@),
{
    let n = out.len();
    let mut k: usize = 0;
    let mut found = false;
    while k < n
        invariant
            k <= n,
            n == out@.len(),
            *out == *old(out),
            found == exists|j: int| 0 <= j < k && out@[j]@ == name@,
        decreases n - k,
    {
        if string_eq(&out[k], &name) {
            found = true;
        }
        k += 1;
    }
    proof {
        assert(out.deep_view().len() == out@.len());
        assert forall|j: int| 0 <= j < out@.len() implies out.deep_view()[j] == out@[j]@ by {}
        if found {
            let j = choose|j: int| 0 <= j < out@.len() && out@[j]@ == name@;
            assert(out.deep_view()[j] == name@);
            assert(out.deep_view().contains(name@));
        } else if out.deep_view().contains(name@) {
            let j = choose|j: int|
                0 <= j < out.deep_view().len() && out.deep_view()[j] == name@;
            assert(out@[j]@ == name@);
        }
        assert(found == out.deep_view().contains(name@));
    }
    if !found {
        out.push(name);
        proof {
            assert(out.deep_view() =~= push_unique(old(out).deep_view(), name@));
        }
    }
}

/// Scans a module's entry source text and returns the discovered
/// exportable entry-point names, ordered by first occurrence with
/// exported-function names first, deduplicated.
pub fn parse_exportable_functions(src: &str) -> (r: Vec<String>)
    ensures
        r.deep_view() == discovered_entry_points(src@),
{
    let chars = chars_of(src);
    let n = chars.len();
    let mut out: Vec<String> = Vec::new();
    let ghost t = src@;

    let mut i: usize = 0;
    let ghost mut scanned: Seq<Seq<char>> = Seq::empty();
    while i < n
        invariant
            chars@ == t,
            src@ == t,
            n == t.len(),
            i <= n,
            out.deep_view() == append_unique(Seq::empty(), scanned),
            pub_fn_names_from(t, 0) == scanned + pub_fn_names_from(t, i as int),
        decreases n - i,
    {
        match try_pub_fn_match(&chars, i) {
            Some((ns, ne)) => {
                let name_str = src.substring_char(ns, ne);
                let name = String::from_str(name_str);
                proof {
                    let ghost nm = t.subrange(ns as int, ne as int);
                    assert(pub_fn_names_from(t, i as int) =~= seq![nm] + pub_fn_names_from(
                        t,
                        ne as int,
                    ));
                    lemma_append_unique_concat(Seq::empty(), scanned, seq![nm]);
                    lemma_append_unique_one(out.deep_view(), nm);
                    assert((scanned + seq![nm]) + pub_fn_names_from(t, ne as int) =~= scanned + (
                    seq![nm] + pub_fn_names_from(t, ne as int)));
                    scanned = scanned + seq![nm];
                }
                push_if_absent(&mut out, name);
                i = ne;
            },
            None => {
                proof {
                    assert(pub_fn_names_from(t, i as int) == pub_fn_names_from(t, i as int + 1));
                }
                i += 1;
            },
        }
    }
    proof {
        assert(pub_fn_names_from(t, n as int) =~= Seq::<Seq<char>>::empty());
        assert(scanned + pub_fn_names_from(t, n as int) =~= scanned);
        assert(scanned == pub_fn_names_from(t, 0));
    }

    let ghost base = append_unique(Seq::empty(), pub_fn_names_from(t, 0));
    let mut i: usize = 0;
    let ghost mut mscanned: Seq<Seq<char>> = Seq::empty();
    while i < n
        invariant
            chars@ == t,
            src@ == t,
            n == t.len(),
            i <= n,
            out.deep_view() == append_unique(base, mscanned),
            marker_names_from(t, 0) == mscanned + marker_names_from(t, i as int),
        decreases n - i,
    {
        match try_marker_match(&chars, i) {
            Some((ns, ne)) => {
                let name_str = src.substring_char(ns, ne);
                let name = String::from_str(name_str);
                proof {
                    let ghost nm = t.subrange(ns as int, ne as int);
                    assert(marker_names_from(t, i as int) =~= seq![nm] + marker_names_from(
                        t,
                        ne as int,
                    ));
                    lemma_append_unique_concat(base, mscanned, seq![nm]);
                    lemma_append_unique_one(out.deep_view(), nm);
                    assert((mscanned + seq![nm]) + marker_names_from(t, ne as int) =~= mscanned + (
                    seq![nm] + marker_names_from(t, ne as int)));
                    mscanned = mscanned + seq![nm];
                }
                push_if_absent(&mut out, name);
                i = ne;
            },
            None => {
                proof {
                    assert(marker_names_from(t, i as int) == marker_names_from(t, i as int + 1));
                }
                i += 1;
            },
        }
    }
    proof {
        assert(marker_names_from(t, n as int) =~= Seq::<Seq<char>>::empty());
        assert(mscanned + marker_names_from(t, n as int) =~= mscanned);
        assert(mscanned == marker_names_from(t, 0));
    }
    out
}

} // verus!
