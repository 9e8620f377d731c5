//! Character-level text utilities shared by entry-point discovery and
//! manifest-name detection: character classes, maximal runs, trimming.

use vstd::prelude::*;
use vstd::string::{StrSliceExecFns, StringExecFns};

verus! {

/// Identifier characters of the discovery patterns: ASCII letters,
/// digits and underscore.
pub open spec fn is_ident_char(c: char) -> bool {
    ('a' <= c && c <= 'z') || ('A' <= c && c <= 'Z') || ('0' <= c && c <= '9') || c == '_'
}

/// Whitespace as the discovery and manifest patterns accept it:
/// the ASCII whitespace characters.
pub open spec fn is_space_char(c: char) -> bool {
    c == ' ' || c == '\t' || c == '\n' || c == '\r' || c == '\u{b}' || c == '\u{c}'
}

pub fn ident_char(c: char) -> (r: bool)
    ensures
        r == is_ident_char(c),
{
    ('a' <= c && c <= 'z') || ('A' <= c && c <= 'Z') || ('0' <= c && c <= '9') || c == '_'
}

pub fn space_char(c: char) -> (r: bool)
    ensures
        r == is_space_char(c),
{
    c == ' ' || c == '\t' || c == '\n' || c == '\r' || c == '\u{b}' || c == '\u{c}'
}

/// The characters of `s` as a vector, one element per character.
pub fn chars_of(s: &str) -> (r: Vec<char>)
    ensures
        r@ == s@,
{
    let n = s.unicode_len();
    let mut v: Vec<char> = Vec::new();
    let mut i: usize = 0;
    while i < n
        invariant
            n == s@.len(),
            i <= n,
            v@ == s@.subrange(0, i as int),
        decreases n - i,
    {
        v.push(s.get_char(i));
        i += 1;
        proof {
            assert(v@ =~= s@.subrange(0, i as int));
        }
    }
    proof {
        assert(v@ =~= s@);
    }
    v
}

/// The first position at or after `i` that does not hold whitespace
/// (the length of `t` if all of the rest is whitespace).
pub open spec fn skip_spaces(t: Seq<char>, i: int) -> int
    recommends
        0 <= i <= t.len(),
    decreases t.len() - i when 0 <= i <= t.len()
{
    if i < t.len() && is_space_char(t[i]) {
        skip_spaces(t, i + 1)
    } else {
        i
    }
}

/// The end of the maximal identifier-character run that starts at `i`.
pub open spec fn ident_end(t: Seq<char>, i: int) -> int
    recommends
        0 <= i <= t.len(),
    decreases t.len() - i when 0 <= i <= t.len()
{
    if i < t.len() && is_ident_char(t[i]) {
        ident_end(t, i + 1)
    } else {
        i
    }
}

pub proof fn lemma_skip_spaces_bounds(t: Seq<char>, i: int)
    requires
        0 <= i <= t.len(),
    ensures
        i <= skip_spaces(t, i) <= t.len(),
    decreases t.len() - i,
{
    if i < t.len() && is_space_char(t[i]) {
        lemma_skip_spaces_bounds(t, i + 1);
    }
}

pub proof fn lemma_ident_end_bounds(t: Seq<char>, i: int)
    requires
        0 <= i <= t.len(),
    ensures
        i <= ident_end(t, i) <= t.len(),
    decreases t.len() - i,
{
    if i < t.len() && is_ident_char(t[i]) {
        lemma_ident_end_bounds(t, i + 1);
    }
}

/// The first position at or after `i` that holds `c` (the length of
/// `t` if none does).
pub open spec fn find_char(t: Seq<char>, i: int, c: char) -> int
    recommends
        0 <= i <= t.len(),
    decreases t.len() - i when 0 <= i <= t.len()
{
    if i < t.len() {
        if t[i] == c {
            i
        } else {
            find_char(t, i + 1, c)
        }
    } else {
        i
    }
}

pub proof fn lemma_find_char_bounds(t: Seq<char>, i: int, c: char)
    requires
        0 <= i <= t.len(),
    ensures
        i <= find_char(t, i, c) <= t.len(),
    decreases t.len() - i,
{
    if i < t.len() && t[i] != c {
        lemma_find_char_bounds(t, i + 1, c);
    }
}

pub proof fn lemma_find_char_holds(t: Seq<char>, i: int, c: char)
    requires
        0 <= i <= t.len(),
    ensures
        forall|k: int| i <= k < find_char(t, i, c) ==> t[k] != c,
        find_char(t, i, c) < t.len() ==> t[find_char(t, i, c)] == c,
    decreases t.len() - i,
{
    lemma_find_char_bounds(t, i, c);
    if i < t.len() && t[i] != c {
        lemma_find_char_holds(t, i + 1, c);
    }
}

/// The start of the maximal whitespace run that ends at `j`.
pub open spec fn space_run_start(t: Seq<char>, j: int) -> int
    recommends
        0 <= j <= t.len(),
    decreases j when 0 <= j <= t.len()
{
    if j > 0 && is_space_char(t[j - 1]) {
        space_run_start(t, j - 1)
    } else {
        j
    }
}

/// The first position at or after `i` that does not hold a quote.
pub open spec fn skip_quotes(t: Seq<char>, i: int) -> int
    recommends
        0 <= i <= t.len(),
    decreases t.len() - i when 0 <= i <= t.len()
{
    if i < t.len() && t[i] == '"' {
        skip_quotes(t, i + 1)
    } else {
        i
    }
}

/// The start of the maximal quote run that ends at `j`.
pub open spec fn quote_run_start(t: Seq<char>, j: int) -> int
    recommends
        0 <= j <= t.len(),
    decreases j when 0 <= j <= t.len()
{
    if j > 0 && t[j - 1] == '"' {
        quote_run_start(t, j - 1)
    } else {
        j
    }
}

/// `s` with leading and trailing whitespace removed.
pub open spec fn trim_spaces(s: Seq<char>) -> Seq<char> {
    let st = skip_spaces(s, 0);
    let en = space_run_start(s, s.len() as int);
    if st <= en {
        s.subrange(st, en)
    } else {
        Seq::empty()
    }
}

/// `s` with leading and trailing quote characters removed.
pub open spec fn trim_quotes(s: Seq<char>) -> Seq<char> {
    let st = skip_quotes(s, 0);
    let en = quote_run_start(s, s.len() as int);
    if st <= en {
        s.subrange(st, en)
    } else {
        Seq::empty()
    }
}

/// Advances past whitespace, as `skip_spaces` describes.
pub fn find_skip_spaces(t: &Vec<char>, i: usize) -> (r: usize)
    requires
        i <= t@.len(),
    ensures
        r == skip_spaces(t@, i as int),
        i <= r <= t@.len(),
{
    let n = t.len();
    let mut j = i;
    while j < n && space_char(t[j])
        invariant
            i <= j <= n,
            n == t@.len(),
            skip_spaces(t@, i as int) == skip_spaces(t@, j as int),
        decreases n - j,
    {
        j += 1;
    }
    j
}

/// Advances past identifier characters, as `ident_end` describes.
pub fn find_ident_end(t: &Vec<char>, i: usize) -> (r: usize)
    requires
        i <= t@.len(),
    ensures
        r == ident_end(t@, i as int),
        i <= r <= t@.len(),
{
    let n = t.len();
    let mut j = i;
    while j < n && ident_char(t[j])
        invariant
            i <= j <= n,
            n == t@.len(),
            ident_end(t@, i as int) == ident_end(t@, j as int),
        decreases n - j,
    {
        j += 1;
    }
    j
}

/// Finds the next occurrence of `c`, as `find_char` describes.
pub fn find_char_from(t: &Vec<char>, i: usize, c: char) -> (r: usize)
    requires
        i <= t@.len(),
    ensures
        r == find_char(t@, i as int, c),
        i <= r <= t@.len(),
{
    let n = t.len();
    let mut j = i;
    while j < n && t[j] != c
        invariant
            i <= j <= n,
            n == t@.len(),
            find_char(t@, i as int, c) == find_char(t@, j as int, c),
        decreases n - j,
    {
        j += 1;
    }
    j
}

/// Steps back over whitespace, as `space_run_start` describes.
pub fn find_space_run_start(t: &Vec<char>, j: usize) -> (r: usize)
    requires
        j <= t@.len(),
    ensures
        r == space_run_start(t@, j as int),
        r <= j,
{
    let mut k = j;
    while k > 0 && space_char(t[k - 1])
        invariant
            k <= j <= t@.len(),
            space_run_start(t@, j as int) == space_run_start(t@, k as int),
        decreases k,
    {
        k -= 1;
    }
    k
}

/// Advances past quotes, as `skip_quotes` describes.
pub fn find_skip_quotes(t: &Vec<char>, i: usize) -> (r: usize)
    requires
        i <= t@.len(),
    ensures
        r == skip_quotes(t@, i as int),
        i <= r <= t@.len(),
{
    let n = t.len();
    let mut j = i;
    while j < n && t[j] == '"'
        invariant
            i <= j <= n,
            n == t@.len(),
            skip_quotes(t@, i as int) == skip_quotes(t@, j as int),
        decreases n - j,
    {
        j += 1;
    }
    j
}

/// Steps back over quotes, as `quote_run_start` describes.
pub fn find_quote_run_start(t: &Vec<char>, j: usize) -> (r: usize)
    requires
        j <= t@.len(),
    ensures
        r == quote_run_start(t@, j as int),
        r <= j,
{
    let mut k = j;
    while k > 0 && t[k - 1] == '"'
        invariant
            k <= j <= t@.len(),
            quote_run_start(t@, j as int) == quote_run_start(t@, k as int),
        decreases k,
    {
        k -= 1;
    }
    k
}

/// `s` with leading and trailing whitespace removed.
pub fn trim_spaces_exec(s: &str) -> (r: String)
    ensures
        r@ == trim_spaces(s@),
{
    let chars = chars_of(s);
    let st = find_skip_spaces(&chars, 0);
    let en = find_space_run_start(&chars, chars.len());
    if st <= en {
        String::from_str(s.substring_char(st, en))
    } else {
        String::new()
    }
}

/// `s` with leading and trailing quote characters removed.
pub fn trim_quotes_exec(s: &str) -> (r: String)
    ensures
        r@ == trim_quotes(s@),
{
    let chars = chars_of(s);
    let st = find_skip_quotes(&chars, 0);
    let en = find_quote_run_start(&chars, chars.len());
    if st <= en {
        String::from_str(s.substring_char(st, en))
    } else {
        String::new()
    }
}

} // verus!
