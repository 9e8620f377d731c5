//! Module-name detection: reads the name a module's manifest file gives
//! it. The first manifest line that starts (after leading whitespace)
//! with the letters `name` and holds a `=` decides: the name is the text
//! between the first `=` and the second `=` (or the line's end), with
//! surrounding whitespace and quote characters removed.

use crate::text::{
    chars_of, find_char, find_char_from, find_skip_spaces, skip_spaces, trim_quotes, trim_spaces,
    trim_quotes_exec, trim_spaces_exec,
};
use vstd::prelude::*;
use vstd::string::StrSliceExecFns;

verus! {

/// Whether a manifest line opens with the letters `name` after
/// leading whitespace.
pub open spec fn line_names_module(line: Seq<char>) -> bool {
    let a = skip_spaces(line, 0);
    &&& a + 4 <= line.len()
    &&& line[a] == 'n'
    &&& line[a + 1] == 'a'
    &&& line[a + 2] == 'm'
    &&& line[a + 3] == 'e'
}

/// The module name a single manifest line yields, if any.
pub open spec fn crate_name_of_line(line: Seq<char>) -> Option<Seq<char>> {
    if line_names_module(line) {
        let e1 = find_char(line, 0, '=');
        if e1 < line.len() {
            let e2 = find_char(line, e1 + 1, '=');
            Some(trim_quotes(trim_spaces(line.subrange(e1 + 1, e2))))
        } else {
            None
        }
    } else {
        None
    }
}

/// The module name the manifest text yields, scanning its lines from
/// the position `i` on: the first line that yields a name decides.
pub open spec fn detect_name_from(t: Seq<char>, i: int) -> Option<Seq<char>>
    recommends
        0 <= i <= t.len(),
    decreases t.len() - i when 0 <= i <= t.len() via detect_name_from_dec
{
    if i >= t.len() {
        None
    } else {
        let le = find_char(t, i, '\n');
        match crate_name_of_line(t.subrange(i, le)) {
            Some(n) => Some(n),
            None => if le >= t.len() {
                None
            } else {
                detect_name_from(t, le + 1)
            },
        }
    }
}

#[via_fn]
proof fn detect_name_from_dec(t: Seq<char>, i: int) {
    if i < t.len() {
        crate::text::lemma_find_char_bounds(t, i, '\n');
    }
}

/// The module name named by the manifest text, if any line names one.
pub open spec fn detected_crate_name(t: Seq<char>) -> Option<Seq<char>> {
    detect_name_from(t, 0)
}

fn line_crate_name(line: &str) -> (r: Option<String>)
    ensures
        match r {
            Some(s) => crate_name_of_line(line@) == Some(s@),
            None => crate_name_of_line(line@) is None,
        },
{
    let chars = chars_of(line);
    let n = chars.len();
    let a = find_skip_spaces(&chars, 0);
    if n >= 4 && a <= n - 4 && chars[a] == 'n' && chars[a + 1] == 'a' && chars[a + 2] == 'm'
        && chars[a + 3] == 'e' {
        let e1 = find_char_from(&chars, 0, '=');
        if e1 < n {
            let e2 = find_char_from(&chars, e1 + 1, '=');
            let val = line.substring_char(e1 + 1, e2);
            let trimmed = trim_spaces_exec(val);
            Some(trim_quotes_exec(trimmed.as_str()))
        } else {
            None
        }
    } else {
        None
    }
}

/// Scans a module manifest's text for the module's name: the first
/// line that starts with `name` and holds a `=` yields it; `None`
/// when no line does.
pub fn detect_crate_name(cargo_toml: &str) -> (r: Option<String>)
    ensures
        match r {
            Some(s) => detected_crate_name(cargo_toml@) == Some(s@),
            None => detected_crate_name(cargo_toml@) is None,
        },
{
    let chars = chars_of(cargo_toml);
    let n = chars.len();
    let ghost t = cargo_toml@;
    let mut i: usize = 0;
    let mut result: Option<String> = None;
    while i < n && result.is_none()
        invariant
            chars@ == t,
            cargo_toml@ == t,
            n == t.len(),
            i <= n,
            match result {
                Some(s) => detect_name_from(t, 0) == Some(s@),
                None => detect_name_from(t, 0) == detect_name_from(t, i as int),
            },
        decreases n - i,
    {
        let le = find_char_from(&chars, i, '\n');
        let line_str = cargo_toml.substring_char(i, le);
        match line_crate_name(line_str) {
            Some(nm) => {
                result = Some(nm);
                i = n;
            },
            None => {
                i = if le < n {
                    le + 1
                } else {
                    n
                };
            },
        }
    }
    result
}

} // verus!
