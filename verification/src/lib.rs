//! A library for building LaTeX documents programmatically.
//!
//! Documents are assembled from components (sections, paragraphs, text
//! chunks, tables, and so on) wrapped in the [`component::Component`]
//! tagged union, attached to one another under a structural-rank policy,
//! and finally rendered to LaTeX source text.

pub mod casting;
pub mod commands;
pub mod component;
pub mod document;
pub mod label;
pub mod prelude;
pub mod errors;
pub mod strutil;
pub mod traits;

use vstd::prelude::*;

verus! {

/// Escapes the characters of `s` that are reserved in LaTeX.
///
/// With `esc == None` the default reserved set (underscore, caret, hash,
/// ampersand, percent, dollar, and both braces) is used; otherwise exactly
/// the characters in the given set are escaped. Each escaped character is
/// replaced by a backslash followed by the character itself, in a single
/// left-to-right pass.
pub fn escape(s: &str, esc: Option<&[char]>) -> (r: String)
    ensures
        r@ == spec_escape(s@, spec_escape_set(esc)),
{
    let n = s.unicode_len();
    let mut out = String::new();
    let mut i: usize = 0;
    while i < n
        invariant
            n == s@.len(),
            i <= n,
            out@ == spec_escape(s@.take(i as int), spec_escape_set(esc)),
        decreases n - i,
    {
        let c = s.get_char(i);
        let escaped = match esc {
            None => {
                c == '_' || c == '^' || c == '#' || c == '&' || c == '%' || c == '$' || c == '{'
                    || c == '}'
            },
            Some(set) => char_slice_contains(set, c),
        };
        if escaped {
            crate::strutil::push_char(&mut out, '\\');
        }
        crate::strutil::push_char(&mut out, c);
        proof {
            assert(s@.take(i + 1).drop_last() =~= s@.take(i as int));
            assert(s@.take(i + 1).last() == s@[i as int]);
        }
        i = i + 1;
    }
    proof {
        assert(s@.take(n as int) =~= s@);
    }
    out
}

/// The set of characters escaped by [`escape`] for a given request:
/// the default LaTeX reserved set, or the caller's own set.
pub open spec fn spec_escape_set(esc: Option<&[char]>) -> Seq<char> {
    match esc {
        None => seq!['_', '^', '#', '&', '%', '$', '{', '}'],
        Some(set) => set@,
    }
}

/// Mathematical definition of escaping: each character in `set` is
/// replaced by a backslash followed by the character; others are kept.
pub open spec fn spec_escape(s: Seq<char>, set: Seq<char>) -> Seq<char>
    decreases s.len(),
{
    if s.len() == 0 {
        Seq::empty()
    } else {
        spec_escape(s.drop_last(), set) + (if set.contains(s.last()) {
            seq!['\\', s.last()]
        } else {
            seq![s.last()]
        })
    }
}

/// Whether a slice of characters contains `c`.
fn char_slice_contains(set: &[char], c: char) -> (r: bool)
    ensures
        r == set@.contains(c),
{
    let n = set.len();
    let mut i: usize = 0;
    while i < n
        invariant
            n == set@.len(),
            i <= n,
            forall|j: int| 0 <= j < i ==> set@[j] != c,
        decreases n - i,
    {
        if set[i] == c {
            return true;
        }
        i = i + 1;
    }
    false
}

} // verus!
