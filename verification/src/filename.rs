//! The filename deriver: picks a human-readable base name for a new note from
//! the title, else the first content line, else a clock-based fallback.
use vstd::prelude::*;

use crate::slug::{slug_of, slugify, slugify_chars};
use crate::text::{first_line, has_non_space, has_non_space_exec, strip_hashes, trim};

verus! {

/// Longest first line, in characters, still taken as a title-like heading.
pub const FIRST_LINE_LIMIT: usize = 50;

/// The first line of the content once heading markers are stripped and the
/// ends trimmed: the deriver's second choice.
pub open spec fn line_candidate(content: Seq<char>) -> Seq<char> {
    trim(strip_hashes(first_line(content)))
}

/// Whether the line candidate is usable: non-empty and within the limit.
pub open spec fn line_usable(content: Seq<char>) -> bool {
    0 < line_candidate(content).len() <= FIRST_LINE_LIMIT
}

/// The derived base name, given the fallback text the clock would supply:
/// the slug of the title, else the slug of the first content line, else
/// `quick-note-` followed by the timestamp.
pub open spec fn derived_name(title: Seq<char>, content: Seq<char>, stamp: Seq<char>) -> Seq<
    char,
> {
    if has_non_space(title) {
        slug_of(title)
    } else if line_usable(content) {
        slug_of(line_candidate(content))
    } else {
        "quick-note-"@ + stamp
    }
}

/// An ASCII decimal digit.
pub open spec fn is_digit_char(c: char) -> bool {
    '0' <= c && c <= '9'
}

/// What every character of the clock fallback may be: a digit, or one of the
/// separating or sign marks the formatter writes.
pub open spec fn is_stamp_char(c: char) -> bool {
    is_digit_char(c) || c == '-' || c == '+'
}

/// Relies on `chrono::Utc::now` and its `%Y-%m-%d-%H%M%S` formatting: the
/// pieces are zero-padded decimal fields, the year to at least four digits,
/// joined by hyphens; a year outside 0..=9999 additionally gets a sign mark.
/// The clock decides the value, so only the shape is stated.
#[verifier::external_body]
fn now_stamp() -> (r: String)
    ensures
        r@.len() >= 17,
        forall|i: int| 0 <= i < r@.len() ==> is_stamp_char(#[trigger] r@[i]),
{
    format!("{}", chrono::Utc::now().format("%Y-%m-%d-%H%M%S"))
}

/// The derived base name for a note, with the clock fallback supplied by the
/// caller; total over its inputs.
pub fn derive_filename(title: &str, content: &str, stamp: &str) -> (r: String)
    ensures
        r@ == derived_name(title@, content@, stamp@),
{
    if has_non_space_exec(title) {
        slugify(title)
    } else {
        let line = crate::text::first_line_candidate(content);
        if line.len() > 0 && line.len() <= FIRST_LINE_LIMIT {
            slugify_chars(&line)
        } else {
            let mut out = String::from_str("quick-note-");
            out.append(stamp);
            out
        }
    }
}

/// The derived base name for a note, reading the clock for the fallback: the
/// slug of the title when the title has substance, else the slug of a short
/// first content line, else a `quick-note-` name no slugging is applied to.
pub fn generate_quick_note_filename(title: &str, content: &str) -> (r: String)
    ensures
        has_non_space(title@) ==> r@ == slug_of(title@),
        !has_non_space(title@) && line_usable(content@) ==> r@ == slug_of(
            line_candidate(content@),
        ),
        !has_non_space(title@) && !line_usable(content@) ==> {
            &&& r@.len() >= 11 + 17
            &&& r@.subrange(0, 11) == "quick-note-"@
            &&& forall|i: int| 11 <= i < r@.len() ==> is_stamp_char(#[trigger] r@[i])
        },
{
    let stamp = now_stamp();
    let r = derive_filename(title, content, stamp.as_str());
    proof {
        reveal_strlit("quick-note-");
        if !has_non_space(title@) && !line_usable(content@) {
            assert(r@.subrange(0, 11) =~= "quick-note-"@);
            assert(forall|i: int|
                11 <= i < r@.len() ==> #[trigger] r@[i] == stamp@[i - 11]);
        }
    }
    r
}

} // verus!
