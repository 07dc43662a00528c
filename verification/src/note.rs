//! The note persister's pure half: assembles the target path and the
//! frontmatter for a quick note, ready for the document-write collaborator.
use vstd::prelude::*;

use crate::filename::{generate_quick_note_filename, is_stamp_char, line_candidate, line_usable};
use crate::slug::slug_of;
use crate::text::{has_non_space, has_non_space_exec};

verus! {

/// One write, fully assembled: everything the document-write collaborator is
/// handed. The frontmatter is an ordered list of key/value pairs; no field
/// ordering is imposed and no import block is written for quick notes.
pub struct WriteRequest {
    pub path: String,
    pub frontmatter: Vec<(String, String)>,
    pub body: String,
    pub imports: String,
    pub field_order: Option<Vec<String>>,
    pub project_root: String,
}

/// The target path of a note: `<root>/src/content/<collection>/<name>.md`.
pub open spec fn note_path(root: Seq<char>, collection: Seq<char>, name: Seq<char>) -> Seq<char> {
    root + "/src/content/"@ + collection + "/"@ + name + ".md"@
}

/// Assembles the write for a note whose base name and creation stamp are
/// already fixed: the `title` key appears exactly when the title has
/// substance, the `created` key always.
pub fn build_note_request(
    project_path: &str,
    collection: &str,
    title: &str,
    content: &str,
    filename: &str,
    created: &str,
) -> (r: WriteRequest)
    ensures
        r.path@ == note_path(project_path@, collection@, filename@),
        r.body@ == content@,
        r.imports@.len() == 0,
        r.field_order is None,
        r.project_root@ == project_path@,
        has_non_space(title@) ==> r.frontmatter@.len() == 2 && r.frontmatter@[0].0@ == "title"@
            && r.frontmatter@[0].1@ == title@ && r.frontmatter@[1].0@ == "created"@
            && r.frontmatter@[1].1@ == created@,
        !has_non_space(title@) ==> r.frontmatter@.len() == 1 && r.frontmatter@[0].0@
            == "created"@ && r.frontmatter@[0].1@ == created@,
{
    let mut path = String::from_str(project_path);
    path.append("/src/content/");
    path.append(collection);
    path.append("/");
    path.append(filename);
    path.append(".md");
    let mut frontmatter: Vec<(String, String)> = Vec::new();
    if has_non_space_exec(title) {
        frontmatter.push((String::from_str("title"), String::from_str(title)));
    }
    frontmatter.push((String::from_str("created"), String::from_str(created)));
    WriteRequest {
        path,
        frontmatter,
        body: String::from_str(content),
        imports: String::new(),
        field_order: None,
        project_root: String::from_str(project_path),
    }
}

/// Relies on `chrono::Utc::now().to_rfc3339()`: an RFC 3339 rendering of the
/// current time. The clock decides the value; only non-emptiness is stated.
#[verifier::external_body]
fn now_rfc3339() -> (r: String)
    ensures
        r@.len() > 0,
{
    chrono::Utc::now().to_rfc3339()
}

/// Plans the whole write for one quick note: derives the base name, stamps
/// the creation time, and assembles path, frontmatter and body. In the two
/// clock-free branches the path is pinned exactly; in the clock fallback its
/// `quick-note-` shape is stated.
pub fn plan_quick_note(project_path: &str, collection: &str, title: &str, content: &str) -> (r:
    WriteRequest)
    ensures
        r.body@ == content@,
        r.imports@.len() == 0,
        r.field_order is None,
        r.project_root@ == project_path@,
        has_non_space(title@) ==> r.frontmatter@.len() == 2 && r.frontmatter@[0].0@ == "title"@
            && r.frontmatter@[0].1@ == title@,
        !has_non_space(title@) ==> r.frontmatter@.len() == 1,
        r.frontmatter@[r.frontmatter@.len() - 1].0@ == "created"@,
        r.frontmatter@[r.frontmatter@.len() - 1].1@.len() > 0,
        has_non_space(title@) ==> r.path@ == note_path(
            project_path@,
            collection@,
            slug_of(title@),
        ),
        !has_non_space(title@) && line_usable(content@) ==> r.path@ == note_path(
            project_path@,
            collection@,
            slug_of(line_candidate(content@)),
        ),
        !has_non_space(title@) && !line_usable(content@) ==> {
            let pre = project_path@ + "/src/content/"@ + collection@ + "/"@ + "quick-note-"@;
            &&& r.path@.len() > pre.len()
            &&& r.path@.subrange(0, pre.len() as int) == pre
            &&& r.path@.subrange(r.path@.len() - 3, r.path@.len() as int) == ".md"@
        },
{
    let filename = generate_quick_note_filename(title, content);
    let created = now_rfc3339();
    let r = build_note_request(
        project_path,
        collection,
        title,
        content,
        filename.as_str(),
        created.as_str(),
    );
    proof {
        if !has_non_space(title@) && !line_usable(content@) {
            reveal_strlit("quick-note-");
            reveal_strlit(".md");
            let pre = project_path@ + "/src/content/"@ + collection@ + "/"@ + "quick-note-"@;
            assert(filename@.subrange(0, 11) == "quick-note-"@);
            assert(r.path@.subrange(0, pre.len() as int) =~= pre) by {
                assert(forall|i: int|
                    0 <= i < 11 ==> filename@[i] == #[trigger] filename@.subrange(0, 11)[i]);
            }
            assert(r.path@.subrange(r.path@.len() - 3, r.path@.len() as int) =~= ".md"@);
        }
    }
    r
}

} // verus!
