//! What the viewer reads from a file's path: its name and whether it is Markdown.

use vstd::prelude::*;

verus! {

/// The final component of a path, as `std::path::Path::file_name` gives it.
pub uninterp spec fn path_file_name(p: Seq<char>) -> Option<Seq<char>>;

/// The extension of a path, as `std::path::Path::extension` gives it.
pub uninterp spec fn path_extension(p: Seq<char>) -> Option<Seq<char>>;

/// The lower-case form of a text, as `str::to_lowercase` gives it.
pub uninterp spec fn lower_of(s: Seq<char>) -> Seq<char>;

/// Relies on `std::path::Path::file_name`: the final component, or none for a
/// path that ends in `..` or is a root. A `String` path is valid UTF-8, so the
/// conversion back to text is exact.
#[verifier::external_body]
fn file_name_of(path: &str) -> (r: Option<String>)
    ensures
        r matches Some(n) ==> path_file_name(path@) == Some(n@),
        r is None ==> path_file_name(path@) is None,
{
    std::path::Path::new(path).file_name().map(|n| n.to_string_lossy().into_owned())
}

/// Relies on `std::path::Path::extension`: the text after the last dot of the
/// final component, if that component has one that does not begin it.
#[verifier::external_body]
fn extension_of(path: &str) -> (r: Option<String>)
    ensures
        r matches Some(e) ==> path_extension(path@) == Some(e@),
        r is None ==> path_extension(path@) is None,
{
    std::path::Path::new(path).extension().map(|e| e.to_string_lossy().into_owned())
}

/// Relies on `str::to_lowercase`: the result depends on the characters alone.
#[verifier::external_body]
fn lowercase(s: &str) -> (r: String)
    ensures
        r@ == lower_of(s@),
{
    s.to_lowercase()
}

/// The extensions, in lower case, that mark a Markdown file.
pub open spec fn is_markdown_ext_spec(lowered: Seq<char>) -> bool {
    lowered == "md"@ || lowered == "markdown"@
}

/// A path names a Markdown file when its extension, in lower case, is `md`
/// or `markdown`.
pub open spec fn is_markdown_path_spec(p: Seq<char>) -> bool {
    match path_extension(p) {
        Some(e) => is_markdown_ext_spec(lower_of(e)),
        None => false,
    }
}

/// The title of a tab opened from a path: its file name, or a placeholder.
pub open spec fn title_spec(p: Seq<char>) -> Seq<char> {
    match path_file_name(p) {
        Some(n) => n,
        None => "untitled.md"@,
    }
}

/// The name by which a skipped path is reported: its file name, or nothing.
pub open spec fn shown_name_spec(p: Seq<char>) -> Seq<char> {
    match path_file_name(p) {
        Some(n) => n,
        None => Seq::empty(),
    }
}

/// Whether an extension already in lower case is a Markdown one.
pub fn is_markdown_extension(lowered: &str) -> (r: bool)
    ensures
        r == is_markdown_ext_spec(lowered@),
{
    let l = String::from_str(lowered);
    let md = String::from_str("md");
    let markdown = String::from_str("markdown");
    l == md || l == markdown
}

/// Whether a path names a Markdown file; the extension is compared without
/// regard to case.
pub fn is_markdown_path(path: &str) -> (r: bool)
    ensures
        r == is_markdown_path_spec(path@),
{
    match extension_of(path) {
        Some(e) => is_markdown_extension(lowercase(e.as_str()).as_str()),
        None => false,
    }
}

/// The title of a tab opened from `path`.
pub fn title_for(path: &str) -> (r: String)
    ensures
        r@ == title_spec(path@),
{
    match file_name_of(path) {
        Some(n) => n,
        None => String::from_str("untitled.md"),
    }
}

/// The name by which a skipped `path` is reported.
pub fn shown_name(path: &str) -> (r: String)
    ensures
        r@ == shown_name_spec(path@),
{
    match file_name_of(path) {
        Some(n) => n,
        None => String::new(),
    }
}

} // verus!
