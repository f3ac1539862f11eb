//! Paths of files. What a path looks like depends on the system, so nothing
//! here says what a path is made of: a path with one more part, or with
//! another extension, is whatever the standard library makes of it.
use vstd::prelude::*;

verus! {

#[verifier::external_type_specification]
#[verifier::external_body]
pub struct ExPathBuf(std::path::PathBuf);

/// The path as a text, if it can be written as one.
pub uninterp spec fn path_text(path: std::path::PathBuf) -> Option<Seq<char>>;

/// The path as it is shown, with a stand-in for what cannot be written.
pub uninterp spec fn path_shown(path: std::path::PathBuf) -> Seq<char>;

/// The path that `PathBuf::push` makes of a path and one more part.
pub uninterp spec fn pushed(path: std::path::PathBuf, part: Seq<char>) -> std::path::PathBuf;

/// The path that `PathBuf::set_extension` makes of a path and an extension.
pub uninterp spec fn with_extension(path: std::path::PathBuf, extension: Seq<char>) -> std::path::PathBuf;

/// Whether a character parts the components of a path, on one system or
/// another.
pub open spec fn is_separator(c: char) -> bool {
    c == '/' || c == '\\'
}

/// Whether a text can be set as an extension: it holds no separator.
pub open spec fn is_extension(text: Seq<char>) -> bool {
    forall|i: int| 0 <= i < text.len() ==> !is_separator(#[trigger] text[i])
}

/// The path of the file with the given name in a directory, with the given
/// extension in place of what follows the last dot of the name.
pub open spec fn file_path(
    directory: std::path::PathBuf,
    name: Seq<char>,
    extension: Seq<char>,
) -> std::path::PathBuf {
    with_extension(pushed(directory, name), extension)
}

pub assume_specification[ <std::path::PathBuf as Clone>::clone ](
    path: &std::path::PathBuf,
) -> (r: std::path::PathBuf)
    ensures
        r == *path,
;

/// Calls `PathBuf::push`: the path with one more part, which depends on the
/// path and the part alone.
#[verifier::external_body]
pub(crate) fn push(path: std::path::PathBuf, part: &str) -> (r: std::path::PathBuf)
    ensures
        r == pushed(path, part@),
{
    let mut path = path;
    path.push(part);
    path
}

/// Calls `PathBuf::set_extension`, which refuses an extension that holds a
/// separator: the path with its extension set, which depends on the path and
/// the extension alone.
#[verifier::external_body]
pub(crate) fn set_extension(path: std::path::PathBuf, extension: &str) -> (r: std::path::PathBuf)
    requires
        is_extension(extension@),
    ensures
        r == with_extension(path, extension@),
{
    let mut path = path;
    path.set_extension(extension);
    path
}

/// Calls `Path::to_str`: the path as a text, if it can be written as one.
#[verifier::external_body]
pub(crate) fn to_text(path: &std::path::PathBuf) -> (r: Option<String>)
    ensures
        match r {
            Some(text) => path_text(*path) == Some(text@),
            None => path_text(*path) is None,
        },
{
    path.to_str().map(|text| text.to_owned())
}

/// Calls `Path::display` and writes what it gives: the path as it is shown.
#[verifier::external_body]
pub(crate) fn show(path: &std::path::PathBuf) -> (r: String)
    ensures
        r@ == path_shown(*path),
{
    path.display().to_string()
}

/// A copy of the path that may be there.
pub fn clone_opt_path(path: &Option<std::path::PathBuf>) -> (r: Option<std::path::PathBuf>)
    ensures
        r == *path,
{
    match path {
        Some(path) => Some(path.clone()),
        None => None,
    }
}

/// Tells whether a text can be set as an extension: whether it holds no
/// separator.
pub fn can_be_extension(text: &str) -> (r: bool)
    ensures
        r == is_extension(text@),
{
    let len = text.unicode_len();
    let mut i: usize = 0;
    while i < len
        invariant
            i <= len,
            len == text@.len(),
            forall|k: int| 0 <= k < i ==> !is_separator(#[trigger] text@[k]),
        decreases len - i,
    {
        let c = text.get_char(i);
        if c == '/' || c == '\\' {
            return false;
        }
        i = i + 1;
    }
    true
}

/// The path of a file in a directory, by the name and the extension of the
/// file: the name is added to the directory as one more part, and then the
/// extension is set. The extension must hold no separator.
pub fn build_path(name: &str, extension: &str, directory: std::path::PathBuf) -> (r:
    std::path::PathBuf)
    requires
        is_extension(extension@),
    ensures
        r == file_path(directory, name@, extension@),
{
    set_extension(push(directory, name), extension)
}

/// The extensions of the reports and the pictures hold no separator.
pub proof fn lemma_known_extensions()
    ensures
        is_extension("pdf"@),
        is_extension("jpg"@),
{
    reveal_strlit("pdf");
    reveal_strlit("jpg");
}

} // verus!
