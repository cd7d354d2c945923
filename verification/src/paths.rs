use vstd::prelude::*;

verus! {

// The three names below stand for what the standard library reads off a
// path, as it parses paths on the platform the program is built for. The
// library states nothing of them but that the calls below return them.

/// What `std::path::Path::parent` returns for the path written as `path`.
pub uninterp spec fn path_parent(path: Seq<char>) -> Option<Seq<char>>;

/// What `std::path::Path::file_stem` returns for the path written as `path`.
pub uninterp spec fn path_file_stem(path: Seq<char>) -> Option<Seq<char>>;

/// What `std::path::Path::extension` returns for the path written as `path`.
pub uninterp spec fn path_extension(path: Seq<char>) -> Option<Seq<char>>;

/// Calls `std::path::Path::parent` on `path`. The contract only names the
/// answer: the path without its last component, or nothing where the path
/// ends in a root or is empty. A part of a `str` path is text again, so the
/// answer is handed back as a `String`.
#[verifier::external_body]
pub(crate) fn parent_of(path: &str) -> (parent: Option<String>)
    ensures
        parent matches Some(text) ==> path_parent(path@) == Some(text@),
        parent is None ==> path_parent(path@) is None,
{
    match std::path::Path::new(path).parent() {
        Some(parent) => Some(parent.to_string_lossy().into_owned()),
        None => None,
    }
}

/// Calls `std::path::Path::file_stem` on `path`. The contract only names the
/// answer: the file name without its extension, or nothing where the path
/// has no file name.
#[verifier::external_body]
pub(crate) fn stem_of(path: &str) -> (stem: Option<String>)
    ensures
        stem matches Some(text) ==> path_file_stem(path@) == Some(text@),
        stem is None ==> path_file_stem(path@) is None,
{
    match std::path::Path::new(path).file_stem() {
        Some(stem) => Some(stem.to_string_lossy().into_owned()),
        None => None,
    }
}

/// Calls `std::path::Path::extension` on `path`. The contract only names the
/// answer: what follows the last dot of the file name, or nothing where
/// there is no file name or no dot inside it.
#[verifier::external_body]
pub(crate) fn extension_of(path: &str) -> (extension: Option<String>)
    ensures
        extension matches Some(text) ==> path_extension(path@) == Some(text@),
        extension is None ==> path_extension(path@) is None,
{
    match std::path::Path::new(path).extension() {
        Some(extension) => Some(extension.to_string_lossy().into_owned()),
        None => None,
    }
}

} // verus!
