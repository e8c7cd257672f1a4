//! File system paths as text, with the rules of `std::path::Path` for the platform the
//! library is built for (`/` separators on Unix, `\` and drive prefixes on Windows). The
//! names below stand for those rules; nothing about them is stated.
use vstd::prelude::*;

use crate::text::opt_text;

verus! {

/// Result of joining a path component to a base path, as `Path::join` computes it.
pub uninterp spec fn joined_path(base: Seq<char>, component: Seq<char>) -> Seq<char>;

/// Final component of a path, as `Path::file_name` gives it.
pub uninterp spec fn file_name_of(path: Seq<char>) -> Option<Seq<char>>;

/// Path without its final component, as `Path::parent` gives it.
pub uninterp spec fn parent_of(path: Seq<char>) -> Option<Seq<char>>;

/// Calls `Path::join` on text paths. The joined path of two UTF-8 paths is UTF-8, so the
/// lossless conversion back to text keeps it as is; the contract names the result.
#[verifier::external_body]
pub(crate) fn path_join(base: &str, component: &str) -> (r: String)
    ensures
        r@ == joined_path(base@, component@),
{
    std::path::Path::new(base).join(component).to_string_lossy().into_owned()
}

/// Calls `Path::file_name` on a text path; the contract names the result.
#[verifier::external_body]
pub(crate) fn path_file_name(path: &str) -> (r: Option<String>)
    ensures
        opt_text(r) == file_name_of(path@),
{
    let name = std::path::Path::new(path).file_name()?;
    Some(name.to_str()?.to_owned())
}

/// Calls `Path::parent` on a text path; the contract names the result.
#[verifier::external_body]
pub(crate) fn path_parent(path: &str) -> (r: Option<String>)
    ensures
        opt_text(r) == parent_of(path@),
{
    let parent = std::path::Path::new(path).parent()?;
    Some(parent.to_str()?.to_owned())
}

} // verus!
