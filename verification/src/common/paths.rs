//! The parts of `std::path` that scene and loader logic rely on. Their results are those of
//! the target the crate is built for (path separators differ between targets).

use vstd::prelude::*;

verus! {

/// The extension `std::path::Path::extension` finds in `path`.
pub uninterp spec fn path_extension_spec(path: Seq<char>) -> Option<Seq<char>>;

/// The parent `std::path::Path::parent` finds for `path`.
pub uninterp spec fn path_parent_spec(path: Seq<char>) -> Option<Seq<char>>;

/// The path `std::path::Path::join` makes of `base` and `path`.
pub uninterp spec fn path_join_spec(base: Seq<char>, path: Seq<char>) -> Seq<char>;

/// Calls `std::path::Path::extension` on `path`. Claimed: the result is the named value
/// `path_extension_spec(path)`; nothing is said of what that value is. An extension taken
/// from a `&str` path is valid UTF-8, so converting it back to a string loses nothing.
#[verifier::external_body]
pub(crate) fn path_extension(path: &str) -> (r: Option<String>)
    ensures
        r matches Some(e) ==> path_extension_spec(path@) == Some(e@),
        r is None ==> path_extension_spec(path@) is None,
{
    std::path::Path::new(path).extension().and_then(|e| e.to_str()).map(|e| e.to_string())
}

/// Calls `std::path::Path::parent` on `path`. Claimed: the result is the named value
/// `path_parent_spec(path)`; nothing is said of what that value is. A parent of a `&str`
/// path is valid UTF-8, so converting it back to a string loses nothing.
#[verifier::external_body]
pub(crate) fn path_parent(path: &str) -> (r: Option<String>)
    ensures
        r matches Some(p) ==> path_parent_spec(path@) == Some(p@),
        r is None ==> path_parent_spec(path@) is None,
{
    std::path::Path::new(path).parent().and_then(|p| p.to_str()).map(|p| p.to_string())
}

/// Calls `std::path::Path::join` on `base` and `path`. Claimed: the result is the named
/// value `path_join_spec(base, path)`; nothing is said of what that value is. Joining two
/// `&str` paths gives valid UTF-8, so the conversion back to a string loses nothing.
#[verifier::external_body]
pub(crate) fn path_join(base: &str, path: &str) -> (r: String)
    ensures
        r@ == path_join_spec(base@, path@),
{
    std::path::Path::new(base).join(path).to_str().unwrap_or_default().to_string()
}

} // verus!
