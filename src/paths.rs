//! UTF-8 paths, handled through camino.

use vstd::prelude::*;

verus! {

/// The path `rest` adjoined to `base`.
pub uninterp spec fn path_joined(base: Seq<char>, rest: Seq<char>) -> Seq<char>;

/// The final component of a path, if it names a file or directory.
pub uninterp spec fn path_file_name(path: Seq<char>) -> Option<Seq<char>>;

/// The path that, adjoined to `base`, gives `path`; `None` when `base` is not
/// a prefix of `path`.
pub uninterp spec fn path_relative(path: Seq<char>, base: Seq<char>) -> Option<Seq<char>>;

/// Relies on camino's `Utf8Path::join`: `rest` adjoined to `base`.
#[verifier::external_body]
pub(crate) fn join_path(base: &str, rest: &str) -> (r: String)
    ensures
        r@ == path_joined(base@, rest@),
{
    camino::Utf8Path::new(base).join(rest).into_string()
}

/// Relies on camino's `Utf8Path::file_name`: the path's final component, if
/// it has one that is not `..`.
#[verifier::external_body]
pub(crate) fn file_name(path: &str) -> (r: Option<String>)
    ensures
        r is None <==> path_file_name(path@) is None,
        r matches Some(n) ==> path_file_name(path@) == Some(n@),
{
    match camino::Utf8Path::new(path).file_name() {
        Some(n) => Some(n.to_string()),
        None => None,
    }
}

/// Relies on camino's `Utf8Path::strip_prefix`: `path` relative to `base`.
#[verifier::external_body]
pub(crate) fn relative_path(path: &str, base: &str) -> (r: Option<String>)
    ensures
        r is None <==> path_relative(path@, base@) is None,
        r matches Some(p) ==> path_relative(path@, base@) == Some(p@),
{
    match camino::Utf8Path::new(path).strip_prefix(base) {
        Ok(p) => Some(p.as_str().to_string()),
        Err(_) => None,
    }
}

} // verus!
