//! The two operations on path strings that planning needs. Both are done by
//! the standard library's `Path`; this module gives their results names that
//! contracts can speak of.

use vstd::prelude::*;

verus! {

/// The final component of `path` as `std::path::Path::file_name` reads it
/// under the target's path syntax, or `None` where the path has none, as a
/// root has none, nor a path that ends in `..`.
pub uninterp spec fn path_file_name(path: Seq<char>) -> Option<Seq<char>>;

/// The path that `std::path::Path::join` makes of `base` and `name`.
pub uninterp spec fn path_join(base: Seq<char>, name: Seq<char>) -> Seq<char>;

/// Calls `std::path::Path::file_name` on `path`.
///
/// Trusted: the result is what `path_file_name` names, `None` included. The
/// component is a piece of a UTF-8 path, so turning it into a `String` keeps
/// it as it is.
#[verifier::external_body]
pub(crate) fn file_name(path: &str) -> (name: Option<String>)
    ensures
        match name {
            Some(n) => path_file_name(path@) == Some(n@),
            None => path_file_name(path@).is_none(),
        },
{
    match std::path::Path::new(path).file_name() {
        Some(name) => Some(name.to_string_lossy().into_owned()),
        None => None,
    }
}

/// Calls `std::path::Path::join` on `base` with `name`.
///
/// Trusted: the result is what `path_join` names. Both parts are UTF-8, so
/// turning the joined path into a `String` keeps it as it is.
#[verifier::external_body]
pub(crate) fn join(base: &str, name: &str) -> (joined: String)
    ensures
        joined@ == path_join(base@, name@),
{
    std::path::Path::new(base).join(name).to_string_lossy().into_owned()
}

} // verus!
