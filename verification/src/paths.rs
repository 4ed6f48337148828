//! File-system path arithmetic, delegated to std's `Path`.

use vstd::prelude::*;

verus! {

/// The path std's `Path::join` produces from `base` and `part` on the
/// platform the library is built for.
pub uninterp spec fn path_join(base: Seq<char>, part: Seq<char>) -> Seq<char>;

/// The path std's `Path::with_extension` produces from `path` and `ext` on
/// the platform the library is built for.
pub uninterp spec fn path_with_extension(path: Seq<char>, ext: Seq<char>) -> Seq<char>;

/// Calls `std::path::Path::join` and renders the result as text. Trusted to
/// return the path named by [`path_join`] of its arguments; the two inputs
/// are UTF-8, so the lossy rendering loses nothing. What the joined path
/// looks like (separator, absolute `part`) is left to std and not stated.
#[verifier::external_body]
pub(crate) fn join_path(base: &str, part: &str) -> (res: String)
    ensures
        res@ == path_join(base@, part@),
{
    std::path::Path::new(base).join(part).to_string_lossy().into_owned()
}

/// Whether `s` holds no path separator (`/` or `\\`).
pub open spec fn no_separator(s: Seq<char>) -> bool {
    forall|i: int| 0 <= i < s.len() ==> s[i] != '/' && s[i] != '\\'
}

/// Calls `std::path::Path::with_extension` and renders the result as text.
/// Trusted to return the path named by [`path_with_extension`] of its
/// arguments; how std replaces the extension is not stated. std panics on
/// an extension holding a path separator, which `requires` leaves out.
#[verifier::external_body]
pub(crate) fn replace_extension(path: &str, ext: &str) -> (res: String)
    requires
        no_separator(ext@),
    ensures
        res@ == path_with_extension(path@, ext@),
{
    std::path::Path::new(path).with_extension(ext).to_string_lossy().into_owned()
}

/// Calls `std::path::Path::exists`. What it returns depends on the file
/// system at the time of the call, so nothing is stated of it.
#[verifier::external_body]
pub(crate) fn path_exists(path: &str) -> bool {
    std::path::Path::new(path).exists()
}

/// Calls `std::path::Path::is_dir`. What it returns depends on the file
/// system at the time of the call, so nothing is stated of it.
#[verifier::external_body]
pub(crate) fn path_is_dir(path: &str) -> bool {
    std::path::Path::new(path).is_dir()
}

} // verus!
