//! Path arithmetic, done by `std::path` on paths written as UTF-8 text.
use vstd::prelude::*;

use crate::models::opt_view;

verus! {

/// The parent of a path: the path without its final component, when it
/// has one.
pub uninterp spec fn spec_path_parent(path: Seq<char>) -> Option<Seq<char>>;

/// The stem of a path's file name: the name without its extension.
pub uninterp spec fn spec_path_file_stem(path: Seq<char>) -> Option<Seq<char>>;

/// The extension of a path's file name.
pub uninterp spec fn spec_path_extension(path: Seq<char>) -> Option<Seq<char>>;

/// The final component of a path.
pub uninterp spec fn spec_path_file_name(path: Seq<char>) -> Option<Seq<char>>;

/// A path with another one adjoined.
pub uninterp spec fn spec_path_join(base: Seq<char>, tail: Seq<char>) -> Seq<char>;

/// `Path::parent`. Its result is named by `spec_path_parent`; what it is
/// for a given path is left unsaid.
#[verifier::external_body]
pub(crate) fn path_parent(path: &str) -> (r: Option<String>)
    ensures
        opt_view(r) == spec_path_parent(path@),
{
    std::path::Path::new(path).parent().and_then(|p| p.to_str()).map(|p| p.to_string())
}

/// `Path::file_stem`. Its result is named by `spec_path_file_stem`; what it
/// is for a given path is left unsaid.
#[verifier::external_body]
pub(crate) fn path_file_stem(path: &str) -> (r: Option<String>)
    ensures
        opt_view(r) == spec_path_file_stem(path@),
{
    std::path::Path::new(path).file_stem().and_then(|p| p.to_str()).map(|p| p.to_string())
}

/// `Path::extension`. Its result is named by `spec_path_extension`; what it
/// is for a given path is left unsaid.
#[verifier::external_body]
pub(crate) fn path_extension(path: &str) -> (r: Option<String>)
    ensures
        opt_view(r) == spec_path_extension(path@),
{
    std::path::Path::new(path).extension().and_then(|p| p.to_str()).map(|p| p.to_string())
}

/// `Path::file_name`. Its result is named by `spec_path_file_name`; what it
/// is for a given path is left unsaid.
#[verifier::external_body]
pub(crate) fn path_file_name(path: &str) -> (r: Option<String>)
    ensures
        opt_view(r) == spec_path_file_name(path@),
{
    std::path::Path::new(path).file_name().and_then(|p| p.to_str()).map(|p| p.to_string())
}

/// `Path::join`. Its result is named by `spec_path_join`; where a separator
/// goes, and that an absolute `tail` replaces `base`, is left unsaid.
#[verifier::external_body]
pub(crate) fn path_join(base: &str, tail: &str) -> (r: String)
    ensures
        r@ == spec_path_join(base@, tail@),
{
    std::path::Path::new(base).join(tail).to_string_lossy().into_owned()
}

/// `Path::exists`. What it answers depends on the file system at the time
/// of the call, so nothing is said of it.
#[verifier::external_body]
pub(crate) fn path_exists(path: &str) -> (b: bool) {
    std::path::Path::new(path).exists()
}

/// `Path::is_file`. What it answers depends on the file system at the time
/// of the call, so nothing is said of it.
#[verifier::external_body]
pub(crate) fn path_is_file(path: &str) -> (b: bool) {
    std::path::Path::new(path).is_file()
}

} // verus!
