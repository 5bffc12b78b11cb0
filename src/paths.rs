//! The parts of a path that the detectors read.
use vstd::prelude::*;

use crate::scan::opt_view;
use crate::text::lower_of;

verus! {

/// The final component of a path, as `Path::file_name` gives it.
pub uninterp spec fn file_name_of(path: Seq<char>) -> Option<Seq<char>>;

/// The extension of a path, as `Path::extension` gives it.
pub uninterp spec fn extension_of(path: Seq<char>) -> Option<Seq<char>>;

/// The extension of a path, lowercased.
pub open spec fn lower_extension_of(path: Seq<char>) -> Option<Seq<char>> {
    match extension_of(path) {
        Some(e) => Some(lower_of(e)),
        None => None,
    }
}

/// Relies on `Path::file_name`: the final component of `path`, if it has one.
#[verifier::external_body]
pub(crate) fn file_name(path: &str) -> (r: Option<String>)
    ensures
        opt_view(r) == file_name_of(path@),
{
    match std::path::Path::new(path).file_name() {
        Some(n) => n.to_str().map(str::to_string),
        None => None,
    }
}

/// Relies on `Path::extension`: the part of the file name after its last dot, if it has one.
#[verifier::external_body]
pub(crate) fn extension(path: &str) -> (r: Option<String>)
    ensures
        opt_view(r) == extension_of(path@),
{
    match std::path::Path::new(path).extension() {
        Some(e) => e.to_str().map(str::to_string),
        None => None,
    }
}

} // verus!
