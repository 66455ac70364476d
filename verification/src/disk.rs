//! What the library asks of the file system. Each answer is true only of
//! the moment it was given, so nothing is claimed of it: the functions
//! that decide take the answers as plain values.

use vstd::prelude::*;

verus! {

/// `std::path::Path::is_file`: whether `path` names a regular file on
/// disk right now. Nothing is claimed of the answer.
#[verifier::external_body]
pub(crate) fn is_file(path: &str) -> bool {
    std::path::Path::new(path).is_file()
}

/// `std::path::Path::exists`: whether `path` names anything on disk right
/// now. Nothing is claimed of the answer.
#[verifier::external_body]
pub(crate) fn is_present(path: &str) -> bool {
    std::path::Path::new(path).exists()
}

} // verus!
