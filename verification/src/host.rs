//! What the library learns from the machine it runs on: user directories and
//! whether paths exist. None of it is a function of the arguments alone, so
//! nothing is promised of the answers.

use vstd::prelude::*;

verus! {

/// `dirs::home_dir`: the user's home directory, as text, if one is known.
/// It depends on the environment and the user database, so no contract is
/// given of the result.
#[verifier::external_body]
pub(crate) fn home_dir() -> (r: Option<String>) {
    match dirs::home_dir() {
        Some(p) => Some(p.to_string_lossy().to_string()),
        None => None,
    }
}

/// `dirs::data_dir`: the user's data directory, as text, if one is known.
/// It depends on the environment, so no contract is given of the result.
#[verifier::external_body]
pub(crate) fn data_dir() -> (r: Option<String>) {
    match dirs::data_dir() {
        Some(p) => Some(p.to_string_lossy().to_string()),
        None => None,
    }
}

/// `Path::exists`: whether something is at `path` on disk. It depends on the
/// disk, so no contract is given of the result.
#[verifier::external_body]
pub(crate) fn path_exists(path: &str) -> (r: bool) {
    std::path::Path::new(path).exists()
}

/// `Path::is_file`: whether a regular file is at `path` on disk. It depends
/// on the disk, so no contract is given of the result.
#[verifier::external_body]
pub(crate) fn path_is_file(path: &str) -> (r: bool) {
    std::path::Path::new(path).is_file()
}

} // verus!
