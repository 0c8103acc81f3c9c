//! The user's home directory and paths below it.

use vstd::prelude::*;

verus! {

/// `home::home_dir`: the home directory of the current user, where one can
/// be found. It depends on the environment, so nothing is known of it.
#[verifier::external_body]
pub(crate) fn home_dir() -> Option<String> {
    home::home_dir().map(|dir| dir.to_string_lossy().to_string())
}

/// `Path::join`: `base` with `part` added as one more component. The
/// separator depends on the platform, so nothing is stated of the result.
#[verifier::external_body]
pub(crate) fn join_path(base: &str, part: &str) -> String {
    std::path::Path::new(base).join(part).to_string_lossy().to_string()
}

} // verus!
