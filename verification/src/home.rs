//! The user's home directory.

use vstd::prelude::*;

verus! {

/// Asks `dirs::home_dir` for the home directory of the current user and
/// hands its path on as text, with the replacement character wherever the
/// path is not valid Unicode.  The answer comes from the process environment
/// and the user database, so nothing is claimed of it: it may be absent, and
/// two calls may differ.
#[verifier::external_body]
pub(crate) fn home_dir() -> (home: Option<String>) {
    match dirs::home_dir() {
        Some(path) => Some(path.to_string_lossy().into_owned()),
        None => None,
    }
}

} // verus!
