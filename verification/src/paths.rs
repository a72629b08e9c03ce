//! The directories the platform assigns to the user, and paths below them.

use vstd::prelude::*;

verus! {

/// `dirs::home_dir`, as text: the user's home directory, as the platform and
/// the environment give it, or nothing where they give none. Nothing is
/// claimed of the value.
#[verifier::external_body]
pub(crate) fn home_dir() -> Option<String> {
    dirs::home_dir().map(|dir| dir.to_string_lossy().into_owned())
}

/// `dirs::config_dir`, as text: the user's configuration directory, as the
/// platform and the environment give it, or nothing where they give none.
/// Nothing is claimed of the value.
#[verifier::external_body]
pub(crate) fn config_dir() -> Option<String> {
    dirs::config_dir().map(|dir| dir.to_string_lossy().into_owned())
}

/// `dirs::data_local_dir`, as text: the user's local data directory, as the
/// platform and the environment give it, or nothing where they give none.
/// Nothing is claimed of the value.
#[verifier::external_body]
pub(crate) fn local_data_dir() -> Option<String> {
    dirs::data_local_dir().map(|dir| dir.to_string_lossy().into_owned())
}

/// `std::path::Path::join`, on text: `child` appended to `base` as a path,
/// with the platform's separator. Which separator that is depends on the
/// platform, so nothing is claimed of the value.
#[verifier::external_body]
pub(crate) fn join_path(base: &str, child: &str) -> String {
    std::path::Path::new(base).join(child).to_string_lossy().into_owned()
}

} // verus!
