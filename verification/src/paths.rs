//! The state-file location: a fixed relative path under the user's home
//! directory.

use vstd::prelude::*;

verus! {

/// The state file's location relative to the home directory, with the
/// separator that joins the two.
pub open spec fn mode_file_rel() -> Seq<char> {
    "/.my_desktop/rgb/current_mode"@
}

/// Relies on dirs::home_dir: the path of the user's home directory, or
/// `None` when the platform cannot name one. The value depends on the
/// environment, so nothing is promised of it; `None` also stands for a
/// home path that is not valid text.
#[verifier::external_body]
fn home_dir_string() -> (home: Option<String>) {
    dirs::home_dir().and_then(|p| p.to_str().map(|s| s.to_string()))
}

/// The state-file path under the given home directory.
pub fn mode_file_path_in(home: &str) -> (path: String)
    ensures
        path@ == home@ + mode_file_rel(),
{
    String::from_str(home).concat("/.my_desktop/rgb/current_mode")
}

/// The state-file path under the user's home directory, or `None` when
/// no home directory can be determined. Whatever home the platform
/// reports, the result ends in the fixed relative location.
pub fn get_mode_file_path() -> (path: Option<String>)
    ensures
        (path matches Some(p) ==> (exists|home: Seq<char>| p@ == home + mode_file_rel())),
{
    match home_dir_string() {
        Some(home) => Some(mode_file_path_in(home.as_str())),
        None => None,
    }
}

} // verus!
