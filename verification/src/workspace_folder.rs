//! The rule for naming a new folder in the workspace browser.

use vstd::prelude::*;

verus! {

/// Whether a folder named `entry_text` may be created in the selected workspace
/// directory: the name must not be empty and nothing may exist at its path yet
/// (`path_exists`, which the caller learns from the file system).
pub fn folder_name_acceptable(entry_text: &str, path_exists: bool) -> (acceptable: bool)
    ensures
        acceptable == (!path_exists && entry_text@.len() > 0),
{
    !(path_exists || entry_text.is_empty())
}

} // verus!
