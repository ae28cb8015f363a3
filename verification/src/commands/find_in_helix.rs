//! Locating a file with the editor's file picker.

use vstd::prelude::*;

use crate::commands::helpers::{helix_write_plan, write_chars_and_rel_path_to_helix};
use crate::errors::PathError;
use crate::paths::spec_relative_path;

verus! {

/// The arguments of the find-in-helix command.
#[derive(Debug)]
pub struct FindInHelixArgs {
    /// The project directory.
    pub project_dir: String,
    /// The full path of the file to find.
    pub full_path_of_file: String,
}

/// Computes the keystroke plan that opens the editor's file picker on the
/// path of the file relative to the project directory.
pub fn find_in_helix(args: &FindInHelixArgs) -> (r: Result<Vec<Vec<String>>, PathError>)
    ensures
        match spec_relative_path(args.full_path_of_file@, args.project_dir@) {
            Ok(rel) => r matches Ok(p) && p.deep_view() == helix_write_plan(" f"@ + rel),
            Err(e) => r matches Err(a) && a == e,
        },
{
    write_chars_and_rel_path_to_helix(
        " f",
        args.project_dir.as_str(),
        args.full_path_of_file.as_str(),
    )
}

/// The older name of [`find_in_helix`]; kept for callers of the legacy
/// command.
pub fn find(args: &FindInHelixArgs) -> (r: Result<Vec<Vec<String>>, PathError>)
    ensures
        match spec_relative_path(args.full_path_of_file@, args.project_dir@) {
            Ok(rel) => r matches Ok(p) && p.deep_view() == helix_write_plan(" f"@ + rel),
            Err(e) => r matches Err(a) && a == e,
        },
{
    find_in_helix(args)
}

} // verus!
