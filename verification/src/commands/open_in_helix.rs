//! Opening a file with the editor's open command.

use vstd::prelude::*;

use crate::commands::helpers::{helix_write_plan, write_chars_and_rel_path_to_helix};
use crate::errors::PathError;
use crate::paths::spec_relative_path;

verus! {

/// The arguments of the open-in-helix command.
#[derive(Debug)]
pub struct OpenInHelixArgs {
    /// The project directory.
    pub project_dir: String,
    /// The full path of the file to open.
    pub full_path_of_file: String,
}

/// Computes the keystroke plan that runs the editor's open command on the
/// path of the file relative to the project directory.
pub fn open_in_helix(args: &OpenInHelixArgs) -> (r: Result<Vec<Vec<String>>, PathError>)
    ensures
        match spec_relative_path(args.full_path_of_file@, args.project_dir@) {
            Ok(rel) => r matches Ok(p) && p.deep_view() == helix_write_plan(":o "@ + rel),
            Err(e) => r matches Err(a) && a == e,
        },
{
    write_chars_and_rel_path_to_helix(
        ":o ",
        args.project_dir.as_str(),
        args.full_path_of_file.as_str(),
    )
}

} // verus!
