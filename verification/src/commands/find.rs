//! Locating a file in the editor, choosing the editor command by whether the
//! file is hidden and by the configured method for hidden files.

use vstd::prelude::*;

use crate::commands::helpers::{helix_write_plan, write_chars_to_helix};
use crate::config::HiddenMethod;
use crate::errors::PathError;
use crate::paths::{relative_path, spec_is_hidden, spec_relative_path, file_name};

verus! {

/// The arguments of the find command.
#[derive(Debug)]
pub struct FindArgs {
    /// The project directory.
    pub project_dir: String,
    /// The full path of the file to find.
    pub full_path_of_file: String,
}

/// Whether the file named by the path is hidden: its file name starts with
/// `.`.  Unknown when the path has no plain-text file name.
pub fn is_hidden(file_path: &str) -> (r: Option<bool>)
    ensures
        r == spec_is_hidden(file_path@),
{
    match file_name(file_path) {
        Some(name) => {
            let hidden = name.unicode_len() > 0 && name.as_str().get_char(0) == '.';
            Some(hidden)
        },
        None => None,
    }
}

/// The characters typed into the editor to locate the file: the file picker
/// (` f`) keeps the cursor position, so it is preferred; hidden files go
/// through the open command (`:o `), which always finds them, unless the
/// configuration asks for the picker; when it is unknown whether the file is
/// hidden, the open command is the reliable choice.
pub open spec fn find_chars(
    rel: Seq<char>,
    hidden: Option<bool>,
    method: Option<HiddenMethod>,
) -> Seq<char> {
    match hidden {
        Some(true) => if method matches Some(HiddenMethod::Picker) {
            " f"@ + rel
        } else {
            ":o "@ + rel
        },
        Some(false) => " f"@ + rel,
        None => ":o "@ + rel,
    }
}

/// Computes the keystroke plan that locates the file in the editor.  The
/// caller supplies the configured method for hidden files; it only matters
/// when the file is hidden.
pub fn find(args: &FindArgs, hidden_method: &Option<HiddenMethod>) -> (r: Result<
    Vec<Vec<String>>,
    PathError,
>)
    ensures
        match spec_relative_path(args.full_path_of_file@, args.project_dir@) {
            Ok(rel) => r matches Ok(p) && p.deep_view() == helix_write_plan(
                find_chars(rel, spec_is_hidden(args.full_path_of_file@), *hidden_method),
            ),
            Err(e) => r matches Err(a) && a == e,
        },
{
    let rel = match relative_path(args.full_path_of_file.as_str(), args.project_dir.as_str()) {
        Ok(rel) => rel,
        Err(e) => {
            return Err(e);
        },
    };
    let hidden = is_hidden(args.full_path_of_file.as_str());
    let use_picker: bool = match hidden {
        Some(true) => match hidden_method {
            Some(HiddenMethod::Picker) => true,
            _ => false,
        },
        Some(false) => true,
        None => false,
    };
    let mut chars = if use_picker {
        String::from_str(" f")
    } else {
        String::from_str(":o ")
    };
    chars.append(rel.as_str());
    Ok(write_chars_to_helix(chars))
}

} // verus!
