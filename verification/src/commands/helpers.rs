//! The keystroke plan that types a command into the editor pane.

use vstd::prelude::*;

use crate::errors::PathError;
use crate::paths::{relative_path, spec_relative_path};

verus! {

/// The plan that types `chars` into the editor pane, as the argument vectors
/// of successive multiplexer `action` invocations: escape, move focus right
/// to the editor pane, escape again, write the characters, then return.
pub open spec fn helix_write_plan(chars: Seq<char>) -> Seq<Seq<Seq<char>>> {
    seq![
        seq!["write"@, "27"@],
        seq!["move-focus"@, "right"@],
        seq!["write"@, "27"@],
        seq!["write-chars"@, chars],
        seq!["write"@, "13"@],
    ]
}

fn action_pair(a: &str, b: &str) -> (r: Vec<String>)
    ensures
        r.deep_view() == seq![a@, b@],
{
    let mut v: Vec<String> = Vec::new();
    v.push(String::from_str(a));
    v.push(String::from_str(b));
    proof {
        assert(v.deep_view() =~= seq![a@, b@]);
    }
    v
}

/// Computes the multiplexer `action` argument vectors that type `chars` into
/// the editor pane.
pub fn write_chars_to_helix(chars: String) -> (r: Vec<Vec<String>>)
    ensures
        r.deep_view() == helix_write_plan(chars@),
{
    let ghost chars_view = chars@;
    let mut plan: Vec<Vec<String>> = Vec::new();
    plan.push(action_pair("write", "27"));
    plan.push(action_pair("move-focus", "right"));
    plan.push(action_pair("write", "27"));
    plan.push(action_pair("write-chars", chars.as_str()));
    plan.push(action_pair("write", "13"));
    proof {
        assert(plan.deep_view() =~= helix_write_plan(chars_view));
    }
    plan
}

/// Computes the keystroke plan that applies the editor command prefix
/// `method` to the path of the file relative to the project directory.
pub fn write_chars_and_rel_path_to_helix(
    method: &str,
    project_dir: &str,
    full_path_of_file: &str,
) -> (r: Result<Vec<Vec<String>>, PathError>)
    ensures
        match spec_relative_path(full_path_of_file@, project_dir@) {
            Ok(rel) => r matches Ok(p) && p.deep_view() == helix_write_plan(method@ + rel),
            Err(e) => r matches Err(a) && a == e,
        },
{
    let rel = match relative_path(full_path_of_file, project_dir) {
        Ok(rel) => rel,
        Err(e) => {
            return Err(e);
        },
    };
    let mut chars = String::from_str(method);
    chars.append(rel.as_str());
    Ok(write_chars_to_helix(chars))
}

} // verus!
