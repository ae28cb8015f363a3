//! The failure taxonomy of test discovery and filter construction.

use vstd::prelude::*;

verus! {

/// Why a file path could not be resolved against a test root.
#[derive(Debug, Clone, Copy, PartialEq, Eq, Structural)]
pub enum PathError {
    /// The file path does not lie under the root.
    NotUnderRoot,
    /// A component of the relative path is not plain text
    /// (a `..` segment, a `.` segment, or a root marker).
    NonTextComponent,
    /// The path relative to the root has no components at all.
    EmptyRelativePath,
}

/// One failure of test discovery or filter construction.
///
/// Every variant is fatal to the current invocation: discovery never degrades
/// to a partial or empty-but-successful result.
#[derive(Debug)]
pub enum DiscoveryError {
    /// The source text is not syntactically valid; carries the parser's own
    /// message so the failure can be diagnosed without rerunning.
    Parse(String),
    /// The file path could not be resolved against the test root.
    PathResolution(PathError),
    /// No test identifiers were extracted from the source text.
    NoTestsFound,
}

} // verus!
