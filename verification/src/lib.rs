//! Test discovery and filter construction for a multiplexer-based dev tool.
//!
//! Given the path of a source file that is believed to contain tests, the
//! library identifies the test functions inside it, derives each test's
//! runner-addressable name, and assembles the argument vectors with which an
//! external test runner is launched inside a new pane of a terminal
//! multiplexer session.  All path handling, extraction post-processing and
//! command construction is verified; calls into the parsing crates and the
//! process spawning itself sit behind narrow, documented interfaces.

pub mod commands;
pub mod config;
pub mod errors;
pub mod paths;
pub mod text;
