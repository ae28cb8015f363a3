//! The subcommands of the tool, reduced to what each one decides and
//! computes: the keystroke plans sent to the editor pane, the argument
//! vectors of the multiplexer invocations, and test discovery for the two
//! runner ecosystems.

pub mod find;
pub mod find_in_helix;
pub mod helpers;
pub mod open;
pub mod open_in_helix;
pub mod run_cargo_nextest;
pub mod run_xunit;
