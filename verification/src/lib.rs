//! Decides, for file paths read one per line, whether the file's extension
//! should be lowercased, and directs the rename.
//!
//! The library is the pure core of the tool: the path analyzer, the executor's
//! decision rules over filesystem observations, and the reporting of each
//! outcome into one of two channels. All filesystem and stream I/O stays with
//! the caller, which hands the library plain values (path strings, probe
//! results) and performs the one mutating rename only when directed to.

use vstd::prelude::*;

pub mod analyze;
pub mod err;
pub mod err_fmt;
pub mod fold;
pub mod laws;
pub mod rename;
pub mod renamer;
pub mod reporter;

verus! {

/// The command-line choice the tool runs under: with `execute` set the
/// renames are performed, without it the run is dry.
pub struct CliArgs {
    pub execute: bool,
}

} // verus!
