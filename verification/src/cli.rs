//! The command-line surface, as plain data.
//!
//! Argument parsing itself is an external concern; these types carry what a
//! parsed invocation asks for: which operation to run and how to print the
//! result.

use vstd::prelude::*;

verus! {

/// How the resulting document is printed.
#[derive(Debug, Clone, PartialEq, Eq, Structural)]
pub enum OutputFormat {
    /// The structured serialization.
    Yaml,
    /// The human-readable rendering.
    Human,
}

/// The operations the tool offers.
#[derive(Debug)]
pub enum Commands {
    /// Output the built-in example schedule skeleton.
    Example {},
    /// Create a new schedule from a skeleton file, pinning one milestone to
    /// a date given as `<alias>:<yyyy-mm-dd>`, and plan it.
    New { name: String, from_skeleton: String, with_due_date: String },
    /// Load an existing schedule and plan it again with no new pin.
    Replan { schedule: String },
}

/// A parsed invocation: an output format and a command.
#[derive(Debug)]
pub struct Args {
    pub output: OutputFormat,
    pub command: Commands,
}

} // verus!
