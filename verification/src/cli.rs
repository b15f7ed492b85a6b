//! The command line, as plain values.

use vstd::prelude::*;

verus! {

/// What to validate.
#[derive(Clone, Debug, PartialEq, Eq)]
pub enum Mode {
    /// One test case, given by the source file for each compiler.
    File {
        /// The source file for rustc.
        rustc: String,
        /// The source file for gccrs.
        gccrs: String,
    },
    /// Every test case of a directory with a `rustc` and a `gccrs`
    /// subdirectory.
    Dir {
        /// The directory.
        path: String,
    },
}

/// The arguments of one invocation.
#[derive(Clone, Debug, PartialEq, Eq)]
pub struct Cli {
    /// What to validate.
    pub mode: Mode,
    /// Build without optimization only.
    pub no_opt: bool,
}

} // verus!
