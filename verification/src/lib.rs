//! Differential testing of two compiler toolchains: the protocol for running a
//! binary under a deadline, the comparison of two captured runs, and the
//! rendering of what differs.

pub mod text;
pub mod paths;
pub mod executor;
pub mod linediff;
pub mod result;
pub mod compare;
pub mod context;
pub mod compiler;
pub mod config;
pub mod cli;
pub mod report;
pub mod testsuite;

pub use compare::{Comparison, StderrPolicy};
pub use context::{AnalysisContext, AnalysisError};
pub use executor::{ExecutionContext, ExecutionError, ExecutionResult, ProcessOutput};
pub use result::{AnalysisResult, Diff};
