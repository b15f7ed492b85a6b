//! One named test case: the two binaries, their shared time budget, and the
//! verdict on their two runs.

use crate::compare::{differences, Comparison, StderrPolicy};
use crate::executor::{ExecutionContext, ExecutionError, ExecutionResult};
use crate::paths::PathKind;
use crate::result::{render_result, AnalysisResult, DiffView};
use std::time::Duration;
use vstd::prelude::*;
use vstd::string::*;

verus! {

/// Why the analysis of a test case did not succeed.
#[derive(Clone, Debug, PartialEq, Eq)]
pub enum AnalysisError {
    /// One of the binaries could not be run.
    Execution(ExecutionError),
    /// The two runs differ: the differences, and the name of the test case.
    ComparisonFailed(AnalysisResult, String),
}

impl AnalysisError {
    /// The message of this error.
    pub open spec fn spec_message(self) -> Seq<char> {
        match self {
            AnalysisError::Execution(error) => error.spec_message(),
            AnalysisError::ComparisonFailed(result, name) => "Comparison failed for case '"@ + name@
                + "': "@ + render_result(result@),
        }
    }

    /// The message of this error.
    pub fn message(&self) -> (text: String)
        ensures
            text@ == self.spec_message(),
    {
        match self {
            AnalysisError::Execution(error) => error.message(),
            AnalysisError::ComparisonFailed(result, name) => {
                let mut text = String::from_str("Comparison failed for case '");
                text.append(name.as_str());
                text.append("': ");
                let report = result.render();
                text.append(report.as_str());
                text
            },
        }
    }
}

impl From<ExecutionError> for AnalysisError {
    /// A run that failed, as the failure of an analysis.
    fn from(error: ExecutionError) -> (wrapped: Self) {
        AnalysisError::Execution(error)
    }
}

impl vstd::std_specs::convert::FromSpecImpl<ExecutionError> for AnalysisError {
    open spec fn obeys_from_spec() -> bool {
        true
    }

    open spec fn from_spec(error: ExecutionError) -> Self {
        AnalysisError::Execution(error)
    }
}

/// What the analysis of a test case named `name` comes to, given how the two
/// runs went: a run that failed comes first, that of gccrs before that of
/// rustc; else the differences decide.
pub open spec fn verdict(
    name: Seq<char>,
    policy: StderrPolicy,
    gccrs_run: Result<ExecutionResult, ExecutionError>,
    rustc_run: Result<ExecutionResult, ExecutionError>,
    outcome: Result<(), AnalysisError>,
) -> bool {
    match (gccrs_run, rustc_run) {
        (Err(error), _) => outcome == Err::<(), AnalysisError>(AnalysisError::Execution(error)),
        (Ok(_), Err(error)) => outcome == Err::<(), AnalysisError>(
            AnalysisError::Execution(error),
        ),
        (Ok(gccrs), Ok(rustc)) => {
            let found = differences(gccrs, rustc, policy);
            if found.len() == 0 {
                outcome is Ok
            } else {
                &&& outcome is Err
                &&& outcome->Err_0 is ComparisonFailed
                &&& outcome->Err_0->ComparisonFailed_0@ == found
                &&& outcome->Err_0->ComparisonFailed_1@ == name
            }
        },
    }
}

/// A named test case with the binary of each toolchain.
#[derive(Debug)]
pub struct AnalysisContext {
    /// The name of the test case.
    pub testname: String,
    /// The binary built by gccrs.
    pub gccrs: ExecutionContext,
    /// The binary built by rustc.
    pub rustc: ExecutionContext,
    /// How standard error is compared.
    pub stderr_policy: StderrPolicy,
}

impl AnalysisContext {
    /// Binds a name to two binaries, each of which must be a regular file that
    /// may be executed, and to the time each may run. Standard error is
    /// compared in full.
    pub fn new(
        testname: String,
        gccrs_binary: &str,
        gccrs_found: PathKind,
        rustc_binary: &str,
        rustc_found: PathKind,
        timeout: Duration,
    ) -> (context: Self)
        requires
            gccrs_found == PathKind::Executable,
            rustc_found == PathKind::Executable,
        ensures
            context.testname == testname,
            context.gccrs.binary@ == gccrs_binary@,
            context.rustc.binary@ == rustc_binary@,
            context.gccrs.timeout == timeout,
            context.rustc.timeout == timeout,
            context.stderr_policy == StderrPolicy::FullText,
    {
        AnalysisContext {
            testname,
            gccrs: ExecutionContext::new(gccrs_binary, gccrs_found, timeout),
            rustc: ExecutionContext::new(rustc_binary, rustc_found, timeout),
            stderr_policy: StderrPolicy::FullText,
        }
    }

    /// The same test case with another way of comparing standard error.
    pub fn with_stderr_policy(self, policy: StderrPolicy) -> (context: Self)
        ensures
            context.testname == self.testname,
            context.gccrs == self.gccrs,
            context.rustc == self.rustc,
            context.stderr_policy == policy,
    {
        AnalysisContext {
            testname: self.testname,
            gccrs: self.gccrs,
            rustc: self.rustc,
            stderr_policy: policy,
        }
    }

    /// Judges the two runs of this test case: a run that could not be carried
    /// out is reported as such and not as a difference; runs that differ fail
    /// with the differences and the name of the case.
    pub fn analyze(
        &self,
        gccrs_run: Result<ExecutionResult, ExecutionError>,
        rustc_run: Result<ExecutionResult, ExecutionError>,
    ) -> (outcome: Result<(), AnalysisError>)
        ensures
            verdict(self.testname@, self.stderr_policy, gccrs_run, rustc_run, outcome),
    {
        let gccrs = match gccrs_run {
            Ok(run) => run,
            Err(error) => {
                return Err(AnalysisError::from(error));
            },
        };
        let rustc = match rustc_run {
            Ok(run) => run,
            Err(error) => {
                return Err(AnalysisError::from(error));
            },
        };
        let comparison = Comparison::new(gccrs, rustc).with_stderr_policy(self.stderr_policy);
        let result = comparison.compare();
        if result.is_identical() {
            Ok(())
        } else {
            Err(AnalysisError::ComparisonFailed(result, self.testname.clone()))
        }
    }
}

/// The analysis succeeds exactly when both binaries ran and their runs show no
/// difference.
pub proof fn lemma_analysis_succeeds_iff_identical(
    name: Seq<char>,
    policy: StderrPolicy,
    gccrs_run: Result<ExecutionResult, ExecutionError>,
    rustc_run: Result<ExecutionResult, ExecutionError>,
    outcome: Result<(), AnalysisError>,
)
    requires
        verdict(name, policy, gccrs_run, rustc_run, outcome),
    ensures
        outcome is Ok <==> gccrs_run is Ok && rustc_run is Ok && differences(
            gccrs_run->Ok_0,
            rustc_run->Ok_0,
            policy,
        ) == Seq::<DiffView>::empty(),
{
    if gccrs_run is Ok && rustc_run is Ok {
        let found = differences(gccrs_run->Ok_0, rustc_run->Ok_0, policy);
        if found.len() == 0 {
            assert(found =~= Seq::<DiffView>::empty());
        }
    }
}

} // verus!
