//! The tally of a whole session: what was analysed, what passed, what failed,
//! and what went wrong before any analysis.

use crate::context::AnalysisError;
use std::time::Duration;
use vstd::prelude::*;
use vstd::string::*;

verus! {

/// Something that went wrong with a test case.
#[derive(Clone, Debug, PartialEq, Eq)]
pub enum ErrorReporter {
    /// Its analysis failed.
    Analysis(AnalysisError),
    /// It could not be compiled.
    Compilation {
        /// What the compiler said.
        message: String,
    },
}

impl ErrorReporter {
    /// The message of this error.
    pub open spec fn spec_message(self) -> Seq<char> {
        match self {
            ErrorReporter::Analysis(error) => "Analysis error: "@ + error.spec_message(),
            ErrorReporter::Compilation { message } => message@,
        }
    }

    /// The message of this error.
    pub fn message(&self) -> (text: String)
        ensures
            text@ == self.spec_message(),
    {
        match self {
            ErrorReporter::Analysis(error) => {
                let mut text = String::from_str("Analysis error: ");
                let detail = error.message();
                text.append(detail.as_str());
                text
            },
            ErrorReporter::Compilation { message } => message.clone(),
        }
    }
}

impl From<AnalysisError> for ErrorReporter {
    /// Wraps the failure of an analysis.
    fn from(error: AnalysisError) -> (reporter: Self) {
        ErrorReporter::Analysis(error)
    }
}

impl vstd::std_specs::convert::FromSpecImpl<AnalysisError> for ErrorReporter {
    open spec fn obeys_from_spec() -> bool {
        true
    }

    open spec fn from_spec(error: AnalysisError) -> Self {
        ErrorReporter::Analysis(error)
    }
}

/// The outcome of one analysed test case.
#[derive(Debug)]
pub struct AnalysisReport {
    /// The name of the test case.
    pub test_name: String,
    /// How its analysis ended.
    pub result: Result<(), AnalysisError>,
    /// How long its analysis took.
    pub duration: Duration,
}

/// The tally of a session.
#[derive(Debug)]
pub struct Report {
    /// How many test cases were analysed.
    pub total_tests: usize,
    /// How many of them passed.
    pub passed_tests: usize,
    /// How many of them failed.
    pub failed_tests: usize,
    /// What went wrong before an analysis.
    pub errors: Vec<ErrorReporter>,
    /// The outcome of each analysis, in order.
    pub analysis_reports: Vec<AnalysisReport>,
}

/// How many of the reports are of a test case that passed.
pub open spec fn passed_count(reports: Seq<AnalysisReport>) -> nat
    decreases reports.len(),
{
    if reports.len() == 0 {
        0
    } else {
        passed_count(reports.drop_last()) + if reports.last().result is Ok {
            1nat
        } else {
            0nat
        }
    }
}

impl Report {
    /// The counters agree with the reports: one report for each test case
    /// analysed, and each counted as passed or as failed.
    pub open spec fn wf(&self) -> bool {
        &&& self.total_tests == self.analysis_reports@.len()
        &&& self.passed_tests == passed_count(self.analysis_reports@)
        &&& self.failed_tests == self.total_tests - self.passed_tests
    }

    /// An empty tally.
    pub fn new() -> (report: Self)
        ensures
            report.wf(),
            report.total_tests == 0,
            report.errors@.len() == 0,
            report.analysis_reports@.len() == 0,
    {
        Report {
            total_tests: 0,
            passed_tests: 0,
            failed_tests: 0,
            errors: Vec::new(),
            analysis_reports: Vec::new(),
        }
    }

    /// Records the outcome of one analysis.
    pub fn add_result(
        &mut self,
        test_name: String,
        result: Result<(), AnalysisError>,
        duration: Duration,
    )
        requires
            old(self).total_tests < usize::MAX,
            old(self).passed_tests < usize::MAX,
            old(self).failed_tests < usize::MAX,
        ensures
            old(self).wf() ==> final(self).wf(),
            final(self).total_tests == old(self).total_tests + 1,
            final(self).passed_tests == old(self).passed_tests + if result is Ok {
                1int
            } else {
                0int
            },
            final(self).failed_tests == old(self).failed_tests + if result is Ok {
                0int
            } else {
                1int
            },
            final(self).analysis_reports@ == old(self).analysis_reports@.push(
                AnalysisReport { test_name, result, duration },
            ),
            final(self).errors == old(self).errors,
    {
        self.total_tests += 1;
        match &result {
            Ok(_) => self.passed_tests += 1,
            Err(_) => self.failed_tests += 1,
        }
        let ghost before = self.analysis_reports@;
        self.analysis_reports.push(AnalysisReport { test_name, result, duration });
        proof {
            assert(self.analysis_reports@.drop_last() =~= before);
        }
    }

    /// How many test cases failed, if any did: a session with a failure does
    /// not succeed.
    pub fn failures(&self) -> (failed: Option<usize>)
        ensures
            failed == if self.failed_tests > 0 {
                Some(self.failed_tests)
            } else {
                None
            },
    {
        if self.failed_tests > 0 {
            Some(self.failed_tests)
        } else {
            None
        }
    }

    /// Records something that went wrong before an analysis.
    pub fn add_error(&mut self, error: ErrorReporter)
        ensures
            final(self).errors@ == old(self).errors@.push(error),
            final(self).total_tests == old(self).total_tests,
            final(self).passed_tests == old(self).passed_tests,
            final(self).failed_tests == old(self).failed_tests,
            final(self).analysis_reports == old(self).analysis_reports,
    {
        self.errors.push(error);
    }
}

} // verus!
