//! What a comparison found: the differences, and how they are written out.

use crate::linediff::{render_text_diff, render_text_diff_spec};
use vstd::prelude::*;
use vstd::string::*;

verus! {

/// One way in which the two runs differ. The first value is that of gccrs, the
/// second that of rustc.
#[derive(Clone, Debug, PartialEq, Eq)]
pub enum Diff {
    /// The exit codes differ.
    ExitCode(String, String),
    /// The texts on standard output differ.
    Stdout(String, String),
    /// The texts on standard error differ.
    Stderr(String, String),
    /// One run timed out and the other did not.
    Timeout(bool, bool),
}

/// The mathematical value of a [`Diff`].
pub ghost enum DiffView {
    ExitCode(Seq<char>, Seq<char>),
    Stdout(Seq<char>, Seq<char>),
    Stderr(Seq<char>, Seq<char>),
    Timeout(bool, bool),
}

impl View for Diff {
    type V = DiffView;

    open spec fn view(&self) -> DiffView {
        match *self {
            Diff::ExitCode(gccrs, rustc) => DiffView::ExitCode(gccrs@, rustc@),
            Diff::Stdout(gccrs, rustc) => DiffView::Stdout(gccrs@, rustc@),
            Diff::Stderr(gccrs, rustc) => DiffView::Stderr(gccrs@, rustc@),
            Diff::Timeout(gccrs, rustc) => DiffView::Timeout(gccrs, rustc),
        }
    }
}

/// A truth value in words.
pub open spec fn bool_text(value: bool) -> Seq<char> {
    if value {
        "true"@
    } else {
        "false"@
    }
}

/// The text that reports one difference.
pub open spec fn render_diff(diff: DiffView) -> Seq<char> {
    match diff {
        DiffView::Timeout(gccrs, rustc) => "=== Timeout Diff ===\n"@ + "gccrs timed out: "@
            + bool_text(gccrs) + "\nrustc timed out: "@ + bool_text(rustc) + "\n"@,
        DiffView::ExitCode(gccrs, rustc) => "\n=== Exit Code Diff ===\n"@ + "gccrs: "@ + gccrs
            + "\nrustc: "@ + rustc + "\n"@,
        DiffView::Stdout(gccrs, rustc) => "=== Stdout Diff ===\n"@ + render_text_diff_spec(
            gccrs,
            rustc,
        ),
        DiffView::Stderr(gccrs, rustc) => "=== Stderr Diff ===\n"@ + render_text_diff_spec(
            gccrs,
            rustc,
        ),
    }
}

/// The reports of a sequence of differences, each followed by a blank line.
pub open spec fn render_diffs(diffs: Seq<DiffView>) -> Seq<char>
    decreases diffs.len(),
{
    if diffs.len() == 0 {
        Seq::empty()
    } else {
        render_diffs(diffs.drop_last()) + render_diff(diffs.last()) + "\n"@
    }
}

/// The line that reports that nothing differs.
pub open spec fn identical_text() -> Seq<char> {
    "No differences found. The results are identical.\n"@
}

/// The text that reports a whole comparison.
pub open spec fn render_result(diffs: Seq<DiffView>) -> Seq<char> {
    if diffs.len() == 0 {
        identical_text()
    } else {
        render_diffs(diffs)
    }
}

fn bool_str(value: bool) -> (text: &'static str)
    ensures
        text@ == bool_text(value),
{
    if value {
        "true"
    } else {
        "false"
    }
}

impl Diff {
    /// Writes this difference out.
    pub fn render(&self) -> (out: String)
        ensures
            out@ == render_diff(self@),
    {
        match self {
            Diff::Timeout(gccrs, rustc) => {
                let mut out = String::from_str("=== Timeout Diff ===\n");
                out.append("gccrs timed out: ");
                out.append(bool_str(*gccrs));
                out.append("\nrustc timed out: ");
                out.append(bool_str(*rustc));
                out.append("\n");
                out
            },
            Diff::ExitCode(gccrs, rustc) => {
                let mut out = String::from_str("\n=== Exit Code Diff ===\n");
                out.append("gccrs: ");
                out.append(gccrs.as_str());
                out.append("\nrustc: ");
                out.append(rustc.as_str());
                out.append("\n");
                out
            },
            Diff::Stdout(gccrs, rustc) => {
                let mut out = String::from_str("=== Stdout Diff ===\n");
                let body = render_text_diff(gccrs.as_str(), rustc.as_str());
                out.append(body.as_str());
                out
            },
            Diff::Stderr(gccrs, rustc) => {
                let mut out = String::from_str("=== Stderr Diff ===\n");
                let body = render_text_diff(gccrs.as_str(), rustc.as_str());
                out.append(body.as_str());
                out
            },
        }
    }
}

/// The outcome of comparing two runs: the differences, in the order in which
/// they were looked for.
#[derive(Clone, Debug, PartialEq, Eq)]
pub struct AnalysisResult {
    /// The differences found.
    pub differences: Vec<Diff>,
}

impl View for AnalysisResult {
    type V = Seq<DiffView>;

    open spec fn view(&self) -> Seq<DiffView> {
        Seq::new(self.differences@.len(), |i: int| self.differences@[i]@)
    }
}

impl AnalysisResult {
    /// Whether the two runs behaved alike.
    pub fn is_identical(&self) -> (same: bool)
        ensures
            same == (self@.len() == 0),
    {
        self.differences.len() == 0
    }

    /// Whether the two runs differ in any way.
    pub fn has_diff(&self) -> (differs: bool)
        ensures
            differs == (self@.len() > 0),
    {
        !self.is_identical()
    }

    /// Writes the comparison out: one line if nothing differs, else each
    /// difference in turn.
    pub fn render(&self) -> (out: String)
        ensures
            out@ == render_result(self@),
    {
        if self.has_diff() {
            let mut out = String::new();
            let mut i: usize = 0;
            assert(self@.take(0) =~= Seq::empty());
            while i < self.differences.len()
                invariant
                    i <= self.differences.len(),
                    out@ == render_diffs(self@.take(i as int)),
                decreases self.differences.len() - i,
            {
                let one = self.differences[i].render();
                out.append(one.as_str());
                out.append("\n");
                proof {
                    let upto = self@.take(i as int + 1);
                    assert(upto.drop_last() =~= self@.take(i as int));
                    assert(upto.last() == self.differences@[i as int]@);
                    assert(out@ =~= render_diffs(upto));
                }
                i += 1;
            }
            assert(self@.take(self.differences.len() as int) =~= self@);
            out
        } else {
            String::from_str("No differences found. The results are identical.\n")
        }
    }
}

} // verus!
