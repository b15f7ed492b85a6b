//! The comparison of two runs, one per toolchain, under a fixed precedence:
//! a timeout on one side only hides everything else; otherwise exit codes,
//! standard output and standard error are each looked at, in that order.

use crate::executor::{ExecutionResult, ProcessOutput};
use crate::result::{AnalysisResult, Diff, DiffView};
use crate::text::{
    decode_lossy, decoded_text, format_signed, is_digit, lemma_decimal_digits,
    lemma_decoded_text_injective, lemma_signed_decimal_injective, signed_decimal,
};
use vstd::prelude::*;
use vstd::string::*;
use vstd::utf8::*;

verus! {

/// How the texts on standard error are compared.
#[derive(Clone, Copy, Debug, PartialEq, Eq, Structural)]
pub enum StderrPolicy {
    /// The texts are compared in full.
    FullText,
    /// Only whether each side wrote anything is compared: the wording of
    /// error messages may differ between toolchains.
    PresenceOnly,
}

/// What stands for the exit code of a run that has none.
pub open spec fn signal_text() -> Seq<char> {
    "Terminated by signal"@
}

/// What stands for the output of a run that timed out.
pub open spec fn no_output_text() -> Seq<char> {
    "No output (timed out)"@
}

/// An exit code as text: its decimal numeral, or the signal marker.
pub open spec fn exit_code_text(code: Option<i32>) -> Seq<char> {
    match code {
        Some(c) => signed_decimal(c as int),
        None => signal_text(),
    }
}

/// Captured bytes as text, decoded lossily; the marker where there are none.
pub open spec fn output_text(bytes: Option<Seq<u8>>) -> Seq<char> {
    match bytes {
        Some(b) => decoded_text(b),
        None => no_output_text(),
    }
}

/// The bytes a run wrote to standard output, if it ended in time.
pub open spec fn stdout_of(run: ExecutionResult) -> Option<Seq<u8>> {
    match run {
        ExecutionResult::TimedOut => None,
        ExecutionResult::Completed(output) => Some(output.stdout@),
    }
}

/// The bytes a run wrote to standard error, if it ended in time.
pub open spec fn stderr_of(run: ExecutionResult) -> Option<Seq<u8>> {
    match run {
        ExecutionResult::TimedOut => None,
        ExecutionResult::Completed(output) => Some(output.stderr@),
    }
}

/// Whether a run wrote anything to standard error.
pub open spec fn wrote_errors(run: ExecutionResult) -> bool {
    match stderr_of(run) {
        Some(bytes) => bytes.len() > 0,
        None => false,
    }
}

/// The timeout difference, where one side timed out and the other did not.
pub open spec fn timeout_diff(gccrs: ExecutionResult, rustc: ExecutionResult) -> Option<
    (bool, bool),
> {
    if gccrs.timed_out() != rustc.timed_out() {
        Some((gccrs.timed_out(), rustc.timed_out()))
    } else {
        None
    }
}

/// The two texts, where they differ.
pub open spec fn text_diff(gccrs: Seq<char>, rustc: Seq<char>) -> Option<(Seq<char>, Seq<char>)> {
    if gccrs != rustc {
        Some((gccrs, rustc))
    } else {
        None
    }
}

/// The exit-code difference, where the two exit codes read differently.
pub open spec fn exit_code_diff(gccrs: ExecutionResult, rustc: ExecutionResult) -> Option<
    (Seq<char>, Seq<char>),
> {
    text_diff(exit_code_text(gccrs.exit_code()), exit_code_text(rustc.exit_code()))
}

/// The standard-output difference, where the decoded texts differ.
pub open spec fn stdout_diff(gccrs: ExecutionResult, rustc: ExecutionResult) -> Option<
    (Seq<char>, Seq<char>),
> {
    text_diff(output_text(stdout_of(gccrs)), output_text(stdout_of(rustc)))
}

/// The standard-error difference under `policy`.
pub open spec fn stderr_diff(
    gccrs: ExecutionResult,
    rustc: ExecutionResult,
    policy: StderrPolicy,
) -> Option<(Seq<char>, Seq<char>)> {
    match policy {
        StderrPolicy::FullText => text_diff(
            output_text(stderr_of(gccrs)),
            output_text(stderr_of(rustc)),
        ),
        StderrPolicy::PresenceOnly => if wrote_errors(gccrs) != wrote_errors(rustc) {
            Some((output_text(stderr_of(gccrs)), output_text(stderr_of(rustc))))
        } else {
            None
        },
    }
}

/// The differences between two runs, in order.
pub open spec fn differences(
    gccrs: ExecutionResult,
    rustc: ExecutionResult,
    policy: StderrPolicy,
) -> Seq<DiffView> {
    match timeout_diff(gccrs, rustc) {
        Some(pair) => seq![DiffView::Timeout(pair.0, pair.1)],
        None => {
            let exit = match exit_code_diff(gccrs, rustc) {
                Some(pair) => seq![DiffView::ExitCode(pair.0, pair.1)],
                None => Seq::empty(),
            };
            let out = match stdout_diff(gccrs, rustc) {
                Some(pair) => seq![DiffView::Stdout(pair.0, pair.1)],
                None => Seq::empty(),
            };
            let err = match stderr_diff(gccrs, rustc, policy) {
                Some(pair) => seq![DiffView::Stderr(pair.0, pair.1)],
                None => Seq::empty(),
            };
            exit + out + err
        },
    }
}

/// The views of a pair of texts.
pub open spec fn pair_view(pair: Option<(String, String)>) -> Option<(Seq<char>, Seq<char>)> {
    match pair {
        Some(p) => Some((p.0@, p.1@)),
        None => None,
    }
}

/// The views of optional bytes.
pub open spec fn bytes_view(bytes: Option<&Vec<u8>>) -> Option<Seq<u8>> {
    match bytes {
        Some(b) => Some(b@),
        None => None,
    }
}

/// Two runs to be compared: that of the binary built by gccrs, and that of
/// the binary built by rustc.
#[derive(Clone, Debug)]
pub struct Comparison {
    /// The run of the gccrs binary.
    pub gccrs: ExecutionResult,
    /// The run of the rustc binary.
    pub rustc: ExecutionResult,
    /// How standard error is compared.
    pub stderr_policy: StderrPolicy,
}

impl Comparison {
    /// Sets up the comparison of two runs, standard error compared in full.
    pub fn new(gccrs: ExecutionResult, rustc: ExecutionResult) -> (comparison: Self)
        ensures
            comparison.gccrs == gccrs,
            comparison.rustc == rustc,
            comparison.stderr_policy == StderrPolicy::FullText,
    {
        Comparison { gccrs, rustc, stderr_policy: StderrPolicy::FullText }
    }

    /// The same comparison with another way of comparing standard error.
    pub fn with_stderr_policy(self, policy: StderrPolicy) -> (comparison: Self)
        ensures
            comparison.gccrs == self.gccrs,
            comparison.rustc == self.rustc,
            comparison.stderr_policy == policy,
    {
        Comparison { gccrs: self.gccrs, rustc: self.rustc, stderr_policy: policy }
    }

    /// Compares the two runs.
    pub fn compare(&self) -> (result: AnalysisResult)
        ensures
            result@ == differences(self.gccrs, self.rustc, self.stderr_policy),
    {
        let mut differences: Vec<Diff> = Vec::new();
        if let Some(pair) = self.compare_timeouts() {
            differences.push(Diff::Timeout(pair.0, pair.1));
            let result = AnalysisResult { differences };
            assert(result@ =~= self::differences(self.gccrs, self.rustc, self.stderr_policy));
            return result;
        }
        if let Some(pair) = self.compare_exit_code() {
            differences.push(Diff::ExitCode(pair.0, pair.1));
        }
        if let Some(pair) = Self::compare_output(self.gccrs.stdout(), self.rustc.stdout()) {
            differences.push(Diff::Stdout(pair.0, pair.1));
        }
        if let Some(pair) = self.compare_stderr() {
            differences.push(Diff::Stderr(pair.0, pair.1));
        }
        let result = AnalysisResult { differences };
        assert(result@ =~= self::differences(self.gccrs, self.rustc, self.stderr_policy));
        result
    }

    /// Compares standard error as the policy says.
    pub fn compare_stderr(&self) -> (found: Option<(String, String)>)
        ensures
            pair_view(found) == stderr_diff(self.gccrs, self.rustc, self.stderr_policy),
    {
        match self.stderr_policy {
            StderrPolicy::FullText => Self::compare_output(
                self.gccrs.stderr(),
                self.rustc.stderr(),
            ),
            StderrPolicy::PresenceOnly => {
                let gccrs_has_error = match self.gccrs.stderr() {
                    Some(bytes) => bytes.len() > 0,
                    None => false,
                };
                let rustc_has_error = match self.rustc.stderr() {
                    Some(bytes) => bytes.len() > 0,
                    None => false,
                };
                if gccrs_has_error != rustc_has_error {
                    Some(
                        (
                            Self::format_output(self.gccrs.stderr()),
                            Self::format_output(self.rustc.stderr()),
                        ),
                    )
                } else {
                    None
                }
            },
        }
    }

    /// Says which side timed out, where only one did.
    pub fn compare_timeouts(&self) -> (found: Option<(bool, bool)>)
        ensures
            found == timeout_diff(self.gccrs, self.rustc),
    {
        if self.gccrs.timed_out() != self.rustc.timed_out() {
            Some((self.gccrs.timed_out(), self.rustc.timed_out()))
        } else {
            None
        }
    }

    /// Writes an exit code as text.
    pub fn format_exit_code(code: Option<i32>) -> (text: String)
        ensures
            text@ == exit_code_text(code),
    {
        match code {
            Some(c) => format_signed(c),
            None => String::from_str("Terminated by signal"),
        }
    }

    /// Compares the exit codes as they read.
    pub fn compare_exit_code(&self) -> (found: Option<(String, String)>)
        ensures
            pair_view(found) == exit_code_diff(self.gccrs, self.rustc),
    {
        let gccrs_exit_code = Self::format_exit_code(self.gccrs.exit_code());
        let rustc_exit_code = Self::format_exit_code(self.rustc.exit_code());
        if gccrs_exit_code == rustc_exit_code {
            None
        } else {
            Some((gccrs_exit_code, rustc_exit_code))
        }
    }

    /// Writes captured bytes as text.
    pub fn format_output(output: Option<&Vec<u8>>) -> (text: String)
        ensures
            text@ == output_text(bytes_view(output)),
    {
        match output {
            Some(bytes) => decode_lossy(bytes),
            None => String::from_str("No output (timed out)"),
        }
    }

    /// Compares two captured streams as text.
    pub fn compare_output(gccrs: Option<&Vec<u8>>, rustc: Option<&Vec<u8>>) -> (found: Option<
        (String, String),
    >)
        ensures
            pair_view(found) == text_diff(
                output_text(bytes_view(gccrs)),
                output_text(bytes_view(rustc)),
            ),
    {
        let gccrs_output = Self::format_output(gccrs);
        let rustc_output = Self::format_output(rustc);
        if gccrs_output == rustc_output {
            None
        } else {
            Some((gccrs_output, rustc_output))
        }
    }
}

/// An exit code is known from its text: two codes that read alike are the
/// same code, and no code reads like the signal marker.
pub proof fn lemma_exit_code_text_injective(a: Option<i32>, b: Option<i32>)
    requires
        exit_code_text(a) == exit_code_text(b),
    ensures
        a == b,
{
    reveal_strlit("Terminated by signal");
    assert(signal_text()[0] == 'T');
    match (a, b) {
        (Some(x), Some(y)) => {
            lemma_signed_decimal_injective(x as int, y as int);
        },
        (Some(x), None) => {
            lemma_numeral_starts(x as int);
            assert(exit_code_text(a)[0] == exit_code_text(b)[0]);
        },
        (None, Some(y)) => {
            lemma_numeral_starts(y as int);
            assert(exit_code_text(a)[0] == exit_code_text(b)[0]);
        },
        (None, None) => {},
    }
}

proof fn lemma_numeral_starts(n: int)
    ensures
        signed_decimal(n).len() >= 1,
        signed_decimal(n)[0] == '-' || is_digit(signed_decimal(n)[0]),
{
    if n < 0 {
    } else {
        lemma_decimal_digits(n as nat);
    }
}

/// Where exactly one run timed out, the comparison holds one difference, the
/// timeout, and nothing else.
pub proof fn lemma_timeout_dominance(
    gccrs: ExecutionResult,
    rustc: ExecutionResult,
    policy: StderrPolicy,
)
    requires
        gccrs.timed_out() != rustc.timed_out(),
    ensures
        differences(gccrs, rustc, policy) == seq![
            DiffView::Timeout(gccrs.timed_out(), rustc.timed_out()),
        ],
        differences(gccrs, rustc, policy).len() == 1,
{
}

/// Where both runs ended in time, no timeout is reported, and every
/// divergence is: exit codes that differ give an exit-code difference,
/// standard outputs that decode to different texts a standard-output
/// difference, and so for standard error when it is compared in full. Outputs
/// that are valid UTF-8 decode to different texts whenever their bytes differ.
pub proof fn lemma_precedence(gccrs: ProcessOutput, rustc: ProcessOutput, policy: StderrPolicy)
    ensures
        ({
            let a = ExecutionResult::Completed(gccrs);
            let b = ExecutionResult::Completed(rustc);
            let found = differences(a, b, policy);
            &&& forall|i: int| 0 <= i < found.len() ==> !(#[trigger] found[i] is Timeout)
            &&& gccrs.exit_code != rustc.exit_code ==> found.contains(
                DiffView::ExitCode(
                    exit_code_text(gccrs.exit_code),
                    exit_code_text(rustc.exit_code),
                ),
            )
            &&& decoded_text(gccrs.stdout@) != decoded_text(rustc.stdout@) ==> found.contains(
                DiffView::Stdout(decoded_text(gccrs.stdout@), decoded_text(rustc.stdout@)),
            )
            &&& policy == StderrPolicy::FullText && decoded_text(gccrs.stderr@) != decoded_text(
                rustc.stderr@,
            ) ==> found.contains(
                DiffView::Stderr(decoded_text(gccrs.stderr@), decoded_text(rustc.stderr@)),
            )
            &&& valid_utf8(gccrs.stdout@) && valid_utf8(rustc.stdout@) && gccrs.stdout@
                != rustc.stdout@ ==> decoded_text(gccrs.stdout@) != decoded_text(rustc.stdout@)
            &&& valid_utf8(gccrs.stderr@) && valid_utf8(rustc.stderr@) && gccrs.stderr@
                != rustc.stderr@ ==> decoded_text(gccrs.stderr@) != decoded_text(rustc.stderr@)
        }),
{
    let a = ExecutionResult::Completed(gccrs);
    let b = ExecutionResult::Completed(rustc);
    let found = differences(a, b, policy);
    let exit: Seq<DiffView> = match exit_code_diff(a, b) {
        Some(pair) => seq![DiffView::ExitCode(pair.0, pair.1)],
        None => Seq::empty(),
    };
    let out: Seq<DiffView> = match stdout_diff(a, b) {
        Some(pair) => seq![DiffView::Stdout(pair.0, pair.1)],
        None => Seq::empty(),
    };
    let err: Seq<DiffView> = match stderr_diff(a, b, policy) {
        Some(pair) => seq![DiffView::Stderr(pair.0, pair.1)],
        None => Seq::empty(),
    };
    assert(found == exit + out + err);
    if gccrs.exit_code != rustc.exit_code {
        if exit_code_text(gccrs.exit_code) == exit_code_text(rustc.exit_code) {
            lemma_exit_code_text_injective(gccrs.exit_code, rustc.exit_code);
        }
        assert(found[0] == DiffView::ExitCode(
            exit_code_text(gccrs.exit_code),
            exit_code_text(rustc.exit_code),
        ));
    }
    if decoded_text(gccrs.stdout@) != decoded_text(rustc.stdout@) {
        assert(found[exit.len() as int] == DiffView::Stdout(
            decoded_text(gccrs.stdout@),
            decoded_text(rustc.stdout@),
        ));
    }
    if policy == StderrPolicy::FullText && decoded_text(gccrs.stderr@) != decoded_text(
        rustc.stderr@,
    ) {
        assert(found[(exit.len() + out.len()) as int] == DiffView::Stderr(
            decoded_text(gccrs.stderr@),
            decoded_text(rustc.stderr@),
        ));
    }
    if valid_utf8(gccrs.stdout@) && valid_utf8(rustc.stdout@) && decoded_text(gccrs.stdout@)
        == decoded_text(rustc.stdout@) {
        lemma_decoded_text_injective(gccrs.stdout@, rustc.stdout@);
    }
    if valid_utf8(gccrs.stderr@) && valid_utf8(rustc.stderr@) && decoded_text(gccrs.stderr@)
        == decoded_text(rustc.stderr@) {
        lemma_decoded_text_injective(gccrs.stderr@, rustc.stderr@);
    }
}

/// A run compared with itself shows no difference, whatever the policy.
pub proof fn lemma_identity(run: ExecutionResult, policy: StderrPolicy)
    ensures
        differences(run, run, policy) == Seq::<DiffView>::empty(),
        differences(run, run, policy).len() == 0,
{
    assert(differences(run, run, policy) =~= Seq::<DiffView>::empty());
}

} // verus!
