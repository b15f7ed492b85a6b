use equivcheck::compare::{Comparison, StderrPolicy};
use equivcheck::executor::{ExecutionResult, ProcessOutput};
use equivcheck::result::{AnalysisResult, Diff};

fn completed(code: Option<i32>, stdout: &[u8], stderr: &[u8]) -> ExecutionResult {
    ExecutionResult::Completed(ProcessOutput {
        exit_code: code,
        stdout: stdout.to_vec(),
        stderr: stderr.to_vec(),
    })
}

#[test]
fn identical_runs_show_no_difference() {
    let a = completed(Some(0), b"42\n", b"");
    let b = completed(Some(0), b"42\n", b"");
    let result = Comparison::new(a, b).compare();
    assert!(result.is_identical());
    assert!(!result.has_diff());
    assert_eq!(result.differences, Vec::<Diff>::new());
}

#[test]
fn exit_codes_that_differ_are_the_only_difference() {
    let a = completed(Some(0), b"out\n", b"");
    let b = completed(Some(1), b"out\n", b"");
    let result = Comparison::new(a, b).compare();
    assert!(result.has_diff());
    assert_eq!(
        result.differences,
        vec![Diff::ExitCode("0".to_string(), "1".to_string())]
    );
}

#[test]
fn timeout_on_one_side_hides_everything_else() {
    let a = ExecutionResult::TimedOut;
    let b = completed(Some(0), b"late\n", b"noise\n");
    let result = Comparison::new(a, b).compare();
    assert_eq!(result.differences, vec![Diff::Timeout(true, false)]);
}

#[test]
fn timeout_on_the_other_side_is_reported_in_order() {
    let a = completed(Some(3), b"", b"");
    let b = ExecutionResult::TimedOut;
    let result = Comparison::new(a, b).compare();
    assert_eq!(result.differences, vec![Diff::Timeout(false, true)]);
}

#[test]
fn two_timeouts_are_identical() {
    let result = Comparison::new(ExecutionResult::TimedOut, ExecutionResult::TimedOut).compare();
    assert!(result.is_identical());
}

#[test]
fn stdout_difference_carries_both_texts() {
    let a = completed(Some(0), b"a\nb\nc\n", b"");
    let b = completed(Some(0), b"a\nx\nc\n", b"");
    let result = Comparison::new(a, b).compare();
    assert_eq!(
        result.differences,
        vec![Diff::Stdout("a\nb\nc\n".to_string(), "a\nx\nc\n".to_string())]
    );
}

#[test]
fn all_three_categories_are_reported_in_order() {
    let a = completed(Some(0), b"one", b"warn a");
    let b = completed(Some(-7), b"two", b"warn b");
    let result = Comparison::new(a, b).compare();
    assert_eq!(
        result.differences,
        vec![
            Diff::ExitCode("0".to_string(), "-7".to_string()),
            Diff::Stdout("one".to_string(), "two".to_string()),
            Diff::Stderr("warn a".to_string(), "warn b".to_string()),
        ]
    );
}

#[test]
fn missing_exit_code_reads_as_signal() {
    let a = completed(None, b"", b"");
    let b = completed(Some(139), b"", b"");
    let result = Comparison::new(a, b).compare();
    assert_eq!(
        result.differences,
        vec![Diff::ExitCode(
            "Terminated by signal".to_string(),
            "139".to_string()
        )]
    );
}

#[test]
fn exit_code_extremes_are_written_in_full() {
    assert_eq!(Comparison::format_exit_code(Some(i32::MIN)), "-2147483648");
    assert_eq!(Comparison::format_exit_code(Some(i32::MAX)), "2147483647");
    assert_eq!(Comparison::format_exit_code(Some(0)), "0");
    assert_eq!(Comparison::format_exit_code(Some(-1)), "-1");
    assert_eq!(Comparison::format_exit_code(Some(10)), "10");
    assert_eq!(Comparison::format_exit_code(None), "Terminated by signal");
}

#[test]
fn invalid_utf8_is_decoded_with_replacement_characters() {
    let a = completed(Some(0), &[0x66, 0x6f, 0xff, 0x6f], b"");
    let b = completed(Some(0), b"foo", b"");
    let result = Comparison::new(a, b).compare();
    assert_eq!(
        result.differences,
        vec![Diff::Stdout("fo\u{FFFD}o".to_string(), "foo".to_string())]
    );
}

#[test]
fn different_invalid_bytes_may_decode_alike() {
    let a = completed(Some(0), &[0xff], b"");
    let b = completed(Some(0), &[0xfe], b"");
    let result = Comparison::new(a, b).compare();
    assert!(result.is_identical());
}

#[test]
fn format_output_decodes_or_marks_absence() {
    assert_eq!(Comparison::format_output(Some(&b"hi\n".to_vec())), "hi\n");
    assert_eq!(Comparison::format_output(Some(&vec![0xc3, 0x28])), "\u{FFFD}(");
    assert_eq!(Comparison::format_output(None), "No output (timed out)");
}

#[test]
fn stderr_is_compared_in_full_by_default() {
    let a = completed(Some(1), b"", b"error: from gccrs\n");
    let b = completed(Some(1), b"", b"error: from rustc\n");
    let comparison = Comparison::new(a, b);
    assert_eq!(comparison.stderr_policy, StderrPolicy::FullText);
    assert_eq!(
        comparison.compare().differences,
        vec![Diff::Stderr(
            "error: from gccrs\n".to_string(),
            "error: from rustc\n".to_string()
        )]
    );
}

#[test]
fn presence_only_policy_ignores_wording() {
    let a = completed(Some(1), b"", b"error: from gccrs\n");
    let b = completed(Some(1), b"", b"error: from rustc\n");
    let result = Comparison::new(a, b)
        .with_stderr_policy(StderrPolicy::PresenceOnly)
        .compare();
    assert!(result.is_identical());
}

#[test]
fn presence_only_policy_reports_one_silent_side() {
    let a = completed(Some(0), b"", b"warning\n");
    let b = completed(Some(0), b"", b"");
    let result = Comparison::new(a, b)
        .with_stderr_policy(StderrPolicy::PresenceOnly)
        .compare();
    assert_eq!(
        result.differences,
        vec![Diff::Stderr("warning\n".to_string(), "".to_string())]
    );
}

#[test]
fn a_run_compared_with_its_copy_is_identical() {
    let run = completed(None, &[0xff, 0x00, 0x41], b"err");
    let result = Comparison::new(run.clone(), run).compare();
    assert_eq!(result, AnalysisResult { differences: vec![] });
    let late = Comparison::new(ExecutionResult::TimedOut, ExecutionResult::TimedOut)
        .with_stderr_policy(StderrPolicy::PresenceOnly)
        .compare();
    assert!(late.is_identical());
}

#[test]
fn partial_comparisons_agree_with_the_whole() {
    let a = completed(Some(2), b"same", b"");
    let b = completed(Some(3), b"same", b"");
    let comparison = Comparison::new(a, b);
    assert_eq!(comparison.compare_timeouts(), None);
    assert_eq!(
        comparison.compare_exit_code(),
        Some(("2".to_string(), "3".to_string()))
    );
    assert_eq!(comparison.compare_stderr(), None);
    assert_eq!(
        Comparison::compare_output(Some(&b"x".to_vec()), Some(&b"y".to_vec())),
        Some(("x".to_string(), "y".to_string()))
    );
    assert_eq!(
        Comparison::compare_output(Some(&b"x".to_vec()), Some(&b"x".to_vec())),
        None
    );
}

#[test]
fn accessors_of_a_run() {
    let run = completed(Some(5), b"o", b"e");
    assert!(!run.timed_out());
    assert_eq!(run.exit_code(), Some(5));
    assert_eq!(run.stdout(), Some(&b"o".to_vec()));
    assert_eq!(run.stderr(), Some(&b"e".to_vec()));
    let late = ExecutionResult::TimedOut;
    assert!(late.timed_out());
    assert_eq!(late.exit_code(), None);
    assert_eq!(late.stdout(), None);
    assert_eq!(late.stderr(), None);
}
