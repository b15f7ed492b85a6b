use equivcheck::context::{AnalysisContext, AnalysisError};
use equivcheck::compare::StderrPolicy;
use equivcheck::executor::{
    ExecutionContext, ExecutionError, ExecutionResult, ProcessOutput, RunAction, RunEvent,
    RunState,
};
use equivcheck::paths::PathKind;
use equivcheck::result::{AnalysisResult, Diff};
use std::time::Duration;

fn output(code: i32, stdout: &str) -> ProcessOutput {
    ProcessOutput {
        exit_code: Some(code),
        stdout: stdout.as_bytes().to_vec(),
        stderr: Vec::new(),
    }
}

#[test]
fn a_run_that_ends_in_time_is_collected() {
    let (state, action) = RunState::start();
    assert_eq!((state, action), (RunState::Spawning, RunAction::Spawn));
    let (state, action) = state.step(RunEvent::Spawned);
    assert_eq!((state, action), (RunState::Waiting, RunAction::Wait));
    let (state, action) = state.step(RunEvent::Exited);
    assert_eq!((state, action), (RunState::Collecting, RunAction::Collect));
    let (state, action) = state.step(RunEvent::Collected(output(0, "42\n")));
    assert_eq!(state, RunState::Finished);
    assert_eq!(
        action,
        RunAction::Return(Ok(ExecutionResult::Completed(output(0, "42\n"))))
    );
}

#[test]
fn a_run_that_is_late_is_killed_and_reaped() {
    let (state, _) = RunState::start();
    let (state, _) = state.step(RunEvent::Spawned);
    let (state, action) = state.step(RunEvent::DeadlinePassed);
    assert_eq!((state, action), (RunState::Killing, RunAction::Kill));
    let (state, action) = state.step(RunEvent::Killed);
    assert_eq!((state, action), (RunState::Reaping, RunAction::Reap));
    let (state, action) = state.step(RunEvent::Reaped);
    assert_eq!(state, RunState::Finished);
    assert_eq!(action, RunAction::Return(Ok(ExecutionResult::TimedOut)));
}

#[test]
fn every_failure_ends_the_run_with_its_text() {
    let failed = |text: &str| {
        (
            RunState::Finished,
            RunAction::Return(Err(ExecutionError::Failed(text.to_string()))),
        )
    };
    assert_eq!(
        RunState::Spawning.step(RunEvent::SpawnFailed("no such file".to_string())),
        failed("no such file")
    );
    assert_eq!(
        RunState::Waiting.step(RunEvent::WaitFailed("interrupted".to_string())),
        failed("interrupted")
    );
    assert_eq!(
        RunState::Collecting.step(RunEvent::CollectFailed("broken pipe".to_string())),
        failed("broken pipe")
    );
    assert_eq!(
        RunState::Killing.step(RunEvent::KillFailed("not permitted".to_string())),
        failed("not permitted")
    );
    assert_eq!(
        RunState::Reaping.step(RunEvent::ReapFailed("no child processes".to_string())),
        failed("no child processes")
    );
}

#[test]
fn a_failed_reap_is_a_failure_and_no_timeout() {
    let (state, _) = RunState::start();
    let (state, _) = state.step(RunEvent::Spawned);
    let (state, _) = state.step(RunEvent::DeadlinePassed);
    let (state, action) = state.step(RunEvent::Killed);
    assert_eq!((state, action), (RunState::Reaping, RunAction::Reap));
    let (state, action) = state.step(RunEvent::ReapFailed("interrupted".to_string()));
    assert_eq!(state, RunState::Finished);
    assert_eq!(
        action,
        RunAction::Return(Err(ExecutionError::Failed("interrupted".to_string())))
    );
}

#[test]
fn a_failed_reap_out_of_turn_is_unexpected() {
    let failed = (
        RunState::Finished,
        RunAction::Return(Err(ExecutionError::Failed("unexpected event".to_string()))),
    );
    assert_eq!(
        RunState::Waiting.step(RunEvent::ReapFailed("early".to_string())),
        failed
    );
    assert_eq!(
        RunState::Killing.step(RunEvent::ReapFailed("early".to_string())),
        failed
    );
}

#[test]
fn an_event_out_of_turn_ends_the_run_with_a_failure() {
    let failed = (
        RunState::Finished,
        RunAction::Return(Err(ExecutionError::Failed("unexpected event".to_string()))),
    );
    assert_eq!(RunState::Spawning.step(RunEvent::Exited), failed);
    assert_eq!(RunState::Waiting.step(RunEvent::Reaped), failed);
    assert_eq!(RunState::Collecting.step(RunEvent::Killed), failed);
    assert_eq!(RunState::Killing.step(RunEvent::Spawned), failed);
    assert_eq!(
        RunState::Reaping.step(RunEvent::Collected(output(0, ""))),
        failed
    );
    assert_eq!(RunState::Finished.step(RunEvent::Spawned), failed);
}

#[test]
fn execution_error_message() {
    let error = ExecutionError::Failed("permission denied".to_string());
    assert_eq!(error.message(), "Execution failed: permission denied");
}

#[test]
fn execution_context_keeps_what_it_was_given() {
    let context = ExecutionContext::new(
        "out/rustc_0.out",
        PathKind::Executable,
        Duration::from_secs(5),
    );
    assert_eq!(context.binary, "out/rustc_0.out");
    assert_eq!(context.timeout, Duration::from_secs(5));
}

fn session(name: &str) -> AnalysisContext {
    AnalysisContext::new(
        name.to_string(),
        "out/gccrs_0.out",
        PathKind::Executable,
        "out/rustc_0.out",
        PathKind::Executable,
        Duration::from_secs(5),
    )
}

#[test]
fn analysis_context_keeps_what_it_was_given() {
    let context = session("case");
    assert_eq!(context.testname, "case");
    assert_eq!(context.gccrs.binary, "out/gccrs_0.out");
    assert_eq!(context.rustc.binary, "out/rustc_0.out");
    assert_eq!(context.gccrs.timeout, Duration::from_secs(5));
    assert_eq!(context.rustc.timeout, Duration::from_secs(5));
    assert_eq!(context.stderr_policy, StderrPolicy::FullText);
    let context = context.with_stderr_policy(StderrPolicy::PresenceOnly);
    assert_eq!(context.stderr_policy, StderrPolicy::PresenceOnly);
    assert_eq!(context.testname, "case");
}

#[test]
fn analysis_of_identical_runs_succeeds() {
    let context = session("same");
    let outcome = context.analyze(
        Ok(ExecutionResult::Completed(output(0, "42\n"))),
        Ok(ExecutionResult::Completed(output(0, "42\n"))),
    );
    assert_eq!(outcome, Ok(()));
}

#[test]
fn analysis_of_differing_runs_fails_with_the_differences_and_the_name() {
    let context = session("arith with optimization=2");
    let outcome = context.analyze(
        Ok(ExecutionResult::Completed(output(0, "42\n"))),
        Ok(ExecutionResult::Completed(output(1, "42\n"))),
    );
    assert_eq!(
        outcome,
        Err(AnalysisError::ComparisonFailed(
            AnalysisResult {
                differences: vec![Diff::ExitCode("0".to_string(), "1".to_string())]
            },
            "arith with optimization=2".to_string()
        ))
    );
}

#[test]
fn a_failed_run_is_no_difference() {
    let context = session("broken");
    let outcome = context.analyze(
        Err(ExecutionError::Failed("exec format error".to_string())),
        Ok(ExecutionResult::Completed(output(1, ""))),
    );
    assert_eq!(
        outcome,
        Err(AnalysisError::Execution(ExecutionError::Failed(
            "exec format error".to_string()
        )))
    );
    let outcome = context.analyze(
        Ok(ExecutionResult::TimedOut),
        Err(ExecutionError::Failed("second".to_string())),
    );
    assert_eq!(
        outcome,
        Err(AnalysisError::Execution(ExecutionError::Failed(
            "second".to_string()
        )))
    );
    let outcome = context.analyze(
        Err(ExecutionError::Failed("first".to_string())),
        Err(ExecutionError::Failed("second".to_string())),
    );
    assert_eq!(
        outcome,
        Err(AnalysisError::Execution(ExecutionError::Failed(
            "first".to_string()
        )))
    );
}

#[test]
fn presence_only_policy_reaches_the_analysis() {
    let noisy = |text: &str| {
        ExecutionResult::Completed(ProcessOutput {
            exit_code: Some(1),
            stdout: Vec::new(),
            stderr: text.as_bytes().to_vec(),
        })
    };
    let strict = session("wording");
    assert!(strict.analyze(Ok(noisy("a")), Ok(noisy("b"))).is_err());
    let lenient = session("wording").with_stderr_policy(StderrPolicy::PresenceOnly);
    assert_eq!(lenient.analyze(Ok(noisy("a")), Ok(noisy("b"))), Ok(()));
}

#[test]
fn a_failed_run_converts_into_a_failed_analysis() {
    let error = ExecutionError::Failed("gone".to_string());
    assert_eq!(
        AnalysisError::from(error.clone()),
        AnalysisError::Execution(error)
    );
}

#[test]
fn analysis_error_messages() {
    let error = AnalysisError::Execution(ExecutionError::Failed("gone".to_string()));
    assert_eq!(error.message(), "Execution failed: gone");
    let error = AnalysisError::ComparisonFailed(
        AnalysisResult {
            differences: vec![Diff::Timeout(true, false)],
        },
        "loop".to_string(),
    );
    assert_eq!(
        error.message(),
        "Comparison failed for case 'loop': === Timeout Diff ===\n\
         gccrs timed out: true\nrustc timed out: false\n\n"
    );
}

#[test]
fn path_kinds() {
    assert!(PathKind::File.is_present());
    assert!(PathKind::File.is_file());
    assert!(!PathKind::File.is_executable());
    assert!(!PathKind::File.is_dir());
    assert!(PathKind::Executable.is_present());
    assert!(PathKind::Executable.is_file());
    assert!(PathKind::Executable.is_executable());
    assert!(PathKind::Directory.is_dir());
    assert!(PathKind::Directory.is_present());
    assert!(PathKind::Other.is_present());
    assert!(!PathKind::Other.is_file());
    assert!(!PathKind::Missing.is_present());
}
