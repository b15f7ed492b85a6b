//! Running one binary under a deadline: the values a run produces, and the
//! protocol that decides, after each thing the operating system reports, what
//! to do next.

use crate::paths::PathKind;
use std::time::Duration;
use vstd::prelude::*;
use vstd::string::*;

verus! {

/// What a process left behind when it ended in time.
#[derive(Clone, Debug, PartialEq, Eq)]
pub struct ProcessOutput {
    /// The exit code; `None` when a signal ended the process.
    pub exit_code: Option<i32>,
    /// Everything the process wrote to standard output.
    pub stdout: Vec<u8>,
    /// Everything the process wrote to standard error.
    pub stderr: Vec<u8>,
}

/// The outcome of one timed run.
#[derive(Clone, Debug, PartialEq, Eq)]
pub enum ExecutionResult {
    /// The deadline passed first; the process was killed and left nothing to
    /// compare.
    TimedOut,
    /// The process ended in time.
    Completed(ProcessOutput),
}

impl ExecutionResult {
    /// Whether the deadline passed before the process ended.
    pub open spec fn spec_timed_out(&self) -> bool {
        self is TimedOut
    }

    /// Whether the deadline passed before the process ended.
    #[verifier::when_used_as_spec(spec_timed_out)]
    pub fn timed_out(&self) -> (late: bool)
        ensures
            late == self.spec_timed_out(),
    {
        matches!(self, ExecutionResult::TimedOut)
    }

    /// The exit code of a run that ended in time with one.
    pub open spec fn spec_exit_code(&self) -> Option<i32> {
        match self {
            ExecutionResult::TimedOut => None,
            ExecutionResult::Completed(output) => output.exit_code,
        }
    }

    /// The exit code of a run that ended in time with one.
    #[verifier::when_used_as_spec(spec_exit_code)]
    pub fn exit_code(&self) -> (code: Option<i32>)
        ensures
            code == self.spec_exit_code(),
    {
        match self {
            ExecutionResult::TimedOut => None,
            ExecutionResult::Completed(output) => output.exit_code,
        }
    }
}

impl ExecutionResult {
    /// What the run wrote to standard output, if it ended in time.
    pub fn stdout(&self) -> (bytes: Option<&Vec<u8>>)
        ensures
            match *self {
                ExecutionResult::TimedOut => bytes is None,
                ExecutionResult::Completed(output) => bytes == Some(&output.stdout),
            },
    {
        match self {
            ExecutionResult::TimedOut => None,
            ExecutionResult::Completed(output) => Some(&output.stdout),
        }
    }

    /// What the run wrote to standard error, if it ended in time.
    pub fn stderr(&self) -> (bytes: Option<&Vec<u8>>)
        ensures
            match *self {
                ExecutionResult::TimedOut => bytes is None,
                ExecutionResult::Completed(output) => bytes == Some(&output.stderr),
            },
    {
        match self {
            ExecutionResult::TimedOut => None,
            ExecutionResult::Completed(output) => Some(&output.stderr),
        }
    }
}

/// A run that could not be carried out.
#[derive(Clone, Debug, PartialEq, Eq)]
pub enum ExecutionError {
    /// Spawning, waiting for, reading from or killing the process failed; the
    /// text says how.
    Failed(String),
}

impl ExecutionError {
    /// The text of the failure.
    pub open spec fn detail(self) -> Seq<char> {
        match self {
            ExecutionError::Failed(text) => text@,
        }
    }

    /// The message of this error.
    pub open spec fn spec_message(self) -> Seq<char> {
        "Execution failed: "@ + self.detail()
    }

    /// The message of this error.
    pub fn message(&self) -> (text: String)
        ensures
            text@ == self.spec_message(),
    {
        let mut text = String::from_str("Execution failed: ");
        match self {
            ExecutionError::Failed(detail) => text.append(detail.as_str()),
        }
        text
    }
}

/// One binary and the time it is given.
#[derive(Debug)]
pub struct ExecutionContext {
    /// The path of the binary.
    pub binary: String,
    /// How long the binary may run.
    pub timeout: Duration,
}

impl ExecutionContext {
    /// Binds a binary, which must be a regular file that may be executed, to
    /// its time budget.
    pub fn new(binary: &str, found: PathKind, timeout: Duration) -> (context: Self)
        requires
            found == PathKind::Executable,
        ensures
            context.binary@ == binary@,
            context.timeout == timeout,
    {
        ExecutionContext { binary: String::from_str(binary), timeout }
    }
}

/// Where a run stands.
#[derive(Clone, Copy, Debug, PartialEq, Eq, Structural)]
pub enum RunState {
    /// The process is being spawned.
    Spawning,
    /// The process runs; its exit or the deadline is awaited.
    Waiting,
    /// The process has ended; its output is being collected.
    Collecting,
    /// The deadline has passed; the process is being killed.
    Killing,
    /// The process was killed; it is being reaped.
    Reaping,
    /// The run is over.
    Finished,
}

/// What the operating system reported of the last thing asked of it.
#[derive(Clone, Debug, PartialEq, Eq)]
pub enum RunEvent {
    /// The process was spawned.
    Spawned,
    /// The process could not be spawned.
    SpawnFailed(String),
    /// The process ended before the deadline.
    Exited,
    /// The deadline passed while the process was running.
    DeadlinePassed,
    /// Waiting for the process failed.
    WaitFailed(String),
    /// The exit status and both streams were read to their end.
    Collected(ProcessOutput),
    /// Reading the exit status or the streams failed.
    CollectFailed(String),
    /// The process was killed.
    Killed,
    /// The process could not be killed.
    KillFailed(String),
    /// The killed process was waited for, and the wait succeeded.
    Reaped,
    /// Waiting for the killed process failed.
    ReapFailed(String),
}

/// What to ask of the operating system next, or what the run has come to.
#[derive(Debug, PartialEq, Eq)]
pub enum RunAction {
    /// Spawn the binary, without arguments or input, both output streams piped.
    Spawn,
    /// Wait for the process to end, for no longer than the time budget.
    Wait,
    /// Read the exit status and both streams to their end.
    Collect,
    /// Kill the process.
    Kill,
    /// Wait for the killed process, so that none is left behind.
    Reap,
    /// Stop, with this result.
    Return(Result<ExecutionResult, ExecutionError>),
}

/// The failure text for an event that the state it arrived in does not await.
pub open spec fn unexpected_event_text() -> Seq<char> {
    "unexpected event"@
}

impl RunState {
    /// The state in which every run begins.
    pub fn start() -> (begin: (RunState, RunAction))
        ensures
            begin == (RunState::Spawning, RunAction::Spawn),
    {
        (RunState::Spawning, RunAction::Spawn)
    }

    /// Whether `event` is one of the reports that this state awaits.
    pub open spec fn awaits(self, event: RunEvent) -> bool {
        match self {
            RunState::Spawning => event is Spawned || event is SpawnFailed,
            RunState::Waiting => event is Exited || event is DeadlinePassed || event is WaitFailed,
            RunState::Collecting => event is Collected || event is CollectFailed,
            RunState::Killing => event is Killed || event is KillFailed,
            RunState::Reaping => event is Reaped || event is ReapFailed,
            RunState::Finished => false,
        }
    }

    /// The state that follows when `event` arrives in this one.
    pub open spec fn successor(self, event: RunEvent) -> RunState {
        match (self, event) {
            (RunState::Spawning, RunEvent::Spawned) => RunState::Waiting,
            (RunState::Waiting, RunEvent::Exited) => RunState::Collecting,
            (RunState::Waiting, RunEvent::DeadlinePassed) => RunState::Killing,
            (RunState::Killing, RunEvent::Killed) => RunState::Reaping,
            _ => RunState::Finished,
        }
    }

    /// What is to be done when `event`, which this state awaits, arrives.
    pub open spec fn reaction(self, event: RunEvent) -> RunAction
        recommends
            self.awaits(event),
    {
        match event {
            RunEvent::Spawned => RunAction::Wait,
            RunEvent::Exited => RunAction::Collect,
            RunEvent::DeadlinePassed => RunAction::Kill,
            RunEvent::Killed => RunAction::Reap,
            RunEvent::Reaped => RunAction::Return(Ok(ExecutionResult::TimedOut)),
            RunEvent::Collected(output) => RunAction::Return(
                Ok(ExecutionResult::Completed(output)),
            ),
            RunEvent::SpawnFailed(text) => RunAction::Return(Err(ExecutionError::Failed(text))),
            RunEvent::WaitFailed(text) => RunAction::Return(Err(ExecutionError::Failed(text))),
            RunEvent::CollectFailed(text) => RunAction::Return(Err(ExecutionError::Failed(text))),
            RunEvent::KillFailed(text) => RunAction::Return(Err(ExecutionError::Failed(text))),
            RunEvent::ReapFailed(text) => RunAction::Return(Err(ExecutionError::Failed(text))),
        }
    }

    /// How many more reports a run in this state can take before it is over.
    pub open spec fn remaining_steps(self) -> nat {
        match self {
            RunState::Spawning => 4,
            RunState::Waiting => 3,
            RunState::Killing => 2,
            RunState::Collecting => 1,
            RunState::Reaping => 1,
            RunState::Finished => 0,
        }
    }

    /// Decides what follows `event`. An awaited event moves the run on as the
    /// protocol says; any other ends it with a failure.
    pub fn step(self, event: RunEvent) -> (next: (RunState, RunAction))
        ensures
            next.0 == self.successor(event),
            self.awaits(event) ==> next.1 == self.reaction(event),
            !self.awaits(event) ==> next.0 == RunState::Finished && next.1 is Return
                && next.1->Return_0 is Err && next.1->Return_0->Err_0.detail()
                == unexpected_event_text(),
            next.1 is Return <==> next.0 == RunState::Finished,
    {
        match (self, event) {
            (RunState::Spawning, RunEvent::Spawned) => (RunState::Waiting, RunAction::Wait),
            (RunState::Spawning, RunEvent::SpawnFailed(text)) => (
                RunState::Finished,
                RunAction::Return(Err(ExecutionError::Failed(text))),
            ),
            (RunState::Waiting, RunEvent::Exited) => (RunState::Collecting, RunAction::Collect),
            (RunState::Waiting, RunEvent::DeadlinePassed) => (RunState::Killing, RunAction::Kill),
            (RunState::Waiting, RunEvent::WaitFailed(text)) => (
                RunState::Finished,
                RunAction::Return(Err(ExecutionError::Failed(text))),
            ),
            (RunState::Collecting, RunEvent::Collected(output)) => (
                RunState::Finished,
                RunAction::Return(Ok(ExecutionResult::Completed(output))),
            ),
            (RunState::Collecting, RunEvent::CollectFailed(text)) => (
                RunState::Finished,
                RunAction::Return(Err(ExecutionError::Failed(text))),
            ),
            (RunState::Killing, RunEvent::Killed) => (RunState::Reaping, RunAction::Reap),
            (RunState::Killing, RunEvent::KillFailed(text)) => (
                RunState::Finished,
                RunAction::Return(Err(ExecutionError::Failed(text))),
            ),
            (RunState::Reaping, RunEvent::Reaped) => (
                RunState::Finished,
                RunAction::Return(Ok(ExecutionResult::TimedOut)),
            ),
            (RunState::Reaping, RunEvent::ReapFailed(text)) => (
                RunState::Finished,
                RunAction::Return(Err(ExecutionError::Failed(text))),
            ),
            _ => (
                RunState::Finished,
                RunAction::Return(
                    Err(ExecutionError::Failed(String::from_str("unexpected event"))),
                ),
            ),
        }
    }
}

/// Every report brings a run that is not over closer to its end: a run takes
/// at most four reports, whatever they are.
pub proof fn lemma_run_makes_progress(state: RunState, event: RunEvent)
    requires
        state != RunState::Finished,
    ensures
        state.successor(event).remaining_steps() < state.remaining_steps(),
        RunState::Spawning.remaining_steps() == 4,
        state.successor(event).remaining_steps() == 0 <==> state.successor(event)
            == RunState::Finished,
{
}

/// Where a run stands after the reports `events`, counted from its start.
pub open spec fn state_after(events: Seq<RunEvent>) -> RunState
    decreases events.len(),
{
    if events.len() == 0 {
        RunState::Spawning
    } else {
        state_after(events.drop_last()).successor(events.last())
    }
}

/// Every run ends: after `n` reports at most `4 - n` more can follow, so
/// after four reports, whatever they are, the run is over.
pub proof fn lemma_run_ends(events: Seq<RunEvent>)
    ensures
        state_after(events).remaining_steps() + events.len() <= 4 || state_after(events)
            == RunState::Finished,
        events.len() >= 4 ==> state_after(events) == RunState::Finished,
    decreases events.len(),
{
    if events.len() > 0 {
        let before = state_after(events.drop_last());
        lemma_run_ends(events.drop_last());
        if before != RunState::Finished {
            lemma_run_makes_progress(before, events.last());
        }
    }
}

/// A run reports a timeout only once the killed process has been reaped with
/// success, and a completed run only with the very output that was collected
/// after the process ended.
pub proof fn lemma_run_outcomes(state: RunState, event: RunEvent)
    requires
        state.awaits(event),
        state.reaction(event) is Return,
        state.reaction(event)->Return_0 is Ok,
    ensures
        match state.reaction(event)->Return_0->Ok_0 {
            ExecutionResult::TimedOut => state == RunState::Reaping && event is Reaped,
            ExecutionResult::Completed(output) => state == RunState::Collecting && event
                == RunEvent::Collected(output),
        },
{
}

/// No failure is swallowed: whatever the operating system reports as failed,
/// in the state that awaits it, ends the run with that failure's text.
pub proof fn lemma_failures_surface(state: RunState, event: RunEvent, text: String)
    requires
        state.awaits(event),
        event == RunEvent::SpawnFailed(text) || event == RunEvent::WaitFailed(text) || event
            == RunEvent::CollectFailed(text) || event == RunEvent::KillFailed(text) || event
            == RunEvent::ReapFailed(text),
    ensures
        state.successor(event) == RunState::Finished,
        state.reaction(event) == RunAction::Return(Err(ExecutionError::Failed(text))),
{
}

} // verus!
