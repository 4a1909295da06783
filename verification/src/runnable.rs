//! Supervising one sandboxed run: what to do next, and what each event
//! makes of the run.

use vstd::prelude::*;
use vstd::string::*;
use vstd::utf8::encode_utf8;
use crate::configuration::{get_container_settings, Environment};
use crate::container::{shell, shell_command_flag, ContainerActions, ContainerSettings, RuntimeCommand};
use crate::hardening::{lemma_sandbox_line, sandbox_words};
use crate::transport::{max_payload_len, payload_command, trampoline_command};
use crate::words::{is_plain_line, split};

verus! {

/// How a child process ended: with an exit code, or without one (killed
/// by a signal).
#[derive(Clone, Copy, Debug)]
pub struct ExitStatus {
    pub code: Option<i64>,
}

impl ExitStatus {
    pub open spec fn is_success(&self) -> bool {
        self.code == Some(0i64)
    }

    /// Whether the process ended with exit code zero.
    pub fn success(&self) -> (ok: bool)
        ensures
            ok == self.is_success(),
    {
        match self.code {
            Some(code) => code == 0,
            None => false,
        }
    }
}

/// The result of one sandboxed run.
#[derive(Debug)]
pub enum ExecutionOutcome {
    /// The child exited before the deadline, with any status.
    Completed { exit_status: ExitStatus, stdout: Vec<u8>, stderr: Vec<u8> },
    /// The deadline passed first. Output written until then is dropped.
    TimedOut,
    /// The child could not be created, or could not be waited for.
    LaunchFailed { cause: String },
}

/// Where a run stands.
#[derive(Debug)]
pub enum Stage {
    /// The command is assembled; nothing has been spawned.
    Built,
    /// The child is running under supervision.
    Spawned,
    /// The run is over.
    Finished(ExecutionOutcome),
}

/// What the operating system reported about the run.
#[derive(Debug)]
pub enum Event {
    /// The child was created, with both output streams piped.
    SpawnSucceeded,
    /// The child could not be created.
    SpawnFailed { cause: String },
    /// The child exited before the deadline.
    Exited { exit_status: ExitStatus, stdout: Vec<u8>, stderr: Vec<u8> },
    /// The deadline passed and the child was terminated.
    DeadlineElapsed,
    /// Waiting for the child failed.
    WaitFailed { cause: String },
}

/// What the caller has to do next.
#[derive(Clone, Copy, Debug, PartialEq, Eq, Structural)]
pub enum Action {
    /// Spawn the command, capturing standard output and standard error.
    Spawn,
    /// Wait for the child to exit, and terminate it once the limit passes.
    Supervise { time_limit_ms: u64 },
    /// Nothing is left to do: hand the outcome to the caller.
    Deliver,
}

/// The stage that follows `stage` on `event`. An event that the stage does
/// not expect changes nothing; a finished run stays as it is.
pub open spec fn next_stage(stage: Stage, event: Event) -> Stage {
    match (stage, event) {
        (Stage::Built, Event::SpawnSucceeded) => Stage::Spawned,
        (Stage::Built, Event::SpawnFailed { cause }) => Stage::Finished(
            ExecutionOutcome::LaunchFailed { cause },
        ),
        (Stage::Spawned, Event::Exited { exit_status, stdout, stderr }) => Stage::Finished(
            ExecutionOutcome::Completed { exit_status, stdout, stderr },
        ),
        (Stage::Spawned, Event::DeadlineElapsed) => Stage::Finished(ExecutionOutcome::TimedOut),
        (Stage::Spawned, Event::WaitFailed { cause }) => Stage::Finished(
            ExecutionOutcome::LaunchFailed { cause },
        ),
        (stage, _) => stage,
    }
}

/// One run of one command under one time limit.
pub struct Executor {
    pub command: RuntimeCommand,
    pub time_limit_ms: u64,
    pub stage: Stage,
}

impl Executor {
    /// A run that has not started.
    pub fn new(command: RuntimeCommand, time_limit_ms: u64) -> (executor: Executor)
        ensures
            executor.command == command,
            executor.time_limit_ms == time_limit_ms,
            executor.stage == Stage::Built,
    {
        Executor { command, time_limit_ms, stage: Stage::Built }
    }

    pub open spec fn action(&self) -> Action {
        match self.stage {
            Stage::Built => Action::Spawn,
            Stage::Spawned => Action::Supervise { time_limit_ms: self.time_limit_ms },
            Stage::Finished(_) => Action::Deliver,
        }
    }

    /// What to do at this stage.
    pub fn next_action(&self) -> (action: Action)
        ensures
            action == self.action(),
    {
        match &self.stage {
            Stage::Built => Action::Spawn,
            Stage::Spawned => Action::Supervise { time_limit_ms: self.time_limit_ms },
            Stage::Finished(_) => Action::Deliver,
        }
    }

    /// Takes in what happened.
    pub fn advance(self, event: Event) -> (after: Executor)
        ensures
            after.stage == next_stage(self.stage, event),
            after.command == self.command,
            after.time_limit_ms == self.time_limit_ms,
    {
        let Executor { command, time_limit_ms, stage } = self;
        let stage = match stage {
            Stage::Built => match event {
                Event::SpawnSucceeded => Stage::Spawned,
                Event::SpawnFailed { cause } => Stage::Finished(
                    ExecutionOutcome::LaunchFailed { cause },
                ),
                _ => Stage::Built,
            },
            Stage::Spawned => match event {
                Event::Exited { exit_status, stdout, stderr } => Stage::Finished(
                    ExecutionOutcome::Completed { exit_status, stdout, stderr },
                ),
                Event::DeadlineElapsed => Stage::Finished(ExecutionOutcome::TimedOut),
                Event::WaitFailed { cause } => Stage::Finished(
                    ExecutionOutcome::LaunchFailed { cause },
                ),
                _ => Stage::Spawned,
            },
            Stage::Finished(outcome) => Stage::Finished(outcome),
        };
        Executor { command, time_limit_ms, stage }
    }

    /// The outcome, once the run is over.
    pub fn outcome(self) -> (outcome: Option<ExecutionOutcome>)
        ensures
            outcome == match self.stage {
                Stage::Finished(o) => Some(o),
                _ => None,
            },
    {
        match self.stage {
            Stage::Finished(o) => Some(o),
            _ => None,
        }
    }
}

/// `executor` is the run of `payload` under `settings`, not yet started:
/// the payload is encoded and handed to the bootstrap program inside the
/// image, the whole line goes through `sh -c`, and the profile's
/// wall-clock ceiling is the time limit of the run.
pub open spec fn prepared(executor: Executor, settings: ContainerSettings, payload: Seq<u8>) -> bool {
    &&& executor.stage == Stage::Built
    &&& executor.time_limit_ms == settings.max_runtime
    &&& executor.command.program@ == shell()
    &&& executor.command.arguments@.len() == 2
    &&& executor.command.arguments@[0]@ == shell_command_flag()
    &&& executor.command.arguments@[1]@ == settings.run_line(payload_command(payload))
}

/// Something that can be run in the sandbox.
pub trait Runnable {
    /// The bytes that are carried into the sandbox.
    spec fn payload(&self) -> Seq<u8>;

    /// Prepares a run under the profile that the environment resolves to.
    fn run(&self, environment: &Environment) -> (executor: Executor)
        requires
            self.payload().len() <= max_payload_len(),
        ensures
            exists|settings: ContainerSettings|
                environment.resolves_to(settings) && prepared(executor, settings, self.payload()),
    ;

    /// Prepares a run under the given profile. Under a well-formed
    /// profile the line for the shell is plain, and splits into the
    /// runtime binary, `run --rm`, the six flags, the image, the bootstrap
    /// program and the encoded payload.
    fn run_with_settings(&self, container_settings: ContainerSettings) -> (executor: Executor)
        requires
            self.payload().len() <= max_payload_len(),
        ensures
            prepared(executor, container_settings, self.payload()),
            container_settings.wf() ==> {
                &&& is_plain_line(executor.command.arguments@[1]@)
                &&& split(executor.command.arguments@[1]@) == sandbox_words(
                    container_settings,
                    self.payload(),
                )
            },
    ;
}

impl Runnable for String {
    /// A text travels as its UTF-8 bytes.
    open spec fn payload(&self) -> Seq<u8> {
        encode_utf8(self@)
    }

    fn run(&self, environment: &Environment) -> (executor: Executor) {
        let settings = get_container_settings(environment);
        let ghost resolved = settings;
        let executor = self.run_with_settings(settings);
        assert(environment.resolves_to(resolved) && prepared(executor, resolved, self.payload()));
        executor
    }

    fn run_with_settings(&self, container_settings: ContainerSettings) -> (executor: Executor) {
        let payload = self.as_str().as_bytes();
        let command = trampoline_command(payload);
        let shell_command = container_settings.invoke_command(command);
        proof {
            if container_settings.wf() {
                lemma_sandbox_line(container_settings, self.payload());
            }
        }
        Executor::new(shell_command, container_settings.max_runtime)
    }
}

/// A finished run stays finished, with the same outcome, whatever is
/// reported afterwards.
pub proof fn lemma_finished_is_final(outcome: ExecutionOutcome, event: Event)
    ensures
        next_stage(Stage::Finished(outcome), event) == Stage::Finished(outcome),
{
}

/// Which outcome a run has is decided by the first event that its stage
/// expects: a run that is not over takes one step on such an event and
/// none on any other.
pub proof fn lemma_classification(stage: Stage, event: Event)
    ensures
        stage == Stage::Built ==> (next_stage(stage, event) != stage <==> (event
            is SpawnSucceeded || event is SpawnFailed)),
        stage == Stage::Spawned ==> (next_stage(stage, event) is Finished <==> (event is Exited
            || event is DeadlineElapsed || event is WaitFailed)),
        stage == Stage::Spawned ==> (next_stage(stage, event) == stage <==> !(next_stage(
            stage,
            event,
        ) is Finished)),
        next_stage(stage, event) == Stage::Finished(ExecutionOutcome::TimedOut) ==> (stage
            == Stage::Finished(ExecutionOutcome::TimedOut) || (stage == Stage::Spawned
            && event is DeadlineElapsed)),
        next_stage(stage, event) matches Stage::Finished(
            ExecutionOutcome::Completed { exit_status, stdout, stderr },
        ) ==> (stage == next_stage(stage, event) || (stage == Stage::Spawned && event
            == (Event::Exited { exit_status, stdout, stderr }))),
{
}

} // verus!
