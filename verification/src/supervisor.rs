//! The supervisor of the worker process.
//!
//! The supervisor is a state machine. The host tells it what happened (a start
//! was asked for, the spawn went well or failed, the worker ended, the backoff
//! is over) and does what the supervisor answers. The phase is the single
//! source of truth: whether a worker may be spawned is decided by the phase
//! alone, so of two starts that race only one is granted.
//!
//! ```text
//! Stopped -> Starting -> Running -> Terminated -> Restarting -> Starting
//!               |           |            |             |
//!               v           v            v             v
//!            Stopped     Stopped      Stopped       Stopped
//! ```
//!
//! A worker that ends while it is running is restarted after a fixed backoff,
//! every time: there is no growing delay and no limit on the number of
//! restarts. A worker that crashes at once is therefore restarted for ever, at
//! a constant pace. A failed launch is not retried, and a worker that hangs
//! without ending is not noticed.

use crate::codec::{
    decode, decoded, encode, frame, framed, DecodeError, EncodeError, InboundEvent,
};
use crate::effects::SideEffect;
use crate::handoff::Handoff;
use crate::json::json_written;
use crate::router::{dispatch, host_part, routing_rule, staged};
use serde_json::Value;
use vstd::prelude::*;
use vstd::string::StringExecFns;

verus! {

/// How long the supervisor waits before it restarts a worker that ended, in
/// milliseconds.
pub const RESTART_BACKOFF_MS: u64 = 2000;

/// How long the host waits after the shutdown command before it exits, in
/// milliseconds. The wait gives the worker time to clean up; nothing checks
/// that it did.
pub const SHUTDOWN_GRACE_MS: u64 = 500;

/// Where the supervisor stands.
#[derive(Clone, Copy, Debug, PartialEq, Eq, Structural)]
pub enum Phase {
    /// No worker, and none is wanted.
    Stopped,
    /// A worker is being spawned.
    Starting,
    /// A worker runs and takes commands.
    Running,
    /// The worker ended on its own; a restart is scheduled.
    Terminated,
    /// The backoff is over; the restart is about to ask for a start.
    Restarting,
}

/// Why a command was not submitted.
#[derive(Clone, Copy, Debug, PartialEq, Eq, Structural)]
pub enum SubmitError {
    /// No worker is running.
    NotRunning,
    /// The command could not be written as JSON.
    Unwritable,
}

/// Whether a start may be granted in this phase.
pub open spec fn can_start(phase: Phase) -> bool {
    phase is Stopped || phase is Terminated || phase is Restarting
}

/// The phase after a start was asked for.
pub open spec fn after_start_request(phase: Phase) -> Phase {
    if can_start(phase) {
        Phase::Starting
    } else {
        phase
    }
}

/// The phase after the spawn went well.
pub open spec fn after_spawn_succeeded(phase: Phase) -> Phase {
    if phase is Starting {
        Phase::Running
    } else {
        phase
    }
}

/// The phase after the spawn failed.
pub open spec fn after_spawn_failed(phase: Phase) -> Phase {
    if phase is Starting {
        Phase::Stopped
    } else {
        phase
    }
}

/// The phase after the worker was seen to end.
pub open spec fn after_termination(phase: Phase) -> Phase {
    if phase is Running {
        Phase::Terminated
    } else {
        phase
    }
}

/// The delay of the restart that a termination seen in this phase schedules;
/// `None` where it schedules none.
pub open spec fn restart_delay(phase: Phase) -> Option<u64> {
    if phase is Running {
        Some(RESTART_BACKOFF_MS)
    } else {
        None
    }
}

/// The phase after the backoff is over.
pub open spec fn after_backoff(phase: Phase) -> Phase {
    if phase is Terminated {
        Phase::Restarting
    } else {
        phase
    }
}

/// What a submission in this phase gives, for what the encoder gave.
pub open spec fn submission(phase: Phase, written: Option<Seq<char>>) -> Result<
    Seq<char>,
    SubmitError,
> {
    if !(phase is Running) {
        Err(SubmitError::NotRunning)
    } else {
        match written {
            Some(text) => Ok(framed(text)),
            None => Err(SubmitError::Unwritable),
        }
    }
}

/// Whether `outcome` is what a submission owes for `expected`.
pub open spec fn submits_to(
    outcome: Result<String, SubmitError>,
    expected: Result<Seq<char>, SubmitError>,
) -> bool {
    match expected {
        Ok(line) => outcome is Ok && outcome->Ok_0@ == line,
        Err(error) => outcome == Err::<String, SubmitError>(error),
    }
}

/// The text of an encoder's outcome.
pub open spec fn written_text(encoded: Result<String, EncodeError>) -> Option<Seq<char>> {
    match encoded {
        Ok(text) => Some(text@),
        Err(_) => None,
    }
}

/// The supervisor.
#[derive(Debug)]
pub struct Supervisor {
    phase: Phase,
}

impl View for Supervisor {
    type V = Phase;

    closed spec fn view(&self) -> Phase {
        self.phase
    }
}

impl Supervisor {
    /// A supervisor that has not started anything.
    pub fn new() -> (supervisor: Supervisor)
        ensures
            supervisor@ is Stopped,
    {
        Supervisor { phase: Phase::Stopped }
    }

    /// The phase.
    pub fn phase(&self) -> (phase: Phase)
        ensures
            phase == self@,
    {
        self.phase
    }

    /// The running flag: whether a worker runs and takes commands.
    pub fn is_running(&self) -> (running: bool)
        ensures
            running == (self@ is Running),
    {
        match self.phase {
            Phase::Running => true,
            _ => false,
        }
    }

    /// Asks for a start. The answer says whether the host is to spawn a
    /// worker now. A start is granted when no worker runs and none is being
    /// spawned; otherwise nothing changes.
    pub fn request_start(&mut self) -> (spawn: bool)
        ensures
            spawn == can_start(old(self)@),
            final(self)@ == after_start_request(old(self)@),
    {
        match self.phase {
            Phase::Stopped | Phase::Terminated | Phase::Restarting => {
                self.phase = Phase::Starting;
                true
            },
            _ => false,
        }
    }

    /// Tells the supervisor that the spawn went well. The answer says whether
    /// the worker is taken on. It is not where no spawn was under way, as
    /// after a stop: the host then ends that worker.
    pub fn spawn_succeeded(&mut self) -> (accepted: bool)
        ensures
            accepted == (old(self)@ is Starting),
            final(self)@ == after_spawn_succeeded(old(self)@),
    {
        match self.phase {
            Phase::Starting => {
                self.phase = Phase::Running;
                true
            },
            _ => false,
        }
    }

    /// Tells the supervisor that the spawn failed. A failed launch is not
    /// tried again.
    pub fn spawn_failed(&mut self)
        ensures
            final(self)@ == after_spawn_failed(old(self)@),
    {
        match self.phase {
            Phase::Starting => {
                self.phase = Phase::Stopped;
            },
            _ => {},
        }
    }

    /// Tells the supervisor that the worker ended. Where the worker was
    /// running, its handle is void, and the answer is the delay after which
    /// the host reports the backoff as over; otherwise nothing is scheduled,
    /// which is the case when the worker was stopped on purpose.
    pub fn worker_terminated(&mut self) -> (restart_after_ms: Option<u64>)
        ensures
            restart_after_ms == restart_delay(old(self)@),
            final(self)@ == after_termination(old(self)@),
            !(final(self)@ is Running),
    {
        match self.phase {
            Phase::Running => {
                self.phase = Phase::Terminated;
                Some(RESTART_BACKOFF_MS)
            },
            _ => None,
        }
    }

    /// Tells the supervisor that the backoff is over. The answer says whether
    /// the host is to ask for a start now. It is not where the restart was
    /// overtaken by a start or a stop.
    pub fn backoff_elapsed(&mut self) -> (restart: bool)
        ensures
            restart == (old(self)@ is Terminated),
            final(self)@ == after_backoff(old(self)@),
    {
        match self.phase {
            Phase::Terminated => {
                self.phase = Phase::Restarting;
                true
            },
            _ => false,
        }
    }

    /// Stops supervising. The answer says whether there is a worker for the
    /// host to end. A restart that is scheduled comes to nothing.
    pub fn stop(&mut self) -> (terminate: bool)
        ensures
            terminate == (old(self)@ is Running),
            final(self)@ is Stopped,
    {
        let terminate = self.is_running();
        self.phase = Phase::Stopped;
        terminate
    }

    /// Decides on a submission whose command the encoder has already been
    /// given: the line to write, or why there is none.
    pub fn submit_encoded(&self, encoded: Result<String, EncodeError>) -> (outcome: Result<
        String,
        SubmitError,
    >)
        ensures
            submits_to(outcome, submission(self@, written_text(encoded))),
    {
        if !self.is_running() {
            return Err(SubmitError::NotRunning);
        }
        match encoded {
            Ok(text) => Ok(frame(text)),
            Err(_) => Err(SubmitError::Unwritable),
        }
    }

    /// Submits a command: answers with the line that the host is to write to
    /// the worker. While no worker is running there is no line, and the
    /// command is not even encoded. The line is the command's JSON text and
    /// one line feed, which is its only one.
    ///
    /// `&self` is enough: who holds the supervisor decides who writes, and the
    /// host lets one caller at a time do so.
    pub fn submit(&self, command: &Value) -> (outcome: Result<String, SubmitError>)
        ensures
            submits_to(outcome, submission(self@, json_written(*command))),
            outcome is Ok ==> json_written(*command) is Some && !json_written(
                *command,
            )->Some_0.contains('\n'),
    {
        if !self.is_running() {
            return Err(SubmitError::NotRunning);
        }
        self.submit_encoded(encode(command))
    }
}

impl SubmitError {
    /// The text of the error as its caller sees it.
    pub open spec fn spec_message(self) -> Seq<char> {
        match self {
            SubmitError::NotRunning => "Sidecar not running"@,
            SubmitError::Unwritable => "Command cannot be written as JSON"@,
        }
    }

    /// The text of the error.
    pub fn message(&self) -> (text: String)
        ensures
            text@ == self.spec_message(),
    {
        match self {
            SubmitError::NotRunning => String::from_str("Sidecar not running"),
            SubmitError::Unwritable => String::from_str("Command cannot be written as JSON"),
        }
    }
}

/// The text of a failed write, for the caller of the submission. The write is
/// not tried again.
pub fn write_error_message(cause: &str) -> (text: String)
    ensures
        text@ == "Failed to write to sidecar: "@ + cause@,
{
    String::from_str("Failed to write to sidecar: ").concat(cause)
}

/// What the transport reports of the worker.
#[derive(Debug, PartialEq)]
pub enum WorkerEvent {
    /// A line of the worker's standard output.
    Stdout(Vec<u8>),
    /// A line of the worker's standard error.
    Stderr(Vec<u8>),
    /// The transport failed to read.
    Error(String),
    /// The worker ended.
    Terminated { code: Option<i32>, signal: Option<i32> },
}

/// What the host does about a report of the transport.
#[derive(Debug, PartialEq)]
pub enum Reaction {
    /// An event was decoded. Its staging is done; the side effects are for
    /// the host to perform, in order.
    Routed { event: InboundEvent, effects: Vec<SideEffect> },
    /// The line was no event; it is dropped.
    Dropped { error: DecodeError },
    /// The worker ended while it was running: its handle is void and the
    /// backoff is to be reported as over after the delay.
    Recover { restart_after_ms: u64 },
    /// There is nothing to do.
    Nothing,
}

/// Whether `reaction`, with the supervisor and the handoff store as they are
/// afterwards, is what a report asks for.
pub open spec fn reacts_to(
    event: WorkerEvent,
    phase: Phase,
    slot: Option<Value>,
    reaction: Reaction,
    phase_after: Phase,
    slot_after: Option<Value>,
) -> bool {
    match event {
        WorkerEvent::Stdout(line) => {
            &&& phase_after == phase
            &&& match decoded(line@) {
                Ok(view) => {
                    &&& reaction is Routed
                    &&& reaction->event@ == view
                    &&& reaction->effects@ == host_part(routing_rule(reaction->event))
                    &&& slot_after == staged(slot, routing_rule(reaction->event))
                },
                Err(error) => reaction == (Reaction::Dropped { error }) && slot_after == slot,
            }
        },
        WorkerEvent::Terminated { .. } => {
            &&& phase_after == after_termination(phase)
            &&& slot_after == slot
            &&& match restart_delay(phase) {
                Some(restart_after_ms) => reaction == (Reaction::Recover { restart_after_ms }),
                None => reaction is Nothing,
            }
        },
        _ => reaction is Nothing && phase_after == phase && slot_after == slot,
    }
}

/// Takes one report of the transport. A line of output is decoded and routed;
/// a line that is no event is dropped and the stream goes on. The end of the
/// worker starts the recovery. What the worker writes to standard error and
/// what the transport fails to read changes nothing.
pub fn handle_event(supervisor: &mut Supervisor, handoff: &mut Handoff, event: &WorkerEvent) -> (reaction:
    Reaction)
    ensures
        reacts_to(
            *event,
            old(supervisor)@,
            old(handoff)@,
            reaction,
            final(supervisor)@,
            final(handoff)@,
        ),
{
    match event {
        WorkerEvent::Stdout(line) => match decode(line.as_slice()) {
            Ok(decoded_event) => {
                let effects = dispatch(&decoded_event, handoff);
                Reaction::Routed { event: decoded_event, effects }
            },
            Err(error) => Reaction::Dropped { error },
        },
        WorkerEvent::Terminated { .. } => match supervisor.worker_terminated() {
            Some(restart_after_ms) => Reaction::Recover { restart_after_ms },
            None => Reaction::Nothing,
        },
        _ => Reaction::Nothing,
    }
}

/// A submission while no worker runs fails as not running, whatever the
/// command, and gives the host no line to write.
pub proof fn lemma_submit_needs_running(phase: Phase, written: Option<Seq<char>>)
    requires
        !(phase is Running),
    ensures
        submission(phase, written) == Err::<Seq<char>, SubmitError>(SubmitError::NotRunning),
{
}

/// After a termination was seen the running flag is down, and one
/// termination schedules one restart: seeing it a second time schedules
/// none.
pub proof fn lemma_one_restart_per_termination(phase: Phase)
    ensures
        !(after_termination(phase) is Running),
        restart_delay(after_termination(phase)) is None,
        phase is Running ==> restart_delay(phase) == Some(RESTART_BACKOFF_MS),
{
}

/// Of two starts asked for one after the other, at most one is granted.
pub proof fn lemma_one_start_at_a_time(phase: Phase)
    ensures
        !can_start(after_start_request(phase)),
{
}

/// A worker that ended while running comes back without anyone asking: the
/// backoff, the start that it asks for and a spawn that goes well lead to a
/// running worker again.
pub proof fn lemma_recovery_runs_again(phase: Phase)
    requires
        phase is Running,
    ensures
        after_spawn_succeeded(after_start_request(after_backoff(after_termination(phase))))
            is Running,
{
}

/// The running flag goes up only when a spawn that was under way went well.
pub proof fn lemma_running_comes_from_spawn(phase: Phase)
    ensures
        after_start_request(phase) is Running ==> phase is Running,
        after_spawn_failed(phase) is Running ==> phase is Running,
        after_backoff(phase) is Running ==> phase is Running,
        after_termination(phase) is Running ==> false,
        after_spawn_succeeded(phase) is Running ==> phase is Running || phase is Starting,
{
}

} // verus!
