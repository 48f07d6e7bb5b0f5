//! The dispatch loop's decisions: whether to keep running, what to do with
//! each result of a receive, and what to report when startup fails.
use vstd::prelude::*;

use crate::constants::{CMD_MID, SEND_HK_MID};
use crate::event::Event;
use crate::message::Message;
use crate::task::{message_outcome, respond, silent, AppState, HkTlm, Response};

verus! {

/// The two states of the dispatch loop. `Exiting` is terminal.
#[derive(Clone, Copy, Debug, PartialEq, Eq, Structural)]
pub enum RunState {
    Running,
    Exiting,
}

/// The dispatch loop: its run state and the task state it owns.
#[derive(Clone, Copy, Debug)]
pub struct Dispatcher {
    pub run: RunState,
    pub task: AppState,
}

/// The startup steps that can fail, in the order they are taken.
#[derive(Clone, Copy, Debug, PartialEq, Eq, Structural)]
pub enum StartupStep {
    /// Registering with the event service.
    RegisterEvents,
    /// Creating the message pipe.
    CreatePipe,
    /// Subscribing the pipe to a message ID.
    Subscribe(u32),
    /// Initializing the housekeeping telemetry packet.
    InitTelemetry,
}

/// Where a startup failure is reported: to the system log when the event
/// service is not available yet, as an event otherwise.
#[derive(Clone, Copy, Debug, PartialEq, Eq, Structural)]
pub enum StartupReport {
    Syslog { status: u32 },
    Event(Event),
}

/// How a failed startup step with the given status code is reported.
pub open spec fn startup_report(step: StartupStep, status: u32) -> StartupReport {
    match step {
        StartupStep::RegisterEvents => StartupReport::Syslog { status },
        StartupStep::CreatePipe => StartupReport::Event(Event::PipeCreateFailed { status }),
        StartupStep::Subscribe(msgid) => StartupReport::Event(
            Event::SubscribeFailed { msgid, status },
        ),
        StartupStep::InitTelemetry => StartupReport::Event(Event::TelemetryInitFailed { status }),
    }
}

/// Reports a failed startup step. Any such failure is fatal: the loop is
/// never entered.
pub fn report_startup_failure(step: StartupStep, status: u32) -> (r: StartupReport)
    ensures
        r == startup_report(step, status),
{
    match step {
        StartupStep::RegisterEvents => StartupReport::Syslog { status },
        StartupStep::CreatePipe => StartupReport::Event(Event::PipeCreateFailed { status }),
        StartupStep::Subscribe(msgid) => StartupReport::Event(Event::SubscribeFailed { msgid, status }),
        StartupStep::InitTelemetry => StartupReport::Event(Event::TelemetryInitFailed { status }),
    }
}

/// The message IDs the pipe subscribes to, in order.
pub fn subscriptions() -> (r: Vec<u32>)
    ensures
        r@ == seq![CMD_MID, SEND_HK_MID],
{
    let mut r: Vec<u32> = Vec::new();
    r.push(CMD_MID);
    r.push(SEND_HK_MID);
    r
}

/// New dispatcher state and response for one result of a receive.
pub open spec fn receive_outcome(d: Dispatcher, received: Result<Message, u32>, cmd_size: usize) -> (
    Dispatcher,
    Response,
) {
    match d.run {
        RunState::Exiting => (d, silent()),
        RunState::Running => match received {
            Err(_) => (Dispatcher { run: RunState::Exiting, ..d }, respond(Event::PipeReadFailed)),
            Ok(m) => {
                let (t, r) = message_outcome(d.task, m, cmd_size);
                (Dispatcher { task: t, ..d }, r)
            },
        },
    }
}

impl Dispatcher {
    /// The loop once startup succeeded: running, with a fresh task state.
    /// The caller reports `Event::Initialized`.
    pub fn new() -> (r: Dispatcher)
        ensures
            r.run == RunState::Running,
            r.task.command_count == 0,
            r.task.error_count == 0,
            r.task.tlm == (HkTlm { command_error_counter: 0, command_counter: 0, spare: [0u8, 0u8] }),
    {
        Dispatcher { run: RunState::Running, task: AppState::new() }
    }

    /// Whether to wait for another message: only while running, and while the
    /// host still wants the task to run.
    pub fn keep_running(&self, host_wants_run: bool) -> (r: bool)
        ensures
            r == (self.run == RunState::Running && host_wants_run),
    {
        match self.run {
            RunState::Running => host_wants_run,
            RunState::Exiting => false,
        }
    }

    /// Handles one result of the blocking receive. A received message is
    /// dispatched; a receive failure is reported and ends the loop. Once
    /// exiting, nothing more is handled.
    pub fn on_receive(&mut self, received: Result<Message, u32>, cmd_size: usize) -> (r: Response)
        ensures
            (*final(self), r) == receive_outcome(*old(self), received, cmd_size),
    {
        match self.run {
            RunState::Exiting => Response { event: None, telemetry: None },
            RunState::Running => match received {
                Err(_) => {
                    self.run = RunState::Exiting;
                    Response { event: Some(Event::PipeReadFailed), telemetry: None }
                },
                Ok(m) => self.task.process_message(&m, cmd_size),
            },
        }
    }
}

} // verus!
