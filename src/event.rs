//! Diagnostic events that the task emits, and the static filter table that
//! the event service is registered with.
use vstd::prelude::*;

use crate::constants::{
    COMMANDNOP_INF_EID, COMMANDRST_INF_EID, COMMAND_ERR_EID, INVALID_MSGID_ERR_EID, LEN_ERR_EID,
    NO_FILTER, PIPE_ERR_EID, STARTUP_INF_EID,
};

verus! {

/// Severity of a diagnostic event.
#[derive(Clone, Copy, Debug, PartialEq, Eq, Structural)]
pub enum Severity {
    Debug,
    Information,
    Error,
    Critical,
}

/// One diagnostic occurrence, with the numeric fields it carries.
#[derive(Clone, Copy, Debug, PartialEq, Eq, Structural)]
pub enum Event {
    /// The task finished its startup.
    Initialized,
    /// Creating the message pipe failed.
    PipeCreateFailed { status: u32 },
    /// Subscribing the pipe to a message ID failed.
    SubscribeFailed { msgid: u32, status: u32 },
    /// Initializing the housekeeping packet failed.
    TelemetryInitFailed { status: u32 },
    /// The message ID of a received message could not be read.
    MsgIdUnavailable { status: u32 },
    /// A message arrived with an ID the application does not handle.
    UnknownMsgId { msgid: u32 },
    /// The function code of a command could not be read.
    FcnCodeUnavailable { status: u32 },
    /// A command arrived with a function code the application does not handle.
    UnknownFcnCode { code: u8 },
    /// A no-op command was accepted.
    Noop,
    /// A reset-counters command was accepted.
    Reset,
    /// A command's length does not match what its handler expects.
    LengthError { msgid: u32, fcn_code: u32, actual: usize, expected: usize },
    /// Receiving from the pipe failed; the task exits.
    PipeReadFailed,
}

/// The event ID under which an event is reported.
pub open spec fn event_id(e: Event) -> u16 {
    match e {
        Event::Initialized => STARTUP_INF_EID,
        Event::PipeCreateFailed { .. } => STARTUP_INF_EID,
        Event::SubscribeFailed { .. } => STARTUP_INF_EID,
        Event::TelemetryInitFailed { .. } => STARTUP_INF_EID,
        Event::MsgIdUnavailable { .. } => INVALID_MSGID_ERR_EID,
        Event::UnknownMsgId { .. } => INVALID_MSGID_ERR_EID,
        Event::FcnCodeUnavailable { .. } => COMMAND_ERR_EID,
        Event::UnknownFcnCode { .. } => COMMAND_ERR_EID,
        Event::Noop => COMMANDNOP_INF_EID,
        Event::Reset => COMMANDRST_INF_EID,
        Event::LengthError { .. } => LEN_ERR_EID,
        Event::PipeReadFailed => PIPE_ERR_EID,
    }
}

/// The severity with which an event is reported.
pub open spec fn event_severity(e: Event) -> Severity {
    match e {
        Event::Initialized => Severity::Information,
        Event::PipeCreateFailed { .. } => Severity::Error,
        Event::SubscribeFailed { .. } => Severity::Critical,
        Event::TelemetryInitFailed { .. } => Severity::Critical,
        Event::Noop => Severity::Information,
        Event::Reset => Severity::Information,
        _ => Severity::Error,
    }
}

impl Event {
    /// The event ID under which this event is reported.
    pub fn id(&self) -> (r: u16)
        ensures
            r == event_id(*self),
    {
        match self {
            Event::Initialized => STARTUP_INF_EID,
            Event::PipeCreateFailed { .. } => STARTUP_INF_EID,
            Event::SubscribeFailed { .. } => STARTUP_INF_EID,
            Event::TelemetryInitFailed { .. } => STARTUP_INF_EID,
            Event::MsgIdUnavailable { .. } => INVALID_MSGID_ERR_EID,
            Event::UnknownMsgId { .. } => INVALID_MSGID_ERR_EID,
            Event::FcnCodeUnavailable { .. } => COMMAND_ERR_EID,
            Event::UnknownFcnCode { .. } => COMMAND_ERR_EID,
            Event::Noop => COMMANDNOP_INF_EID,
            Event::Reset => COMMANDRST_INF_EID,
            Event::LengthError { .. } => LEN_ERR_EID,
            Event::PipeReadFailed => PIPE_ERR_EID,
        }
    }

    /// The severity with which this event is reported.
    pub fn severity(&self) -> (r: Severity)
        ensures
            r == event_severity(*self),
    {
        match self {
            Event::Initialized => Severity::Information,
            Event::PipeCreateFailed { .. } => Severity::Error,
            Event::SubscribeFailed { .. } => Severity::Critical,
            Event::TelemetryInitFailed { .. } => Severity::Critical,
            Event::Noop => Severity::Information,
            Event::Reset => Severity::Information,
            _ => Severity::Error,
        }
    }
}

/// One entry of the event filter table: an event ID and its filter mask.
#[derive(Clone, Copy, Debug, PartialEq, Eq, Structural)]
pub struct EventFilter {
    pub event_id: u16,
    pub mask: u16,
}

/// The event IDs that the task registers, in table order.
pub open spec fn registered_event_ids() -> Seq<u16> {
    seq![
        STARTUP_INF_EID,
        COMMAND_ERR_EID,
        COMMANDNOP_INF_EID,
        COMMANDRST_INF_EID,
        INVALID_MSGID_ERR_EID,
        LEN_ERR_EID,
        PIPE_ERR_EID,
    ]
}

/// The static filter table: one entry per registered event, none filtered.
pub fn event_filters() -> (r: Vec<EventFilter>)
    ensures
        r@.len() == registered_event_ids().len(),
        forall|i: int|
            0 <= i < r@.len() ==> (#[trigger] r@[i]).event_id == registered_event_ids()[i]
                && r@[i].mask == NO_FILTER,
{
    let ids: [u16; 7] = [
        STARTUP_INF_EID,
        COMMAND_ERR_EID,
        COMMANDNOP_INF_EID,
        COMMANDRST_INF_EID,
        INVALID_MSGID_ERR_EID,
        LEN_ERR_EID,
        PIPE_ERR_EID,
    ];
    assert(ids@ =~= registered_event_ids());
    let mut r: Vec<EventFilter> = Vec::new();
    let mut i: usize = 0;
    while i < 7
        invariant
            0 <= i <= 7,
            ids@ == registered_event_ids(),
            r@.len() == i,
            forall|j: int|
                0 <= j < i ==> (#[trigger] r@[j]).event_id == registered_event_ids()[j]
                    && r@[j].mask == NO_FILTER,
        decreases 7 - i,
    {
        r.push(EventFilter { event_id: ids[i], mask: NO_FILTER });
        i = i + 1;
    }
    r
}

} // verus!
