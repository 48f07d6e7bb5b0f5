//! The task's state and the handlers that act on received messages: the
//! message classifier, the command processor, the packet length gate, the
//! counter handlers and the housekeeping responder.
use vstd::prelude::*;

use crate::constants::{FCN_CODE_UNAVAILABLE, MSGID_UNAVAILABLE, SIZE_UNAVAILABLE};
use crate::event::Event;
use crate::message::{
    classify_fcn_code, classify_msgid, command_of, kind_of, CommandCode, Message, MessageKind,
};

verus! {

/// The payload of the housekeeping telemetry packet.
#[derive(Clone, Copy, Debug, PartialEq, Eq)]
pub struct HkTlm {
    pub command_error_counter: u8,
    pub command_counter: u8,
    pub spare: [u8; 2],
}

/// The task's mutable state: two wrapping counters and the housekeeping
/// telemetry record.
#[derive(Clone, Copy, Debug)]
pub struct AppState {
    /// Number of accepted commands, modulo 256.
    pub command_count: u8,
    /// Number of rejected commands, modulo 256.
    pub error_count: u8,
    /// The housekeeping telemetry payload last reported.
    pub tlm: HkTlm,
}

/// What handling one message asks of the outside world: at most one
/// diagnostic event, and possibly a telemetry payload to stamp and send.
#[derive(Clone, Copy, Debug)]
pub struct Response {
    pub event: Option<Event>,
    pub telemetry: Option<HkTlm>,
}

/// Proof that a command passed the length gate for its handler; only
/// [`AppState::verify_cmd_pkt`] makes one.
pub struct CommandView {
    len: usize,
}

impl CommandView {
    pub closed spec fn spec_len(&self) -> usize {
        self.len
    }

    /// The verified length of the command, in bytes.
    pub fn len(&self) -> (r: usize)
        ensures
            r == self.spec_len(),
    {
        self.len
    }
}

/// Increment modulo 256.
pub open spec fn wrap_inc(x: u8) -> u8 {
    ((x + 1) % 256) as u8
}

pub open spec fn respond(e: Event) -> Response {
    Response { event: Some(e), telemetry: None }
}

pub open spec fn silent() -> Response {
    Response { event: None, telemetry: None }
}

/// Whether the message is exactly `expected` bytes long.
pub open spec fn length_matches(m: Message, expected: usize) -> bool {
    m.size == Ok::<usize, u32>(expected)
}

/// The length-error event for a message: its identifier, function code and
/// length, each replaced by a sentinel where it could not be read, and the
/// expected length.
pub open spec fn length_error(m: Message, expected: usize) -> Event {
    Event::LengthError {
        msgid: match m.msgid {
            Ok(id) => id,
            Err(_) => MSGID_UNAVAILABLE,
        },
        fcn_code: match m.fcn_code {
            Ok(c) => c as u32,
            Err(_) => FCN_CODE_UNAVAILABLE,
        },
        actual: match m.size {
            Ok(n) => n,
            Err(_) => SIZE_UNAVAILABLE,
        },
        expected,
    }
}

/// The state with one more error counted.
pub open spec fn with_error(s: AppState) -> AppState {
    AppState { error_count: wrap_inc(s.error_count), ..s }
}

/// The state after a no-op command.
pub open spec fn after_noop(s: AppState) -> AppState {
    AppState { command_count: wrap_inc(s.command_count), ..s }
}

/// The state after a reset-counters command.
pub open spec fn after_reset(s: AppState) -> AppState {
    AppState { command_count: 0, error_count: 0, ..s }
}

/// The telemetry payload that reports the counters of `s`.
pub open spec fn snapshot(s: AppState) -> HkTlm {
    HkTlm {
        command_error_counter: s.error_count,
        command_counter: s.command_count,
        spare: s.tlm.spare,
    }
}

/// New state and response for a command message whose function code
/// selects a known command, given that code.
pub open spec fn handler_outcome(s: AppState, m: Message, expected: usize, cmd: CommandCode) -> (
    AppState,
    Response,
) {
    if !length_matches(m, expected) {
        (with_error(s), respond(length_error(m, expected)))
    } else {
        match cmd {
            CommandCode::Noop => (after_noop(s), respond(Event::Noop)),
            CommandCode::ResetCounters => (after_reset(s), respond(Event::Reset)),
            _ => (s, silent()),
        }
    }
}

/// New state and response for a message routed to the command processor.
pub open spec fn command_outcome(s: AppState, m: Message, expected: usize) -> (AppState, Response) {
    match m.fcn_code {
        Err(status) => (s, respond(Event::FcnCodeUnavailable { status })),
        Ok(code) => match command_of(code) {
            CommandCode::Unknown(code) => (s, respond(Event::UnknownFcnCode { code })),
            cmd => handler_outcome(s, m, expected, cmd),
        },
    }
}

/// New state and response for a housekeeping request.
pub open spec fn housekeeping_outcome(s: AppState) -> (AppState, Response) {
    (
        AppState { tlm: snapshot(s), ..s },
        Response { event: None, telemetry: Some(snapshot(s)) },
    )
}

/// New state and response for any received message, where `expected` is
/// the length of a command without payload.
pub open spec fn message_outcome(s: AppState, m: Message, expected: usize) -> (AppState, Response) {
    match m.msgid {
        Err(status) => (s, respond(Event::MsgIdUnavailable { status })),
        Ok(id) => match kind_of(id) {
            MessageKind::Command => command_outcome(s, m, expected),
            MessageKind::HousekeepingRequest => housekeeping_outcome(s),
            MessageKind::Unknown(msgid) => (s, respond(Event::UnknownMsgId { msgid })),
        },
    }
}

/// Increment modulo 256.
fn wrapping_inc(x: u8) -> (r: u8)
    ensures
        r == wrap_inc(x),
{
    if x == u8::MAX {
        0
    } else {
        x + 1
    }
}

impl AppState {
    /// A fresh state: both counters zero and an all-zero telemetry payload.
    pub fn new() -> (r: AppState)
        ensures
            r.command_count == 0,
            r.error_count == 0,
            r.tlm == (HkTlm { command_error_counter: 0, command_counter: 0, spare: [0u8, 0u8] }),
    {
        AppState {
            command_count: 0,
            error_count: 0,
            tlm: HkTlm { command_error_counter: 0, command_counter: 0, spare: [0u8, 0u8] },
        }
    }

    /// Handles one received message. `cmd_size` is the length in bytes of a
    /// command that carries no payload, which every known command must have.
    pub fn process_message(&mut self, msg: &Message, cmd_size: usize) -> (r: Response)
        ensures
            (*final(self), r) == message_outcome(*old(self), *msg, cmd_size),
    {
        match msg.msgid {
            Err(status) => Response { event: Some(Event::MsgIdUnavailable { status }), telemetry: None },
            Ok(id) => match classify_msgid(id) {
                MessageKind::Command => self.process_command(msg, cmd_size),
                MessageKind::HousekeepingRequest => {
                    let t = self.report_housekeeping(msg);
                    Response { event: None, telemetry: Some(t) }
                },
                MessageKind::Unknown(msgid) => Response {
                    event: Some(Event::UnknownMsgId { msgid }),
                    telemetry: None,
                },
            },
        }
    }

    /// Handles a message routed to the command processor: reads its function
    /// code, checks its length and runs the selected handler.
    pub fn process_command(&mut self, msg: &Message, cmd_size: usize) -> (r: Response)
        ensures
            (*final(self), r) == command_outcome(*old(self), *msg, cmd_size),
    {
        match msg.fcn_code {
            Err(status) => Response { event: Some(Event::FcnCodeUnavailable { status }), telemetry: None },
            Ok(code) => match classify_fcn_code(code) {
                CommandCode::Unknown(code) => Response {
                    event: Some(Event::UnknownFcnCode { code }),
                    telemetry: None,
                },
                CommandCode::Noop => match self.verify_cmd_pkt(msg, cmd_size) {
                    Err(e) => Response { event: Some(e), telemetry: None },
                    Ok(cmd) => Response { event: Some(self.noop(&cmd)), telemetry: None },
                },
                CommandCode::ResetCounters => match self.verify_cmd_pkt(msg, cmd_size) {
                    Err(e) => Response { event: Some(e), telemetry: None },
                    Ok(cmd) => Response { event: Some(self.reset_counters(&cmd)), telemetry: None },
                },
                CommandCode::Process => match self.verify_cmd_pkt(msg, cmd_size) {
                    Err(e) => Response { event: Some(e), telemetry: None },
                    Ok(cmd) => {
                        self.process(&cmd);
                        Response { event: None, telemetry: None }
                    },
                },
            },
        }
    }

    /// Copies the counters into the telemetry payload and returns the payload
    /// to send. The request's own contents are not read.
    pub fn report_housekeeping(&mut self, _msg: &Message) -> (r: HkTlm)
        ensures
            (*final(self), Response { event: None, telemetry: Some(r) }) == housekeeping_outcome(
                *old(self),
            ),
    {
        self.tlm.command_counter = self.command_count;
        self.tlm.command_error_counter = self.error_count;
        self.tlm
    }

    /// The no-op command: counts it and reports it.
    pub fn noop(&mut self, _cmd: &CommandView) -> (r: Event)
        ensures
            *final(self) == after_noop(*old(self)),
            r == Event::Noop,
    {
        self.command_count = wrapping_inc(self.command_count);
        Event::Noop
    }

    /// The reset-counters command: zeroes both counters at once and reports it.
    pub fn reset_counters(&mut self, _cmd: &CommandView) -> (r: Event)
        ensures
            *final(self) == after_reset(*old(self)),
            r == Event::Reset,
    {
        self.command_count = 0;
        self.error_count = 0;
        Event::Reset
    }

    /// The process command: accepted, with no effect on the state.
    pub fn process(&mut self, _cmd: &CommandView)
        ensures
            *final(self) == *old(self),
    {
    }

    /// The length gate in front of every command handler: a command view when
    /// the message is exactly `expected` bytes long; otherwise one more error
    /// counted and the length-error event.
    pub fn verify_cmd_pkt(&mut self, msg: &Message, expected: usize) -> (r: Result<CommandView, Event>)
        ensures
            length_matches(*msg, expected) ==> *final(self) == *old(self) && r is Ok
                && r->Ok_0.spec_len() == expected,
            !length_matches(*msg, expected) ==> *final(self) == with_error(*old(self))
                && r == Err::<CommandView, Event>(length_error(*msg, expected)),
    {
        match msg.size {
            Ok(n) => {
                if n == expected {
                    return Ok(CommandView { len: n });
                }
            },
            Err(_) => {},
        }
        let msgid = match msg.msgid {
            Ok(id) => id,
            Err(_) => MSGID_UNAVAILABLE,
        };
        let fcn_code = match msg.fcn_code {
            Ok(c) => c as u32,
            Err(_) => FCN_CODE_UNAVAILABLE,
        };
        let actual = match msg.size {
            Ok(n) => n,
            Err(_) => SIZE_UNAVAILABLE,
        };
        self.error_count = wrapping_inc(self.error_count);
        Err(Event::LengthError { msgid, fcn_code, actual, expected })
    }
}

} // verus!
