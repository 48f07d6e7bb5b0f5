//! A received message as the dispatcher sees it, and the closed
//! classification of its identifier and function code.
use vstd::prelude::*;

use crate::constants::{CMD_MID, NOOP_CC, PROCESS_CC, RESET_COUNTERS_CC, SEND_HK_MID};

verus! {

/// What the message layer reports about one received message. Each field is
/// either the value read from the message or the status code of the failed
/// read.
#[derive(Clone, Copy, Debug)]
pub struct Message {
    /// The message identifier.
    pub msgid: Result<u32, u32>,
    /// The function code (meaningful for commands only).
    pub fcn_code: Result<u8, u32>,
    /// The total length of the message in bytes.
    pub size: Result<usize, u32>,
}

/// The routes a message identifier can take.
#[derive(Clone, Copy, Debug, PartialEq, Eq, Structural)]
pub enum MessageKind {
    Command,
    HousekeepingRequest,
    Unknown(u32),
}

/// The commands a function code can select.
#[derive(Clone, Copy, Debug, PartialEq, Eq, Structural)]
pub enum CommandCode {
    Noop,
    ResetCounters,
    Process,
    Unknown(u8),
}

pub open spec fn kind_of(id: u32) -> MessageKind {
    if id == CMD_MID {
        MessageKind::Command
    } else if id == SEND_HK_MID {
        MessageKind::HousekeepingRequest
    } else {
        MessageKind::Unknown(id)
    }
}

pub open spec fn command_of(code: u8) -> CommandCode {
    if code == NOOP_CC {
        CommandCode::Noop
    } else if code == RESET_COUNTERS_CC {
        CommandCode::ResetCounters
    } else if code == PROCESS_CC {
        CommandCode::Process
    } else {
        CommandCode::Unknown(code)
    }
}

/// Routes a message identifier.
pub fn classify_msgid(id: u32) -> (r: MessageKind)
    ensures
        r == kind_of(id),
{
    if id == CMD_MID {
        MessageKind::Command
    } else if id == SEND_HK_MID {
        MessageKind::HousekeepingRequest
    } else {
        MessageKind::Unknown(id)
    }
}

/// Selects the command for a function code.
pub fn classify_fcn_code(code: u8) -> (r: CommandCode)
    ensures
        r == command_of(code),
{
    if code == NOOP_CC {
        CommandCode::Noop
    } else if code == RESET_COUNTERS_CC {
        CommandCode::ResetCounters
    } else if code == PROCESS_CC {
        CommandCode::Process
    } else {
        CommandCode::Unknown(code)
    }
}

} // verus!
