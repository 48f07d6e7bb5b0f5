//! Identifiers shared by the task and the rest of the system.
use vstd::prelude::*;

verus! {

/// Event ID: reserved.
pub const RESERVED_EID: u16 = 0;

/// Event ID: startup complete, or a startup step failed.
pub const STARTUP_INF_EID: u16 = 1;

/// Event ID: the function code could not be read, or is unknown.
pub const COMMAND_ERR_EID: u16 = 2;

/// Event ID: a no-op command was accepted.
pub const COMMANDNOP_INF_EID: u16 = 3;

/// Event ID: a reset-counters command was accepted.
pub const COMMANDRST_INF_EID: u16 = 4;

/// Event ID: the message identifier could not be read, or is unknown.
pub const INVALID_MSGID_ERR_EID: u16 = 5;

/// Event ID: a command's length does not match its handler.
pub const LEN_ERR_EID: u16 = 6;

/// Event ID: receiving from the message pipe failed.
pub const PIPE_ERR_EID: u16 = 7;

/// Filter mask that lets every occurrence of an event through.
pub const NO_FILTER: u16 = 0;

/// Performance log ID of the running task.
pub const RUST_SAMPLE_APP_PERF_ID: u32 = 91;

/// Queue depth of the task's message pipe.
pub const PIPE_DEPTH: u16 = 32;

/// Message ID for commands to the application.
pub const CMD_MID: u32 = 0x1882;

/// Message ID that asks the application to emit housekeeping telemetry.
pub const SEND_HK_MID: u32 = 0x1883;

/// Message ID of the application's housekeeping telemetry.
pub const HK_TLM_MID: u32 = 0x0883;

/// Function code for `CMD_MID`: no-op.
pub const NOOP_CC: u8 = 0;

/// Function code for `CMD_MID`: reset the counters.
pub const RESET_COUNTERS_CC: u8 = 1;

/// Function code for `CMD_MID`: process a ground statement.
pub const PROCESS_CC: u8 = 2;

/// Sentinel reported in a length error when the message ID is unavailable.
pub const MSGID_UNAVAILABLE: u32 = 0;

/// Sentinel reported in a length error when the function code is unavailable.
pub const FCN_CODE_UNAVAILABLE: u32 = 9999;

/// Sentinel reported in a length error when the message size is unavailable.
pub const SIZE_UNAVAILABLE: usize = 999_999;

} // verus!
