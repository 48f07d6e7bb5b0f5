//! Properties that hold across calls of the dispatcher, stated over the
//! transition functions that the handlers' contracts use.
use vstd::prelude::*;
use vstd::arithmetic::div_mod::lemma_add_mod_noop;

use crate::constants::{CMD_MID, INVALID_MSGID_ERR_EID, LEN_ERR_EID, NOOP_CC, RESET_COUNTERS_CC, SEND_HK_MID};
use crate::dispatch::{receive_outcome, Dispatcher, RunState};
use crate::event::{event_id, Event};
use crate::message::{command_of, CommandCode, Message};
use crate::task::{
    length_error, length_matches, message_outcome, respond, silent, wrap_inc, AppState, HkTlm,
};

verus! {

/// A no-op command of the right length.
pub open spec fn is_noop_command(m: Message, cmd_size: usize) -> bool {
    &&& m.msgid == Ok::<u32, u32>(CMD_MID)
    &&& m.fcn_code == Ok::<u8, u32>(NOOP_CC)
    &&& m.size == Ok::<usize, u32>(cmd_size)
}

/// A reset-counters command of the right length.
pub open spec fn is_reset_command(m: Message, cmd_size: usize) -> bool {
    &&& m.msgid == Ok::<u32, u32>(CMD_MID)
    &&& m.fcn_code == Ok::<u8, u32>(RESET_COUNTERS_CC)
    &&& m.size == Ok::<usize, u32>(cmd_size)
}

/// The task state after handling `msgs` in order, starting from `s`.
pub open spec fn run_messages(s: AppState, msgs: Seq<Message>, cmd_size: usize) -> AppState
    decreases msgs.len(),
{
    if msgs.len() == 0 {
        s
    } else {
        message_outcome(run_messages(s, msgs.drop_last(), cmd_size), msgs.last(), cmd_size).0
    }
}

/// The number of no-op commands in `msgs` after the last reset; where there
/// is no reset, counted on from `initial`.
pub open spec fn noops_since_reset(initial: nat, msgs: Seq<Message>, cmd_size: usize) -> nat
    decreases msgs.len(),
{
    if msgs.len() == 0 {
        initial
    } else if is_reset_command(msgs.last(), cmd_size) {
        0
    } else if is_noop_command(msgs.last(), cmd_size) {
        noops_since_reset(initial, msgs.drop_last(), cmd_size) + 1
    } else {
        noops_since_reset(initial, msgs.drop_last(), cmd_size)
    }
}

/// After any sequence of no-op and reset commands, the command counter is
/// the number of no-ops since the last reset, modulo 256 (counted on from
/// the counter's starting value where no reset came).
pub proof fn lemma_command_count_counts_noops(s: AppState, msgs: Seq<Message>, cmd_size: usize)
    requires
        forall|i: int|
            0 <= i < msgs.len() ==> is_noop_command(#[trigger] msgs[i], cmd_size)
                || is_reset_command(msgs[i], cmd_size),
    ensures
        run_messages(s, msgs, cmd_size).command_count == noops_since_reset(
            s.command_count as nat,
            msgs,
            cmd_size,
        ) % 256,
    decreases msgs.len(),
{
    if msgs.len() == 0 {
        assert(s.command_count < 256);
    } else {
        let prefix = msgs.drop_last();
        assert forall|i: int| 0 <= i < prefix.len() implies is_noop_command(
            #[trigger] prefix[i],
            cmd_size,
        ) || is_reset_command(prefix[i], cmd_size) by {
            assert(prefix[i] == msgs[i]);
        }
        lemma_command_count_counts_noops(s, prefix, cmd_size);
        let last = msgs.last();
        assert(is_noop_command(msgs[msgs.len() - 1], cmd_size) || is_reset_command(
            msgs[msgs.len() - 1],
            cmd_size,
        ));
        if is_noop_command(last, cmd_size) {
            let n = noops_since_reset(s.command_count as nat, prefix, cmd_size);
            lemma_add_mod_noop(n as int, 1, 256);
            assert(command_of(NOOP_CC) == CommandCode::Noop);
        }
    }
}

/// A reset leaves both counters at zero, whatever they were.
pub proof fn lemma_reset_zeroes_counters(s: AppState, m: Message, cmd_size: usize)
    requires
        is_reset_command(m, cmd_size),
    ensures
        message_outcome(s, m, cmd_size).0.command_count == 0,
        message_outcome(s, m, cmd_size).0.error_count == 0,
{
    assert(command_of(RESET_COUNTERS_CC) == CommandCode::ResetCounters);
}

/// A known command whose length is wrong never reaches its handler: the
/// error counter goes up by one, nothing else changes, and exactly one
/// length-error event reports the identifier, the function code, the actual
/// length and the expected length.
pub proof fn lemma_length_mismatch_rejected(s: AppState, m: Message, cmd_size: usize)
    requires
        m.msgid == Ok::<u32, u32>(CMD_MID),
        m.fcn_code is Ok,
        !(command_of(m.fcn_code->Ok_0) is Unknown),
        !length_matches(m, cmd_size),
    ensures
        message_outcome(s, m, cmd_size).0 == (AppState { error_count: wrap_inc(s.error_count), ..s }),
        message_outcome(s, m, cmd_size).1 == respond(length_error(m, cmd_size)),
        event_id(length_error(m, cmd_size)) == LEN_ERR_EID,
        length_error(m, cmd_size) == (Event::LengthError {
            msgid: CMD_MID,
            fcn_code: m.fcn_code->Ok_0 as u32,
            actual: match m.size {
                Ok(n) => n,
                Err(_) => crate::constants::SIZE_UNAVAILABLE,
            },
            expected: cmd_size,
        }),
{
}

/// A message whose identifier is unreadable or belongs to neither commands
/// nor housekeeping requests changes nothing and yields exactly one
/// invalid-identifier event.
pub proof fn lemma_unknown_msgid_reported(s: AppState, m: Message, cmd_size: usize)
    requires
        m.msgid != Ok::<u32, u32>(CMD_MID),
        m.msgid != Ok::<u32, u32>(SEND_HK_MID),
    ensures
        message_outcome(s, m, cmd_size).0 == s,
        message_outcome(s, m, cmd_size).1.telemetry is None,
        message_outcome(s, m, cmd_size).1.event is Some,
        event_id(message_outcome(s, m, cmd_size).1.event->Some_0) == INVALID_MSGID_ERR_EID,
        m.msgid is Ok ==> message_outcome(s, m, cmd_size).1.event == Some(
            Event::UnknownMsgId { msgid: m.msgid->Ok_0 },
        ),
{
}

/// A housekeeping request sends the counters as they stood when it arrived,
/// and changes neither counter.
pub proof fn lemma_housekeeping_reports_current_counters(s: AppState, m: Message, cmd_size: usize)
    requires
        m.msgid == Ok::<u32, u32>(SEND_HK_MID),
    ensures
        message_outcome(s, m, cmd_size).1.event is None,
        message_outcome(s, m, cmd_size).1.telemetry == Some(
            HkTlm {
                command_error_counter: s.error_count,
                command_counter: s.command_count,
                spare: s.tlm.spare,
            },
        ),
        message_outcome(s, m, cmd_size).0.command_count == s.command_count,
        message_outcome(s, m, cmd_size).0.error_count == s.error_count,
{
}

/// A receive failure ends the loop with exactly one pipe-error event and the
/// task state untouched; once exiting, no further message is handled.
pub proof fn lemma_receive_failure_is_terminal(
    d: Dispatcher,
    status: u32,
    later: Result<Message, u32>,
    cmd_size: usize,
)
    requires
        d.run == RunState::Running,
    ensures
        receive_outcome(d, Err(status), cmd_size).0.run == RunState::Exiting,
        receive_outcome(d, Err(status), cmd_size).0.task == d.task,
        receive_outcome(d, Err(status), cmd_size).1 == respond(Event::PipeReadFailed),
        receive_outcome(receive_outcome(d, Err(status), cmd_size).0, later, cmd_size) == (
            receive_outcome(d, Err(status), cmd_size).0,
            silent(),
        ),
{
}

} // verus!
