//! Command dispatch and validation for a small flight-software task: the
//! message classifier, the command processor, the packet length gate, the
//! task's counters and its housekeeping telemetry snapshot, and the run/exit
//! state machine of the dispatch loop.
use vstd::prelude::*;

pub mod constants;
pub mod dispatch;
pub mod event;
pub mod laws;
pub mod message;
pub mod task;

verus! {

} // verus!
