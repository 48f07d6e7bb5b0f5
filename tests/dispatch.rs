use rust_sample::constants::{
    CMD_MID, COMMANDNOP_INF_EID, COMMANDRST_INF_EID, COMMAND_ERR_EID, FCN_CODE_UNAVAILABLE,
    HK_TLM_MID, INVALID_MSGID_ERR_EID, LEN_ERR_EID, MSGID_UNAVAILABLE, NOOP_CC, NO_FILTER,
    PIPE_ERR_EID, PROCESS_CC, RESET_COUNTERS_CC, SEND_HK_MID, SIZE_UNAVAILABLE, STARTUP_INF_EID,
};
use rust_sample::dispatch::{
    report_startup_failure, subscriptions, Dispatcher, RunState, StartupReport, StartupStep,
};
use rust_sample::event::{event_filters, Event, Severity};
use rust_sample::message::{classify_fcn_code, classify_msgid, CommandCode, Message, MessageKind};
use rust_sample::task::{AppState, HkTlm};

const CMD_SIZE: usize = 8;

fn command(code: u8, size: usize) -> Message {
    Message { msgid: Ok(CMD_MID), fcn_code: Ok(code), size: Ok(size) }
}

fn hk_request() -> Message {
    Message { msgid: Ok(SEND_HK_MID), fcn_code: Ok(0), size: Ok(CMD_SIZE) }
}

#[test]
fn noop_then_housekeeping() {
    let mut s = AppState::new();
    let r = s.process_message(&command(NOOP_CC, CMD_SIZE), CMD_SIZE);
    assert_eq!((s.command_count, s.error_count), (1, 0));
    let e = r.event.unwrap();
    assert_eq!(e, Event::Noop);
    assert_eq!(e.id(), 3);
    assert_eq!(e.severity(), Severity::Information);
    assert!(r.telemetry.is_none());

    let r = s.process_message(&hk_request(), CMD_SIZE);
    assert!(r.event.is_none());
    let t = r.telemetry.unwrap();
    assert_eq!(t.command_error_counter, 0);
    assert_eq!(t.command_counter, 1);
    assert_eq!(s.tlm, t);
}

#[test]
fn unknown_function_code() {
    let mut s = AppState::new();
    s.process_message(&command(NOOP_CC, CMD_SIZE), CMD_SIZE);
    let r = s.process_message(&command(9, CMD_SIZE), CMD_SIZE);
    assert_eq!((s.command_count, s.error_count), (1, 0));
    let e = r.event.unwrap();
    assert_eq!(e, Event::UnknownFcnCode { code: 9 });
    assert_eq!(e.id(), 2);
    assert_eq!(e.severity(), Severity::Error);
}

#[test]
fn noop_one_byte_too_long() {
    let mut s = AppState::new();
    let r = s.process_message(&command(NOOP_CC, CMD_SIZE + 1), CMD_SIZE);
    assert_eq!((s.command_count, s.error_count), (0, 1));
    let e = r.event.unwrap();
    assert_eq!(
        e,
        Event::LengthError { msgid: CMD_MID, fcn_code: 0, actual: CMD_SIZE + 1, expected: CMD_SIZE }
    );
    assert_eq!(e.id(), 6);
}

#[test]
fn pipe_failure_stops_the_loop() {
    let mut d = Dispatcher::new();
    assert!(d.keep_running(true));
    let r = d.on_receive(Err(0xCA00_0001), CMD_SIZE);
    assert_eq!(r.event, Some(Event::PipeReadFailed));
    assert_eq!(r.event.unwrap().id(), 7);
    assert_eq!(d.run, RunState::Exiting);
    assert!(!d.keep_running(true));
    let r = d.on_receive(Ok(command(NOOP_CC, CMD_SIZE)), CMD_SIZE);
    assert!(r.event.is_none());
    assert!(r.telemetry.is_none());
    assert_eq!(d.task.command_count, 0);
}

#[test]
fn dispatcher_forwards_messages() {
    let mut d = Dispatcher::new();
    let r = d.on_receive(Ok(command(NOOP_CC, CMD_SIZE)), CMD_SIZE);
    assert_eq!(r.event, Some(Event::Noop));
    assert_eq!(d.task.command_count, 1);
    assert_eq!(d.run, RunState::Running);
    assert!(!d.keep_running(false));
}

#[test]
fn command_count_tracks_noops_since_reset() {
    let mut s = AppState::new();
    for _ in 0..3 {
        s.process_message(&command(NOOP_CC, CMD_SIZE), CMD_SIZE);
    }
    assert_eq!(s.command_count, 3);
    s.process_message(&command(RESET_COUNTERS_CC, CMD_SIZE), CMD_SIZE);
    assert_eq!(s.command_count, 0);
    for _ in 0..2 {
        s.process_message(&command(NOOP_CC, CMD_SIZE), CMD_SIZE);
    }
    assert_eq!(s.command_count, 2);
}

#[test]
fn command_count_wraps_at_256() {
    let mut s = AppState::new();
    for _ in 0..257 {
        s.process_message(&command(NOOP_CC, CMD_SIZE), CMD_SIZE);
    }
    assert_eq!(s.command_count, 1);
}

#[test]
fn error_count_wraps_at_256() {
    let mut s = AppState::new();
    s.error_count = 255;
    s.process_message(&command(PROCESS_CC, 0), CMD_SIZE);
    assert_eq!(s.error_count, 0);
}

#[test]
fn reset_zeroes_both_counters() {
    let mut s = AppState::new();
    s.command_count = 200;
    s.error_count = 17;
    let r = s.process_message(&command(RESET_COUNTERS_CC, CMD_SIZE), CMD_SIZE);
    assert_eq!((s.command_count, s.error_count), (0, 0));
    let e = r.event.unwrap();
    assert_eq!(e, Event::Reset);
    assert_eq!(e.id(), COMMANDRST_INF_EID);
}

#[test]
fn reset_with_wrong_length_is_rejected() {
    let mut s = AppState::new();
    s.command_count = 5;
    let r = s.process_message(&command(RESET_COUNTERS_CC, CMD_SIZE - 1), CMD_SIZE);
    assert_eq!((s.command_count, s.error_count), (5, 1));
    assert_eq!(
        r.event,
        Some(Event::LengthError { msgid: CMD_MID, fcn_code: 1, actual: CMD_SIZE - 1, expected: CMD_SIZE })
    );
}

#[test]
fn process_command_changes_nothing() {
    let mut s = AppState::new();
    let r = s.process_message(&command(PROCESS_CC, CMD_SIZE), CMD_SIZE);
    assert!(r.event.is_none());
    assert!(r.telemetry.is_none());
    assert_eq!((s.command_count, s.error_count), (0, 0));
}

#[test]
fn unreadable_size_is_a_length_error() {
    let mut s = AppState::new();
    let m = Message { msgid: Ok(CMD_MID), fcn_code: Ok(PROCESS_CC), size: Err(0xC000_0001) };
    let r = s.process_message(&m, CMD_SIZE);
    assert_eq!(s.error_count, 1);
    assert_eq!(
        r.event,
        Some(Event::LengthError { msgid: CMD_MID, fcn_code: 2, actual: SIZE_UNAVAILABLE, expected: CMD_SIZE })
    );
}

#[test]
fn length_gate_sentinels() {
    let mut s = AppState::new();
    let m = Message { msgid: Err(1), fcn_code: Err(2), size: Err(3) };
    let r = s.verify_cmd_pkt(&m, CMD_SIZE);
    assert_eq!(s.error_count, 1);
    match r {
        Err(e) => {
            assert_eq!(
                e,
                Event::LengthError {
                    msgid: MSGID_UNAVAILABLE,
                    fcn_code: FCN_CODE_UNAVAILABLE,
                    actual: SIZE_UNAVAILABLE,
                    expected: CMD_SIZE,
                }
            );
            assert_eq!(e.id(), LEN_ERR_EID);
        }
        Ok(_) => panic!("length gate let an unsized message through"),
    }
}

#[test]
fn length_gate_passes_exact_length() {
    let mut s = AppState::new();
    let r = s.verify_cmd_pkt(&command(NOOP_CC, CMD_SIZE), CMD_SIZE);
    assert_eq!(r.unwrap().len(), CMD_SIZE);
    assert_eq!(s.error_count, 0);
}

#[test]
fn unknown_msgid_changes_nothing() {
    let mut s = AppState::new();
    s.command_count = 4;
    let m = Message { msgid: Ok(HK_TLM_MID), fcn_code: Ok(0), size: Ok(CMD_SIZE) };
    let r = s.process_message(&m, CMD_SIZE);
    assert_eq!((s.command_count, s.error_count), (4, 0));
    let e = r.event.unwrap();
    assert_eq!(e, Event::UnknownMsgId { msgid: HK_TLM_MID });
    assert_eq!(e.id(), INVALID_MSGID_ERR_EID);
    assert!(r.telemetry.is_none());
}

#[test]
fn unreadable_msgid_is_reported() {
    let mut s = AppState::new();
    let m = Message { msgid: Err(0xC000_0002), fcn_code: Ok(0), size: Ok(CMD_SIZE) };
    let r = s.process_message(&m, CMD_SIZE);
    assert_eq!(r.event, Some(Event::MsgIdUnavailable { status: 0xC000_0002 }));
    assert_eq!(r.event.unwrap().id(), 5);
    assert_eq!((s.command_count, s.error_count), (0, 0));
}

#[test]
fn unreadable_fcn_code_is_reported() {
    let mut s = AppState::new();
    let m = Message { msgid: Ok(CMD_MID), fcn_code: Err(0xC000_0003), size: Ok(CMD_SIZE) };
    let r = s.process_message(&m, CMD_SIZE);
    assert_eq!(r.event, Some(Event::FcnCodeUnavailable { status: 0xC000_0003 }));
    assert_eq!(r.event.unwrap().id(), COMMAND_ERR_EID);
    assert_eq!((s.command_count, s.error_count), (0, 0));
}

#[test]
fn housekeeping_snapshot_is_taken_at_request_time() {
    let mut s = AppState::new();
    s.process_message(&command(NOOP_CC, CMD_SIZE), CMD_SIZE);
    s.process_message(&command(NOOP_CC, 3), CMD_SIZE);
    let t = s.process_message(&hk_request(), CMD_SIZE).telemetry.unwrap();
    s.process_message(&command(NOOP_CC, CMD_SIZE), CMD_SIZE);
    assert_eq!(t, HkTlm { command_error_counter: 1, command_counter: 1, spare: [0, 0] });
    assert_eq!(s.command_count, 2);
    assert_eq!(s.tlm, t);
}

#[test]
fn classification() {
    assert_eq!(classify_msgid(0x1882), MessageKind::Command);
    assert_eq!(classify_msgid(0x1883), MessageKind::HousekeepingRequest);
    assert_eq!(classify_msgid(0x0883), MessageKind::Unknown(0x0883));
    assert_eq!(classify_fcn_code(0), CommandCode::Noop);
    assert_eq!(classify_fcn_code(1), CommandCode::ResetCounters);
    assert_eq!(classify_fcn_code(2), CommandCode::Process);
    assert_eq!(classify_fcn_code(3), CommandCode::Unknown(3));
}

#[test]
fn filter_table_lets_everything_through() {
    let f = event_filters();
    assert_eq!(f.len(), 7);
    for (i, e) in f.iter().enumerate() {
        assert_eq!(e.event_id as usize, i + 1);
        assert_eq!(e.mask, NO_FILTER);
    }
}

#[test]
fn startup_failures() {
    assert_eq!(
        report_startup_failure(StartupStep::RegisterEvents, 5),
        StartupReport::Syslog { status: 5 }
    );
    let r = report_startup_failure(StartupStep::Subscribe(SEND_HK_MID), 6);
    assert_eq!(r, StartupReport::Event(Event::SubscribeFailed { msgid: SEND_HK_MID, status: 6 }));
    if let StartupReport::Event(e) = r {
        assert_eq!(e.id(), STARTUP_INF_EID);
        assert_eq!(e.severity(), Severity::Critical);
    }
    let r = report_startup_failure(StartupStep::CreatePipe, 7);
    assert_eq!(r, StartupReport::Event(Event::PipeCreateFailed { status: 7 }));
    let r = report_startup_failure(StartupStep::InitTelemetry, 8);
    assert_eq!(r, StartupReport::Event(Event::TelemetryInitFailed { status: 8 }));
    assert_eq!(Event::Initialized.severity(), Severity::Information);
    assert_eq!(Event::PipeReadFailed.id(), PIPE_ERR_EID);
    assert_eq!(Event::Noop.id(), COMMANDNOP_INF_EID);
}

#[test]
fn subscribed_ids() {
    assert_eq!(subscriptions(), vec![CMD_MID, SEND_HK_MID]);
}
