use std::collections::VecDeque;
use std::sync::mpsc;

use tower::diagnostics::command::DiagnosticCommand;
use tower::diagnostics::listener::{
    payload_text, process_one, publish_timed_out_control_if_needed, queue_control_command,
    subscribe, update_snapshot, Batch, CommandPayload, ControlCommand, DiagnosticsCommand,
    DiagnosticsListener, Handling, ListenerStep, OwnedStatusSnapshot, QueueOutcome, Reply,
    ReplyBody, ServeOutcome,
};
use tower::diagnostics::mqtt::{
    complete_control_command, mark_read_only_request_complete, new_shared_command_state,
    preflight_command, release_reserved_control_command, reserve_local_control_command,
    CommandState, ControlCompletionDisposition, InflightControl, PreflightDecision,
    CONTROL_COMMAND_TIMEOUT, MAX_RECENT_REQUEST_IDS, RATE_LIMIT_MAX_COMMANDS, RATE_LIMIT_WINDOW,
};
use tower::ieee::Single;

const SECOND: u64 = 1_000_000_000;
const NOW: u64 = 100 * SECOND;

fn snapshot() -> OwnedStatusSnapshot {
    OwnedStatusSnapshot {
        device_id: "t7".to_string(),
        firmware_version: "1.1.5".to_string(),
        mqtt_connected: true,
        wifi_connected: false,
        motion_mode: "encoder_guarded".to_string(),
        current_heading: Single { bits: 90.0f32.to_bits() },
        activity: "tracking".to_string(),
        activity_reason: "daytime".to_string(),
        sun_angle: None,
        target_heading: None,
        angle_offset: None,
        last_move_outcome: Some("completed".to_string()),
    }
}

fn command(cmd: &str, id: Option<&str>) -> CommandPayload {
    CommandPayload::Command(DiagnosticsCommand {
        cmd: cmd.to_string(),
        request_id: id.map(|s| s.to_string()),
        message: None,
    })
}

fn handle(state: &mut CommandState, now: u64, payload: CommandPayload) -> Handling {
    let shot = snapshot();
    process_one(
        state,
        now,
        "t7",
        "tower/t7/cmd/diagnostics",
        &payload,
        &shot.as_borrowed(),
        "FW 1.1.5",
    )
}

fn reply(handling: Handling) -> Reply {
    match handling {
        Handling::Publish(r) => r,
        Handling::PublishThenComplete(r) => r,
        other => panic!("no reply: {:?}", other),
    }
}

#[test]
fn malformed_json_is_rejected() {
    let parsed = serde_json::from_str::<serde_json::Value>(r#"{"cmd":"ping""#);
    assert!(parsed.is_err());

    let mut state = new_shared_command_state();
    let r = reply(handle(&mut state, NOW, CommandPayload::NotJson));
    assert_eq!(r.status, "error");
    assert_eq!(r.cmd, "unknown");
    assert_eq!(r.message, "Command payload must be valid JSON");
}

#[test]
fn duplicate_request_id_is_rejected_after_completion() {
    let mut state = new_shared_command_state();
    mark_read_only_request_complete(&mut state, "dup-1");

    let decision = preflight_command(&mut state, NOW, "dup-1", "ping", false);
    assert_eq!(decision, PreflightDecision::Duplicate);
}

#[test]
fn second_control_command_is_busy_while_one_is_inflight() {
    let mut state = new_shared_command_state();
    state.inflight_control = Some(InflightControl {
        request_id: String::from("req-1"),
        cmd: String::from("request_rehome"),
        queued_at: NOW,
    });

    let decision = preflight_command(&mut state, NOW + 10 * 1_000_000, "req-2", "rtc_check", true);
    assert_eq!(decision, PreflightDecision::Busy);
}

#[test]
fn timed_out_control_command_is_released() {
    let mut state = CommandState {
        recent_request_ids: VecDeque::new(),
        inflight_control: Some(InflightControl {
            request_id: String::from("req-timeout"),
            cmd: String::from("request_rehome"),
            queued_at: NOW,
        }),
        rate_limit_window_started_at: None,
        rate_limit_count: 0,
    };

    let timed_out = state.take_timed_out_control(NOW + CONTROL_COMMAND_TIMEOUT + SECOND);

    assert!(timed_out.is_some());
    assert!(state.inflight_control.is_none());
    assert!(state.recent_request_ids.iter().any(|id| id == "req-timeout"));
}

#[test]
fn rate_limit_rejects_burst() {
    let mut state = new_shared_command_state();

    for idx in 0..RATE_LIMIT_MAX_COMMANDS {
        let request_id = format!("req-{idx}");
        let decision = preflight_command(&mut state, NOW, &request_id, "ping", false);
        assert_eq!(decision, PreflightDecision::AllowReadOnly);
        mark_read_only_request_complete(&mut state, &request_id);
    }

    let decision = preflight_command(&mut state, NOW, "req-over", "ping", false);
    assert_eq!(decision, PreflightDecision::RateLimited);
}

#[test]
fn zero_capacity_queue_reports_full() {
    let (tx, _rx) = mpsc::sync_channel::<ControlCommand>(0);
    let result = tx.try_send(ControlCommand::ExecuteFirstWave {
        request_id: String::from("req-full"),
        cmd: String::from("request_rehome"),
        command: DiagnosticCommand::GoHome,
    });

    assert!(matches!(result, Err(mpsc::TrySendError::Full(_))));

    let mut state = new_shared_command_state();
    let decision = preflight_command(&mut state, NOW, "req-full", "request_rehome", true);
    assert_eq!(decision, PreflightDecision::ControlReserved);
    let r = queue_control_command(&mut state, "t7", "req-full", "request_rehome", QueueOutcome::Full);
    assert_eq!(r.status, "busy");
    assert_eq!(r.message, "Diagnostics control queue is full; try again shortly");
    assert!(state.inflight_control.is_none());
}

#[test]
fn late_completion_is_suppressed_after_timeout() {
    let mut state = new_shared_command_state();
    state.inflight_control = Some(InflightControl {
        request_id: String::from("req-late"),
        cmd: String::from("request_rehome"),
        queued_at: NOW - CONTROL_COMMAND_TIMEOUT - SECOND,
    });
    let timed_out = state.take_timed_out_control(NOW);
    assert!(timed_out.is_some());

    let disposition = complete_control_command(&mut state, "req-late");
    assert_eq!(disposition, ControlCompletionDisposition::SuppressLateResult);
}

#[test]
fn a_new_window_admits_again() {
    let mut state = new_shared_command_state();
    for idx in 0..RATE_LIMIT_MAX_COMMANDS {
        preflight_command(&mut state, NOW, &format!("r{idx}"), "ping", false);
    }
    let last = NOW + RATE_LIMIT_WINDOW - 1;
    assert_eq!(
        preflight_command(&mut state, last, "x", "ping", false),
        PreflightDecision::RateLimited
    );
    let next = NOW + RATE_LIMIT_WINDOW;
    assert_eq!(
        preflight_command(&mut state, next, "x", "ping", false),
        PreflightDecision::AllowReadOnly
    );
    assert_eq!(state.rate_limit_count, 1);
}

#[test]
fn memory_forgets_the_oldest_request() {
    let mut state = new_shared_command_state();
    for idx in 0..MAX_RECENT_REQUEST_IDS + 1 {
        mark_read_only_request_complete(&mut state, &format!("id-{idx}"));
    }
    assert_eq!(state.recent_request_ids.len(), MAX_RECENT_REQUEST_IDS);
    assert!(!state.recent_request_ids.iter().any(|id| id == "id-0"));
    assert!(state.recent_request_ids.iter().any(|id| id == "id-1"));
    mark_read_only_request_complete(&mut state, "");
    mark_read_only_request_complete(&mut state, "id-1");
    assert_eq!(state.recent_request_ids.len(), MAX_RECENT_REQUEST_IDS);
}

#[test]
fn a_timeout_is_not_early() {
    let mut state = new_shared_command_state();
    assert_eq!(
        preflight_command(&mut state, NOW, "c", "go_home", true),
        PreflightDecision::ControlReserved
    );
    assert!(state.take_timed_out_control(NOW + CONTROL_COMMAND_TIMEOUT - 1).is_none());
    let r = publish_timed_out_control_if_needed(&mut state, NOW + CONTROL_COMMAND_TIMEOUT, "t7");
    let r = r.unwrap_or_else(|| panic!("no timeout"));
    assert_eq!(r.status, "timeout");
    assert_eq!(r.request_id, "c");
    assert_eq!(r.cmd, "go_home");
    assert_eq!(r.topic, "tower/t7/cmd/diagnostics/ack");
    assert!(publish_timed_out_control_if_needed(&mut state, NOW, "t7").is_none());
}

#[test]
fn a_result_is_published_once_and_then_suppressed() {
    let mut state = new_shared_command_state();
    preflight_command(&mut state, NOW, "c", "go_home", true);
    assert_eq!(
        complete_control_command(&mut state, "c"),
        ControlCompletionDisposition::PublishFinalResult
    );
    assert!(state.inflight_control.is_none());
    assert_eq!(
        complete_control_command(&mut state, "c"),
        ControlCompletionDisposition::SuppressLateResult
    );
    assert_eq!(
        preflight_command(&mut state, NOW, "c", "go_home", true),
        PreflightDecision::Duplicate
    );
    complete_control_command(&mut state, "never started");
    assert_eq!(
        complete_control_command(&mut state, "never started"),
        ControlCompletionDisposition::SuppressLateResult
    );
}

#[test]
fn a_release_undoes_a_reservation() {
    let mut state = new_shared_command_state();
    preflight_command(&mut state, NOW, "c", "go_home", true);
    release_reserved_control_command(&mut state, "c", "rtc_check");
    assert!(state.inflight_control.is_some());
    release_reserved_control_command(&mut state, "c", "go_home");
    assert!(state.inflight_control.is_none());
}

#[test]
fn the_local_console_waits_for_the_slot() {
    let mut state = new_shared_command_state();
    assert!(reserve_local_control_command(&mut state, "GO_HOME", NOW).is_ok());
    assert_eq!(
        reserve_local_control_command(&mut state, "RTC_CHECK", NOW),
        Err("ERROR BUSY another diagnostics control command is already in progress".to_string())
    );
}

#[test]
fn messages_on_other_topics_are_ignored() {
    let mut state = new_shared_command_state();
    let shot = snapshot();
    let h = process_one(
        &mut state,
        NOW,
        "t7",
        "tower/t8/cmd/diagnostics",
        &command("ping", None),
        &shot.as_borrowed(),
        "FW",
    );
    assert!(matches!(h, Handling::Ignored));
    assert_eq!(state.rate_limit_count, 0);
}

#[test]
fn payloads_that_are_not_text_are_answered() {
    assert_eq!(payload_text(&[0x70, 0x69]), Some("pi".to_string()));
    assert_eq!(payload_text(&[0xff, 0xfe]), None);
    let mut state = new_shared_command_state();
    let r = reply(handle(&mut state, NOW, CommandPayload::NotUtf8));
    assert_eq!(r.message, "Command payload must be UTF-8");
    assert_eq!(r.status, "error");
}

#[test]
fn each_command_gets_its_answer() {
    let mut state = new_shared_command_state();
    let ping = handle(&mut state, NOW, command("ping", Some("a")));
    assert!(matches!(ping, Handling::PublishThenComplete(_)));
    let r = reply(ping);
    assert_eq!((r.status, r.message.as_str()), ("received", "Tower received diagnostics command"));
    assert_eq!(r.request_id, "a");

    let r = reply(handle(&mut state, NOW, command("get_status", None)));
    assert_eq!((r.status, r.message.as_str()), ("ok", "Tower status snapshot"));
    match r.body {
        ReplyBody::Status(s) => {
            assert_eq!(s.motion_mode, "encoder_guarded");
            assert_eq!(s.current_heading.bits, 90.0f32.to_bits());
            assert_eq!(s.last_move_outcome, Some("completed".to_string()));
        }
        other => panic!("{:?}", other),
    }

    let r = reply(handle(&mut state, NOW, command("firmware_version", None)));
    assert_eq!(r.message, "firmware_version reported successfully");
    assert!(matches!(&r.body, ReplyBody::Transcript { lines } if lines == &["FW 1.1.5".to_string()]));

    let r = reply(handle(&mut state, NOW, command("dance", None)));
    assert_eq!((r.status, r.message.as_str()), ("error", "Unsupported diagnostics command"));

    match handle(&mut state, NOW, command("request_rehome", Some("h"))) {
        Handling::Queue(ControlCommand::ExecuteFirstWave { request_id, cmd, command }) => {
            assert_eq!((request_id.as_str(), cmd.as_str()), ("h", "request_rehome"));
            assert!(matches!(command, DiagnosticCommand::GoHome));
        }
        other => panic!("{:?}", other),
    }
    let r = reply(handle(&mut state, NOW, command("rtc_check", Some("i"))));
    assert_eq!(r.status, "busy");
    let r = reply(handle(&mut state, NOW, command("go_home", Some("h"))));
    assert_eq!(r.status, "duplicate");
    for _ in 0..RATE_LIMIT_MAX_COMMANDS {
        handle(&mut state, NOW, command("ping", None));
    }
    let r = reply(handle(&mut state, NOW, command("ping", None)));
    assert_eq!(r.status, "rate_limited");
}

#[test]
fn queueing_is_acknowledged() {
    let mut state = new_shared_command_state();
    preflight_command(&mut state, NOW, "c", "go_home", true);
    let r = queue_control_command(&mut state, "t7", "c", "go_home", QueueOutcome::Queued);
    assert_eq!(r.status, "queued");
    assert!(state.inflight_control.is_some());
    let r = queue_control_command(&mut state, "t7", "c", "go_home", QueueOutcome::Disconnected);
    assert_eq!((r.status, r.message.as_str()), ("error", "Main control loop is unavailable"));
    assert!(state.inflight_control.is_none());
}

#[test]
fn the_listener_subscribes_before_it_serves() {
    assert_eq!(subscribe("t7"), "tower/t7/cmd/diagnostics");
    let mut l = DiagnosticsListener::new();
    assert_eq!(l.begin(false), ListenerStep::SleepMs(250));
    assert_eq!(l.begin(true), ListenerStep::Subscribe);
    assert_eq!(l.after_subscribe(false), ListenerStep::SleepMs(1000));
    assert_eq!(l.begin(true), ListenerStep::Subscribe);
    assert_eq!(l.after_subscribe(true), ListenerStep::Serve);
    assert_eq!(l.begin(true), ListenerStep::Serve);
    assert_eq!(l.begin(false), ListenerStep::SleepMs(250));
    assert_eq!(l.begin(true), ListenerStep::Subscribe);
}

#[test]
fn a_batch_is_bounded() {
    let mut batch = Batch::new();
    assert_eq!(batch.pause(), Some(100));
    let mut served: u32 = 0;
    loop {
        served += 1;
        if !batch.note(ServeOutcome::Handled) {
            break;
        }
    }
    assert_eq!(served, 8);
    assert_eq!(batch.pause(), None);
    let mut batch = Batch::new();
    assert!(!batch.note(ServeOutcome::Failed));
    assert!(!batch.note(ServeOutcome::Nothing));
    assert_eq!(batch.processed, 0);
}

#[test]
fn the_snapshot_is_replaced() {
    let mut shot = snapshot();
    let mut next = snapshot();
    next.activity = "homing".to_string();
    update_snapshot(&mut shot, next);
    assert_eq!(shot.as_borrowed().activity, "homing");
}
