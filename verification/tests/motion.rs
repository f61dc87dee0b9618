use std::collections::VecDeque;

use tower::calendar::LocalDate;
use tower::config::switchboard::{active, ActiveLevel, MotionModePolicy, Profile, SiteConstants, Switchboard};
use tower::ieee::{Double, Single};
use tower::logic::encoder_fault::EncoderFaultRecovery;
use tower::logic::fsm::mail::{FSMAddress, FSMCommand, FSMState};
use tower::logic::fsm::motion::context::{
    Effects, MaintenanceAction, MotionBeginHoming, MotionContext, MotionErrorLoop, MotionHoming,
    MotionInit, MotionMaintenance, MotionMoving, MotionState, MotionTracking, MotionTrackingWait,
    MotorCommand, StateResult,
};
use tower::logic::fsm::motion::homing::{claims_home, HomingReadings};
use tower::logic::fsm::motion::init::StoredBearings;
use tower::logic::fsm::motion::position::{
    clamp_target, day_moved, day_offset, day_reported, is_daytime, set_tower_position, DayInput,
    DayRun, DayStep,
    MotionTopics, PositionInput, PositionRequest, SetTowerPositionRes, SoftLimits,
};
use tower::logic::fsm::motion::sweep;
use tower::logic::fsm::motion::sweep::{
    night_begin, NightInput, NightRequest, NightStep, SweepInput, SweepRequest, TRACKING_WAIT,
};
use tower::logic::fsm::motion::tracking::{
    DriverReport, DriverState, TrackingInput, TrackingRequest,
};
use tower::logic::tower::{
    boot_finished, boot_homing, boot_swept, pass, restore, BootHoming, TowerInput, TowerRequest,
};
use tower::logic::tracking_loop::{self, Outgoing, TrackingEvent};
use tower::logic::types::{
    Component, Direction, FaultReport, MotionEvent, MotionMode, MoveOutcome,
};

const SECOND: u64 = 1_000_000_000;
const TODAY: LocalDate = LocalDate { year: 2025, month: 6, day: 1 };

fn single(x: f32) -> Single {
    Single { bits: x.to_bits() }
}

fn double(x: f64) -> Double {
    Double { bits: x.to_bits() }
}

fn site() -> SiteConstants {
    SiteConstants {
        device_id: "t7",
        wifi_ssid: "net",
        wifi_password: "pw",
        tz_posix: "UTC0",
        tower_latitude: double(31.5),
        tower_longitude: double(-106.0),
        home_heading_deg: single(60.0),
        soft_limit_min_deg: single(60.0),
        soft_limit_max_deg: single(300.0),
        encoder_probe_steps: 50_000,
        relay_active_high: true,
        limit_switch_active_high: false,
    }
}

fn board() -> Switchboard {
    active(Profile::Normal, &site())
}

fn ctx(trusted: bool) -> MotionContext {
    MotionContext::new(board(), trusted)
}

fn topics() -> MotionTopics {
    MotionTopics { data_angle: "a".to_string(), data_encoder_error_ticks: "e".to_string() }
}

fn motors(fx: &Effects) -> String {
    format!("{:?}", fx.motor)
}

fn stopped(r: &StateResult) -> &MotionErrorLoop {
    match r {
        StateResult::Running(MotionState::ErrorLoop(e)) => e,
        other => panic!("not stopped: {:?}", other),
    }
}

fn report(last_outcome: Option<MoveOutcome>, location: f32) -> DriverReport {
    DriverReport {
        last_outcome,
        location: single(location),
        mode: MotionMode::EncoderGuarded,
        encoder_ticks: 11,
    }
}

fn fault() -> FaultReport {
    FaultReport::new(Component::LimitSwitch, "m", "n")
}

#[test]
fn profiles_differ_where_they_should() {
    assert_eq!(Profile::from_env_str("Admin"), Profile::Admin);
    assert_eq!(Profile::from_env_str("Custom"), Profile::Custom);
    assert_eq!(Profile::from_env_str("admin"), Profile::Normal);
    let n = board();
    assert!(n.runtime.tracking.enabled && n.effects.allow_ota && n.boot.homing.enabled);
    assert!(!n.admin.enabled && n.runtime.commands_enabled && n.effects.persist_nvs);
    assert_eq!(n.runtime.encoder_recovery.probe_interval_secs, 180);
    assert_eq!(n.runtime.encoder_recovery.max_drift_deg.bits, 15.0f32.to_bits());
    assert_eq!(n.boot.recovery.moves[0].deg.bits, 360.0f32.to_bits());
    assert_eq!(n.runtime.relay_active_level, ActiveLevel::ActiveHigh);
    assert_eq!(n.runtime.lmsw_active_level, ActiveLevel::ActiveLow);
    assert_eq!(n.runtime.motion_mode.as_str(), "FromNvsDefault(..)");
    assert_eq!(MotionModePolicy::Force(MotionMode::StepperOnly).as_str(), "Force(..)");
    let a = active(Profile::Admin, &site());
    assert!(!a.runtime.tracking.enabled && !a.effects.allow_ota && !a.boot.homing.enabled);
    assert!(a.admin.enabled && a.runtime.commands_enabled);
    let c = active(Profile::Custom, &site());
    assert!(c.runtime.tracking.enabled);
}

#[test]
fn bearings_are_restored_only_if_trusted() {
    let stored = StoredBearings {
        tracking_mode: Some(2),
        heading: Some(100.0f32.to_bits()),
        snapshot_version: Some(1),
        snapshot_ticks: Some(250),
    };
    let mut c = ctx(true);
    let mut fx = Effects::new();
    let r = MotionInit.process(&mut c, &stored, 1000, &mut fx);
    assert!(matches!(r, StateResult::Running(MotionState::BeginHoming)));
    assert!(c.restored_from_snapshot);
    assert_eq!(c.actual_heading.bits, 100.0f32.to_bits());
    assert!(motors(&fx).ends_with("SetEncoderZeroOffset(750)]"));
    assert!(fx.journal.is_empty());
    let mut c = ctx(false);
    let mut fx = Effects::new();
    MotionInit.process(&mut c, &stored, 1000, &mut fx);
    assert!(!c.restored_from_snapshot);
    assert_eq!(c.actual_heading.bits, 60.0f32.to_bits());
    assert_eq!(fx.motor.len(), 3);
    let mut fx = Effects::new();
    MotionInit.begin("31.5", "-106", Some(1), Some("2025-05-31"), &TODAY, &mut fx);
    assert_eq!(fx.journal.len(), 5);
    assert_eq!(
        format!("{:?}", fx.journal[0]),
        "Str { key: \"tower_latitude\", value: \"31.5\" }"
    );
}

#[test]
fn homing_is_decided_by_policy() {
    let readings = HomingReadings {
        home_distance: single(20.0),
        switch_pressed: false,
        stall_detection: true,
        search_steps: -350,
    };
    let mut inbox = VecDeque::new();
    let mut c = ctx(true);
    let mut fx = Effects::new();
    match MotionBeginHoming.process(&c, &mut inbox, &readings, &mut fx) {
        StateResult::Running(MotionState::Homing(h)) => {
            assert_eq!(h, MotionHoming { stall_prev: true, steps_left: -350 })
        }
        other => panic!("{:?}", other),
    }
    assert_eq!(motors(&fx), "[SetHoming(true), SetStallDetection(false)]");
    c.restored_from_snapshot = true;
    let mut fx = Effects::new();
    let r = MotionBeginHoming.process(&c, &mut inbox, &readings, &mut fx);
    assert!(matches!(r, StateResult::Running(MotionState::Tracking)));
    assert_eq!(fx.journal.len(), 1);
    let claiming = HomingReadings { home_distance: single(-0.005), ..readings };
    let r = MotionBeginHoming.process(&c, &mut inbox, &claiming, &mut fx);
    assert!(matches!(r, StateResult::Running(MotionState::Homing(_))));
    let pressed = HomingReadings { switch_pressed: true, ..claiming };
    c.motion_mode = MotionMode::StepperOnly;
    let mut fx = Effects::new();
    let r = MotionBeginHoming.process(&c, &mut inbox, &pressed, &mut fx);
    assert!(matches!(r, StateResult::Running(MotionState::Tracking)));
    assert_eq!(fx.motor.len(), 2);
    let mut off = ctx(false);
    off.switchboard.boot.homing.enabled = false;
    let r = MotionBeginHoming.process(&off, &mut inbox, &readings, &mut fx);
    assert_eq!(stopped(&r).message, "Homing disabled with untrusted NVS state");
    inbox.push_back(FSMCommand::CWPressed);
    let r = MotionBeginHoming.process(&off, &mut inbox, &readings, &mut fx);
    assert!(matches!(r, StateResult::Running(MotionState::Maintenance(_))));
    assert!(claims_home(single(0.0)) && !claims_home(single(0.01)) && !claims_home(single(f32::NAN)));
}

#[test]
fn the_search_ends() {
    let mut c = ctx(true);
    let mut inbox = VecDeque::new();
    let mut h = MotionHoming { stall_prev: true, steps_left: -25 };
    let mut fx = Effects::new();
    let mut moves = 0;
    let r = loop {
        match h.process(&mut c, &mut inbox, false, -10, 5, &mut fx) {
            StateResult::Running(MotionState::Moving(m)) => {
                assert_eq!(m, MotionMoving { steps: -10 });
                moves += 1;
            }
            other => break other,
        }
    };
    assert_eq!(moves, 3);
    assert_eq!(stopped(&r).message, "Limit switch not found during boot homing");
    assert_eq!(motors(&fx), "[SetStallDetection(true), SetHoming(false)]");
    let mut h = MotionHoming { stall_prev: false, steps_left: -25 };
    let mut fx = Effects::new();
    let r = h.process(&mut c, &mut inbox, true, -10, 5, &mut fx);
    assert!(matches!(r, StateResult::Running(MotionState::Tracking)));
    assert_eq!(c.actual_heading.bits, 60.0f32.to_bits());
    assert_eq!(fx.motor.len(), 4);
    assert_eq!(fx.journal.len(), 3);
    let r = MotionMoving { steps: -10 }.process(Some(MotionState::Tracking));
    assert!(matches!(r, StateResult::Running(MotionState::Tracking)));
    assert!(matches!(
        MotionMoving { steps: -10 }.process(None),
        StateResult::Running(MotionState::Init)
    ));
}

#[test]
fn a_stopped_tower_says_why() {
    let e = MotionErrorLoop {
        component: Component::Encoder,
        message: "m".to_string(),
        notes: "n".to_string(),
    };
    let log = e.process("t7");
    assert_eq!(log.topic, "tower/t7/logs/error");
    assert_eq!((log.log_type, log.message.as_str(), log.notes.as_str()), ("error", "m", "n"));
    assert_eq!(log.component, Component::Encoder);
}

#[test]
fn maintenance_moves_and_returns() {
    let mut m = MotionMaintenance {
        action: MaintenanceAction::Idle,
        return_to: Some(Box::new(MotionState::Tracking)),
    };
    let mut shared = FSMState::default();
    let mut inbox = VecDeque::new();
    inbox.push_back(FSMCommand::CWPressed);
    let (r, steps) = m.process(&mut inbox, &mut shared);
    assert!(matches!(r, StateResult::Hold) && shared.maintenance_mode);
    assert_eq!(steps, Some(150_000));
    let (_, steps) = m.process(&mut inbox, &mut shared);
    assert_eq!(steps, Some(150_000));
    inbox.push_back(FSMCommand::MaintenancePressed);
    let (_, steps) = m.process(&mut inbox, &mut shared);
    assert_eq!(steps, None);
    inbox.push_back(FSMCommand::MaintenancePressed);
    let (r, _) = m.process(&mut inbox, &mut shared);
    assert!(matches!(r, StateResult::Running(MotionState::Tracking)) && !shared.maintenance_mode);

    let mut m = MotionMaintenance { action: MaintenanceAction::Idle, return_to: None };
    inbox.push_back(FSMCommand::CCWPressed);
    let (_, steps) = m.process_presses(&mut inbox);
    assert_eq!(steps, Some(-150_000));
    let (_, steps) = m.process_presses(&mut inbox);
    assert_eq!(steps, None);
    inbox.push_back(FSMCommand::MaintenancePressed);
    m.process_presses(&mut inbox);
    inbox.push_back(FSMCommand::MaintenancePressed);
    let (r, _) = m.process_presses(&mut inbox);
    assert!(matches!(r, StateResult::Running(MotionState::Init)));
}

#[test]
fn the_day_pass_keeps_to_its_limits() {
    assert_eq!(is_daytime(Ok(true), Ok(false)), Ok(true));
    assert_eq!(is_daytime(Ok(true), Ok(true)), Ok(false));
    assert_eq!(is_daytime(Err("r".to_string()), Err("s".to_string())), Err("r".to_string()));
    assert_eq!(is_daytime(Ok(true), Err("s".to_string())), Err("s".to_string()));
    let limits = SoftLimits { enabled: true, min: double(60.0), max: double(300.0) };
    assert_eq!(clamp_target(double(10.0), &limits).bits, 60.0f64.to_bits());
    assert_eq!(clamp_target(double(310.0), &limits).bits, 300.0f64.to_bits());
    assert_eq!(clamp_target(double(200.0), &limits).bits, 200.0f64.to_bits());
    let off = SoftLimits { enabled: false, ..limits };
    assert_eq!(clamp_target(double(10.0), &off).bits, 10.0f64.to_bits());
    let mut fx = Effects::new();
    assert_eq!(day_offset(double(-0.5), double(0.5), &mut fx), DayStep::Stay);
    assert_eq!(day_offset(double(-0.6), double(0.5), &mut fx), DayStep::Move);
    assert_eq!(motors(&fx), "[Disable, Enable]");
    let mut fx = Effects::new();
    assert!(day_moved(&Some(MoveOutcome::Completed), &mut fx));
    assert!(day_moved(&None, &mut fx));
    assert_eq!(fx.motor.len(), 0);
    assert!(!day_moved(&Some(MoveOutcome::AbortedStall), &mut fx));
    assert_eq!(motors(&fx), "[Disable]");
    let e = day_reported(single(90.0), "{}".to_string(), &mut fx);
    assert!(matches!(e, MotionEvent::Angle(a) if a == "{}"));
    assert_eq!(fx.motor.len(), 3);
}

#[test]
fn positioning_follows_the_sun_by_day() {
    let limits = SoftLimits { enabled: true, min: double(60.0), max: double(300.0) };
    let band = double(0.5);
    let mut run = DayRun::new();
    let mut fx = Effects::new();
    let sun = DayInput::Sun { after_sunrise: Ok(true), after_sunset: Ok(false) };
    let r = set_tower_position(PositionInput::Day(sun), &limits, band, &mut run, &mut fx);
    assert!(matches!(r, PositionRequest::ReadTarget));
    let target = DayInput::Target { target: double(310.0) };
    match set_tower_position(PositionInput::Day(target), &limits, band, &mut run, &mut fx) {
        PositionRequest::ReadOffset { target } => assert_eq!(target.bits, 300.0f64.to_bits()),
        other => panic!("{:?}", other),
    }
    let offset = DayInput::Offset { offset: double(20.0) };
    let r = set_tower_position(PositionInput::Day(offset), &limits, band, &mut run, &mut fx);
    assert!(matches!(r, PositionRequest::Move { offset } if offset.bits == 20.0f64.to_bits()));
    let moved = DayInput::Moved { outcome: Some(MoveOutcome::Completed) };
    match set_tower_position(PositionInput::Day(moved), &limits, band, &mut run, &mut fx) {
        PositionRequest::Report { target, offset } => {
            assert_eq!(target.bits, 300.0f64.to_bits());
            assert_eq!(offset.bits, 20.0f64.to_bits());
        }
        other => panic!("{:?}", other),
    }
    let reported = DayInput::Reported { heading: single(300.0), angle: "{}".to_string() };
    match set_tower_position(PositionInput::Day(reported), &limits, band, &mut run, &mut fx) {
        PositionRequest::Done(res) => {
            assert!(res.tracking_done && !res.should_rehome);
            assert!(matches!(res.message, Some(MotionEvent::Angle(a)) if a == "{}"));
        }
        other => panic!("{:?}", other),
    }
    assert_eq!(fx.motor.len(), 4);
    assert!(matches!(fx.motor[0], MotorCommand::ForceZeroIfLimitSwitchPressed));
    assert!(matches!(fx.motor[1], MotorCommand::Enable));
    assert!(matches!(fx.motor[2], MotorCommand::UpdatePosition(h) if h.bits == 300.0f32.to_bits()));
    assert!(matches!(fx.motor[3], MotorCommand::Disable));

    let mut fx = Effects::new();
    let offset = DayInput::Offset { offset: double(-0.5) };
    match set_tower_position(PositionInput::Day(offset), &limits, band, &mut run, &mut fx) {
        PositionRequest::Done(res) => assert!(res.tracking_done && res.message.is_none()),
        other => panic!("{:?}", other),
    }
    assert_eq!(motors(&fx), "[Disable]");
    let sun = DayInput::Sun { after_sunrise: Ok(true), after_sunset: Err("lost".to_string()) };
    match set_tower_position(PositionInput::Day(sun), &limits, band, &mut run, &mut fx) {
        PositionRequest::Failed(e) => assert_eq!(e, "lost"),
        other => panic!("{:?}", other),
    }
}

fn at_night(distance: f32, switch_pressed: bool, fx: &mut Effects) -> SetTowerPositionRes {
    let limits = SoftLimits { enabled: false, min: double(0.0), max: double(0.0) };
    let home = PositionInput::Home { distance: single(distance), switch_pressed };
    match set_tower_position(home, &limits, double(0.5), &mut DayRun::new(), fx) {
        PositionRequest::Done(res) => res,
        other => panic!("{:?}", other),
    }
}

#[test]
fn positioning_sleeps_at_home_by_night() {
    let limits = SoftLimits { enabled: false, min: double(0.0), max: double(0.0) };
    let mut fx = Effects::new();
    let sun = DayInput::Sun { after_sunrise: Ok(true), after_sunset: Ok(true) };
    let mut run = DayRun::new();
    let r = set_tower_position(PositionInput::Day(sun), &limits, double(0.5), &mut run, &mut fx);
    assert!(matches!(r, PositionRequest::ReadHome));
    assert_eq!(fx.motor.len(), 0);
    assert!(at_night(0.0, true, &mut fx).tracking_done);
    assert_eq!(motors(&fx), "[ForceZeroIfLimitSwitchPressed]");
    assert!(at_night(0.0, false, &mut fx).should_rehome);
    assert!(at_night(5.0, true, &mut fx).should_rehome);
    assert_eq!(fx.motor.len(), 1);
}

#[test]
fn a_tracking_pass_runs_through() {
    let mut c = ctx(true);
    let mut d = DriverState { motion_mode: MotionMode::EncoderGuarded, need_rehome: false };
    let mut inbox = VecDeque::new();
    let t = topics();
    let mut fx = Effects::new();
    let now = 50 * SECOND;
    let m = MotionTracking;
    let mut go = |c: &mut MotionContext, d: &mut DriverState, i: TrackingInput, fx: &mut Effects| {
        m.process(c, d, i, &mut inbox, &t, fx)
    };
    assert!(matches!(go(&mut c, &mut d, TrackingInput::Start, &mut fx), TrackingRequest::ReadDaily));
    assert_eq!(fx.mail[0].to, FSMAddress::Network);
    let daily = TrackingInput::Daily { daily_mode: None, stored_date: None, today: TODAY };
    assert!(matches!(go(&mut c, &mut d, daily, &mut fx), TrackingRequest::AskRehomePending));
    let i = TrackingInput::RehomePending { pending: false };
    assert!(matches!(go(&mut c, &mut d, i, &mut fx), TrackingRequest::ReadMode));
    let i = TrackingInput::Mode { stored: Some(2), now };
    assert!(matches!(go(&mut c, &mut d, i, &mut fx), TrackingRequest::ReadModeAgain));
    let i = TrackingInput::ModeAgain { stored: Some(2) };
    assert!(matches!(go(&mut c, &mut d, i, &mut fx), TrackingRequest::AskRehomePendingAgain));
    let i = TrackingInput::RehomePendingAgain { pending: false };
    assert!(matches!(go(&mut c, &mut d, i, &mut fx), TrackingRequest::Position));
    let i = TrackingInput::Positioned {
        res: SetTowerPositionRes { tracking_done: true, should_rehome: false, message: None },
        report: report(Some(MoveOutcome::AbortedStall), 90.0),
        now,
    };
    assert!(matches!(go(&mut c, &mut d, i, &mut fx), TrackingRequest::Finished(StateResult::Hold)));
    assert!(c.encoder_fault.active);
    assert_eq!(c.encoder_fault.next_probe_at, Some(230 * SECOND));
    let i = TrackingInput::Mode { stored: Some(2), now: 230 * SECOND };
    assert!(matches!(go(&mut c, &mut d, i, &mut fx), TrackingRequest::Probe { steps: 50_000 }));
    let i = TrackingInput::Probed { ok: true, now: 230 * SECOND, today: TODAY };
    assert!(matches!(go(&mut c, &mut d, i, &mut fx), TrackingRequest::CompareHeading));
    let i = TrackingInput::Compared { candidate: single(91.0), drift: single(1.0), encoder_ticks: 3 };
    assert!(matches!(go(&mut c, &mut d, i, &mut fx), TrackingRequest::ReadModeAgain));
    assert_eq!(c.actual_heading.bits, 91.0f32.to_bits());
    let i = TrackingInput::Compared { candidate: single(91.0), drift: single(16.0), encoder_ticks: 3 };
    assert!(matches!(
        go(&mut c, &mut d, i, &mut fx),
        TrackingRequest::Finished(StateResult::Running(MotionState::BeginHoming))
    ));
    let mut fx = Effects::new();
    let i = TrackingInput::Positioned {
        res: SetTowerPositionRes {
            tracking_done: true,
            should_rehome: false,
            message: Some(MotionEvent::Angle("{\"a\":1}".to_string())),
        },
        report: report(None, 90.0),
        now,
    };
    go(&mut c, &mut d, i, &mut fx);
    match &fx.mail[0].message {
        FSMCommand::MqttPublishJson(payload, topic) => {
            assert_eq!(payload, "\"{\\\"a\\\":1}\"");
            assert_eq!(topic, "a");
        }
        other => panic!("{:?}", other),
    }
    let i = TrackingInput::Positioned {
        res: SetTowerPositionRes {
            tracking_done: true,
            should_rehome: false,
            message: Some(MotionEvent::ErrorLoop(fault())),
        },
        report: report(None, 90.0),
        now,
    };
    match go(&mut c, &mut d, i, &mut fx) {
        TrackingRequest::Finished(r) => assert_eq!(stopped(&r).message, "m"),
        other => panic!("{:?}", other),
    }
    let i = TrackingInput::Daily {
        daily_mode: Some(1),
        stored_date: Some("2025-05-31".to_string()),
        today: TODAY,
    };
    assert!(matches!(go(&mut c, &mut d, i, &mut fx), TrackingRequest::ReadModeAfterReset));
    let i = TrackingInput::ModeAfterReset { stored: Some(1) };
    assert!(matches!(go(&mut c, &mut d, i, &mut fx), TrackingRequest::AskRehomePending));
    assert_eq!(d.motion_mode, MotionMode::StepperOnly);
}

#[test]
fn a_night_sweep_is_settled() {
    assert_eq!(night_begin(single(5.0), false), NightStep::GoHome);
    assert_eq!(night_begin(single(0.0), true), NightStep::Sleep);
    assert_eq!(night_begin(single(0.0), false), NightStep::Verify);
    let mut fx = Effects::new();
    match swept(NightInput::Home { distance: single(0.0), switch_pressed: true }, &mut fx) {
        NightRequest::Done { done, events } => assert!(done && events.is_empty()),
        other => panic!("{:?}", other),
    }
    let home = NightInput::Home { distance: single(0.0), switch_pressed: false };
    assert!(matches!(swept(home, &mut fx), NightRequest::Sweep(NightStep::Verify)));
    let unconfirmed = NightInput::Swept {
        step: NightStep::Verify,
        found: Some(false),
        error_ticks: Some("7".to_string()),
    };
    let events = match swept(unconfirmed, &mut fx) {
        NightRequest::Done { done: false, events } => events,
        other => panic!("{:?}", other),
    };
    assert_eq!(events.len(), 2);
    match sweep::publish_events(events, &topics(), &mut fx) {
        Some(f) => {
            assert_eq!(f.message, "Limit switch not found during sunset home verification")
        }
        None => panic!("goes on"),
    }
    assert_eq!(fx.mail.len(), 1);
    let lost =
        NightInput::Swept { step: NightStep::GoHome, found: Some(false), error_ticks: None };
    match swept(lost, &mut fx) {
        NightRequest::Done { done: false, events } => {
            assert!(matches!(&events[0], MotionEvent::ErrorLoop(f)
                if f.message == "Limit switch not found during move-to-sleep homing"));
        }
        other => panic!("{:?}", other),
    }
    let undone = NightInput::Swept { step: NightStep::GoHome, found: None, error_ticks: None };
    match swept(undone, &mut fx) {
        NightRequest::Done { done, events } => assert!(done && events.is_empty()),
        other => panic!("{:?}", other),
    }
    let sun = DayInput::Sun { after_sunrise: Ok(true), after_sunset: Ok(false) };
    assert!(matches!(swept(NightInput::Day(sun), &mut fx), NightRequest::ReadTarget));
    let offset = DayInput::Offset { offset: double(-8.0) };
    assert!(matches!(swept(NightInput::Day(offset), &mut fx), NightRequest::Move { offset }
        if offset.bits == (-8.0f64).to_bits()));
    let stalled = DayInput::Moved { outcome: Some(MoveOutcome::AbortedStall) };
    match swept(NightInput::Day(stalled), &mut fx) {
        NightRequest::Done { done, events } => assert!(done && events.is_empty()),
        other => panic!("{:?}", other),
    }
    let unknown = DayInput::Moved { outcome: None };
    assert!(matches!(swept(NightInput::Day(unknown), &mut fx), NightRequest::Report { .. }));
}

fn swept(input: NightInput, fx: &mut Effects) -> NightRequest {
    let limits = SoftLimits { enabled: false, min: double(0.0), max: double(0.0) };
    sweep::set_tower_position(input, &limits, double(0.5), &mut DayRun::new(), fx)
}

#[test]
fn a_sweeping_pass_homes_after_a_change_of_mode() {
    let mut c = ctx(true);
    let mut inbox = VecDeque::new();
    let t = topics();
    let mut fx = Effects::new();
    c.motion_mode = MotionMode::StepperOnly;
    let i = SweepInput::Daily { daily_mode: None, stored_date: None, today: TODAY };
    let r = MotionTracking.process_sweeping(&mut c, i, &mut inbox, 0, &t, &mut fx);
    assert!(matches!(r, SweepRequest::Sweep));
    let i = SweepInput::Swept { found: false };
    match MotionTracking.process_sweeping(&mut c, i, &mut inbox, 0, &t, &mut fx) {
        SweepRequest::Finished(r) => {
            assert_eq!(stopped(&r).message, "Re-home failed after encoder recovery")
        }
        other => panic!("{:?}", other),
    }
    let i = SweepInput::Swept { found: true };
    let r = MotionTracking.process_sweeping(&mut c, i, &mut inbox, 0, &t, &mut fx);
    assert!(matches!(r, SweepRequest::Finished(StateResult::Running(MotionState::BeginHoming))));
    assert!(!c.need_rehome);
    let i = SweepInput::Daily { daily_mode: None, stored_date: None, today: TODAY };
    let r = MotionTracking.process_sweeping(&mut c, i, &mut inbox, 0, &t, &mut fx);
    assert!(matches!(r, SweepRequest::ReadMode));
    let i = SweepInput::Mode { stored: Some(1) };
    let r = MotionTracking.process_sweeping(&mut c, i, &mut inbox, 0, &t, &mut fx);
    assert!(matches!(r, SweepRequest::ReadModeAgain));
    let i = SweepInput::ModeAgain { stored: Some(1) };
    let r = MotionTracking.process_sweeping(&mut c, i, &mut inbox, 0, &t, &mut fx);
    assert!(matches!(r, SweepRequest::Position));
    let i = SweepInput::Positioned {
        events: Vec::new(),
        report: report(Some(MoveOutcome::Completed), 88.0),
    };
    let r = MotionTracking.process_sweeping(&mut c, i, &mut inbox, 9, &t, &mut fx);
    assert!(matches!(
        r,
        SweepRequest::Finished(StateResult::Running(MotionState::TrackingWait(
            MotionTrackingWait { begin: 9 }
        )))
    ));
    assert_eq!(c.actual_heading.bits, 88.0f32.to_bits());
    let wait = MotionTrackingWait { begin: 9 };
    let r = wait.process(&c, &mut inbox, 8 + TRACKING_WAIT, &mut fx);
    assert!(matches!(r, StateResult::Hold));
    let r = wait.process(&c, &mut inbox, 9 + TRACKING_WAIT, &mut fx);
    assert!(matches!(r, StateResult::Running(MotionState::Tracking)));
}

#[test]
fn a_tower_boots_and_homes() {
    let stored = StoredBearings {
        tracking_mode: Some(1),
        heading: None,
        snapshot_version: Some(1),
        snapshot_ticks: Some(4),
    };
    let mut c = ctx(true);
    let mut fx = Effects::new();
    restore(&mut c, &stored, 10, Some(1), &mut fx);
    assert_eq!(c.motion_mode, MotionMode::StepperOnly);
    assert_eq!(c.previous_motion_mode, MotionMode::StepperOnly);
    assert!(c.encoder_fault.mode_switched_daily());
    assert!(!c.restored_from_snapshot);
    assert_eq!(fx.journal.len(), 1);
    assert!(matches!(
        boot_homing(&c, single(0.0), true),
        BootHoming::Sweep { dir: Direction::Ccw }
    ));
    let mut journal = Vec::new();
    match boot_swept(&mut c, false, 1, &mut journal) {
        Some(f) => assert!(f.notes.ends_with("tower orientation unknown.")),
        None => panic!("goes on"),
    }
    assert!(boot_swept(&mut c, true, 1, &mut journal).is_none());
    boot_finished(&mut journal);
    assert_eq!(journal.len(), 2);
    let guarded = StoredBearings { tracking_mode: Some(2), ..stored };
    restore(&mut c, &guarded, 10, None, &mut fx);
    assert!(matches!(fx.motor[fx.motor.len() - 2], MotorCommand::SetEncoderZeroOffset(6)));
    assert!(matches!(boot_homing(&c, single(30.0), false), BootHoming::Skip));
    assert!(matches!(boot_homing(&c, single(0.0), false), BootHoming::Sweep { .. }));
    c.switchboard.boot.homing.enabled = false;
    assert!(matches!(boot_homing(&c, single(0.0), false), BootHoming::Skip));
    c.trust_nvs_state = false;
    assert!(matches!(boot_homing(&c, single(0.0), false), BootHoming::Stop(_)));
}

#[test]
fn a_tower_pass_keeps_house() {
    let mut c = ctx(true);
    let mut fx = Effects::new();
    let now = 10 * SECOND;
    let daily = || TowerInput::Daily { daily_mode: None, stored_date: None, today: TODAY };
    assert!(matches!(pass(&mut c, daily(), now, &mut fx), TowerRequest::ReadMode));
    let r = pass(&mut c, TowerInput::Mode { stored: Some(2) }, now, &mut fx);
    assert!(matches!(r, TowerRequest::ReadModeAgain { report: None }));
    let r = pass(&mut c, TowerInput::ModeAgain { stored: Some(2) }, now, &mut fx);
    assert!(matches!(r, TowerRequest::Position));
    let i = TowerInput::Positioned { report: report(Some(MoveOutcome::AbortedOvershoot), 1.0) };
    assert!(matches!(pass(&mut c, i, now, &mut fx), TowerRequest::KeepHouse { secs: 300 }));
    let r = pass(&mut c, TowerInput::Mode { stored: Some(2) }, now, &mut fx);
    assert!(matches!(r, TowerRequest::Wait { secs: 90 }));
    let due = 190 * SECOND;
    let r = pass(&mut c, TowerInput::Mode { stored: Some(2) }, due, &mut fx);
    assert!(matches!(r, TowerRequest::Probe { .. }));
    for _ in 0..2 {
        let r = pass(&mut c, TowerInput::Probed { ok: false, today: TODAY }, due, &mut fx);
        assert!(matches!(r, TowerRequest::Wait { secs: 30 }));
    }
    match pass(&mut c, TowerInput::Probed { ok: false, today: TODAY }, due, &mut fx) {
        TowerRequest::ReadModeAgain { report: Some(f) } => {
            assert_eq!(f.component, Component::Encoder)
        }
        other => panic!("{:?}", other),
    }
    let r = pass(&mut c, TowerInput::ModeAgain { stored: Some(1) }, due, &mut fx);
    assert!(matches!(r, TowerRequest::Sweep { dir: Direction::Ccw }));
    let r = pass(&mut c, TowerInput::Swept { found: true }, due, &mut fx);
    assert!(matches!(r, TowerRequest::Again { secs: 2 }));
    let i = TowerInput::Compared { candidate: single(1.0), drift: single(99.0), encoder_ticks: 0 };
    assert!(matches!(pass(&mut c, i, due, &mut fx), TowerRequest::Rehome { dir: Direction::Cw }));
    let r = pass(&mut c, TowerInput::Rehomed { found: false, encoder_ticks: 0 }, due, &mut fx);
    assert!(matches!(r, TowerRequest::Stop(_)));
    let r = pass(&mut c, TowerInput::Rehomed { found: true, encoder_ticks: 0 }, due, &mut fx);
    assert!(matches!(r, TowerRequest::ReadModeAgain { report: None }));
    c.switchboard.runtime.tracking.enabled = false;
    let r = pass(&mut c, TowerInput::ModeAgain { stored: Some(1) }, due, &mut fx);
    assert!(matches!(r, TowerRequest::KeepHouse { secs: 300 }));
    let mut off = ctx(true);
    off.switchboard.runtime.encoder_recovery.enabled = false;
    off.encoder_fault = EncoderFaultRecovery { active: true, ..EncoderFaultRecovery::new() };
    let r = pass(&mut off, TowerInput::Mode { stored: Some(2) }, due, &mut fx);
    assert!(matches!(r, TowerRequest::Stop(_)));
}

#[test]
fn a_tick_publishes_what_the_driver_hands_over() {
    let mut heading = single(1.0);
    let mut journal = Vec::new();
    let mut queue = Vec::new();
    let events = || {
        vec![
            TrackingEvent::Angle("x".to_string()),
            TrackingEvent::HomeErrorTicks("y".to_string()),
            TrackingEvent::Error {
                time: "t".to_string(),
                message: "m".to_string(),
                notes: "n".to_string(),
            },
            TrackingEvent::CheckForOTA,
        ]
    };
    let r = tracking_loop::tick(
        Err("clock".to_string()), events(), report(None, 2.0), true, "t7", &topics(),
        &mut heading, &mut journal, &mut queue,
    );
    assert!(matches!(r, Err(e) if e == "clock"));
    assert!(queue.is_empty());
    let r = tracking_loop::tick(
        Ok(false), events(), report(None, 2.0), true, "t7", &topics(), &mut heading,
        &mut journal, &mut queue,
    );
    assert!(matches!(r, Ok(MoveOutcome::Completed)));
    assert_eq!(queue.len(), 4);
    assert!(matches!(&queue[0], Outgoing::Json { payload, topic }
        if payload == "\"x\"" && topic == "a"));
    assert!(matches!(&queue[2], Outgoing::Error { time, log }
        if time == "t" && log.topic == "tower/t7/logs/error" && log.notes == "n"));
    assert!(matches!(&queue[3], Outgoing::PerformOta));
    assert!(journal.is_empty());
    let r = tracking_loop::tick(
        Err("clock".to_string()), events(), report(Some(MoveOutcome::Completed), 2.0), true,
        "t7", &topics(), &mut heading, &mut journal, &mut queue,
    );
    assert!(matches!(r, Ok(MoveOutcome::Completed)));
    assert_eq!((heading.bits, journal.len(), queue.len()), (2.0f32.to_bits(), 3, 4));
    let stepping = DriverReport {
        mode: MotionMode::StepperOnly,
        ..report(Some(MoveOutcome::Completed), 2.0)
    };
    let mut steps_only = Vec::new();
    let r = tracking_loop::tick(
        Ok(true), Vec::new(), stepping, true, "t7", &topics(), &mut heading, &mut steps_only,
        &mut queue,
    );
    assert!(r.is_ok());
    assert_eq!(steps_only.len(), 1);
    let r = tracking_loop::tick(
        Ok(true), events(), report(Some(MoveOutcome::AbortedStall), 9.0), true, "t7",
        &topics(), &mut heading, &mut journal, &mut queue,
    );
    assert!(matches!(r, Ok(MoveOutcome::AbortedStall)));
    assert_eq!((heading.bits, journal.len()), (2.0f32.to_bits(), 3));
    assert_eq!(Direction::Ccw.apply_to_deg(single(8.0)).bits, (-8.0f32).to_bits());
    assert_eq!(MoveOutcome::AbortedErrorLoop(fault()).as_str(), "AbortedErrorLoop");
}
