use tower::calendar::LocalDate;
use tower::ieee::Single;
use tower::logic::daily_reset::check_daily_encoder_reset;
use tower::logic::encoder_fault::{
    after_comparison, persist_position, EncoderFaultRecovery, EncoderRecoverySwitches, ProbeStep,
    TickStep,
};
use tower::logic::fsm::motion::context::MotorCommand;
use tower::logic::types::{Component, Direction, FaultReport, MotionMode, MoveOutcome};
use tower::runtime::encoder_fault as sleepy;
use tower::runtime::encoder_fault::RecoveryStep;
use tower::storage::snapshot_store::{NvsWrite, SnapshotStore};

const SECOND: u64 = 1_000_000_000;
const TODAY: LocalDate = LocalDate { year: 2025, month: 6, day: 1 };

fn single(x: f32) -> Single {
    Single { bits: x.to_bits() }
}

fn shown(journal: &Vec<NvsWrite>) -> String {
    format!("{:?}", journal)
}

fn cfg() -> EncoderRecoverySwitches {
    EncoderRecoverySwitches::default()
}

fn faulted(now: u64) -> EncoderFaultRecovery {
    let mut r = EncoderFaultRecovery::new();
    r.on_move_outcome(&MoveOutcome::AbortedStall, &cfg(), now);
    r
}

#[test]
fn what_was_saved_is_loaded() {
    let store = SnapshotStore::new(true);
    let mut journal = Vec::new();
    store.save_tracking_mode(MotionMode::StepperOnly, &mut journal);
    store.save_heading(single(123.5), &mut journal);
    store.save_encoder_snapshot(-77, &mut journal);
    store.save_last_run_normal(false, &mut journal);
    store.save_encoder_daily_mode(true, &mut journal);
    store.save_encoder_mode_reset_date("2025-06-01", &mut journal);
    assert_eq!(
        shown(&journal),
        format!(
            "[{}, {}, {}, {}, {}, {}, {}]",
            "U8 { key: \"tracking_mode\", value: 1 }",
            format!("U32 {{ key: \"heading\", value: {} }}", 123.5f32.to_bits()),
            "U32 { key: \"enc_snapshot_v\", value: 1 }",
            "I32 { key: \"enc_ticks_adj\", value: -77 }",
            "U8 { key: \"last_run_normal\", value: 0 }",
            "U8 { key: \"enc_daily_mode\", value: 1 }",
            "Str { key: \"enc_rst_date\", value: \"2025-06-01\" }"
        )
    );
    let mut quiet = Vec::new();
    assert_eq!(
        store.load_tracking_mode_or_init(Some(1), MotionMode::EncoderGuarded, &mut quiet),
        MotionMode::StepperOnly
    );
    assert_eq!(
        store.load_heading_or_init(Some(123.5f32.to_bits()), single(0.0), &mut quiet).bits,
        123.5f32.to_bits()
    );
    assert_eq!(store.load_encoder_snapshot(Some(1), Some(-77)), Some(-77));
    assert!(!store.load_last_run_normal_or_init(Some(0), true, &mut quiet));
    assert!(store.load_encoder_daily_mode(Some(1)));
    assert!(quiet.is_empty());
}

#[test]
fn what_was_never_stored_is_initialised() {
    let store = SnapshotStore::new(true);
    let mut journal = Vec::new();
    assert_eq!(
        store.load_tracking_mode_or_init(None, MotionMode::EncoderGuarded, &mut journal),
        MotionMode::EncoderGuarded
    );
    assert_eq!(store.load_heading_or_init(None, single(60.0), &mut journal).bits, 60.0f32.to_bits());
    assert!(store.load_last_run_normal_or_init(None, true, &mut journal));
    assert_eq!(journal.len(), 3);
    let off = SnapshotStore::new(false);
    let mut none = Vec::new();
    off.load_heading_or_init(None, single(60.0), &mut none);
    off.save_heading(single(1.0), &mut none);
    off.save_encoder_snapshot(1, &mut none);
    assert!(none.is_empty());
}

#[test]
fn strange_values_fall_back() {
    let store = SnapshotStore::new(true);
    let mut journal = Vec::new();
    assert_eq!(
        store.load_tracking_mode_or_init(Some(9), MotionMode::EncoderGuarded, &mut journal),
        MotionMode::EncoderGuarded
    );
    assert!(store.load_last_run_normal_or_init(Some(9), true, &mut journal));
    assert_eq!(store.load_encoder_snapshot(Some(2), Some(5)), None);
    assert_eq!(store.load_encoder_snapshot(None, Some(5)), None);
    assert_eq!(store.load_encoder_snapshot(Some(1), None), None);
    assert!(!store.load_encoder_daily_mode(None));
    assert!(journal.is_empty());
}

#[test]
fn the_default_switches() {
    let d = cfg();
    assert!(d.enabled);
    assert_eq!(d.probe_interval_secs, 30);
    assert_eq!(d.probe_steps, 50_000);
    assert_eq!(d.max_drift_deg.bits, 5.0f32.to_bits());
    assert_eq!(d.rehome_dir, Direction::Ccw);
}

#[test]
fn a_stall_starts_probing_after_an_interval() {
    let mut r = EncoderFaultRecovery::new();
    r.on_move_outcome(&MoveOutcome::AbortedPowerMissing, &cfg(), 5);
    r.on_move_outcome(&MoveOutcome::Completed, &cfg(), 5);
    assert!(!r.active);
    let r = faulted(10 * SECOND);
    assert!(r.active);
    assert_eq!(r.next_probe_at, Some(40 * SECOND));
    match r.tick(&cfg(), 40 * SECOND - 1) {
        TickStep::Finished(res) => assert!(res.fault_still_active),
        other => panic!("{:?}", other),
    }
    assert!(matches!(r.tick(&cfg(), 40 * SECOND), TickStep::Probe { steps: 50_000 }));
    let mut over = EncoderFaultRecovery::new();
    over.on_move_outcome(&MoveOutcome::AbortedOvershoot, &cfg(), 0);
    assert!(over.active);
}

#[test]
fn a_switched_off_recovery_stops_the_tower() {
    let mut off = cfg();
    off.enabled = false;
    match faulted(0).tick(&off, 0) {
        TickStep::Finished(res) => {
            assert_eq!(res.telemetry_component, Some(Component::System));
            assert_eq!(
                res.telemetry_message,
                Some("Encoder fault recovery disabled in switchboard".to_string())
            );
        }
        other => panic!("{:?}", other),
    }
    match sleepy::tick(&faulted(0), &off, 0) {
        RecoveryStep::Stop(fault) => assert_eq!(fault.component, Component::System),
        other => panic!("{:?}", other),
    }
}

#[test]
fn the_encoder_is_given_up_after_three_failures() {
    let mut r = faulted(0);
    let mut motor = Vec::new();
    let mut journal = Vec::new();
    let now = 100 * SECOND;
    for failures in 1..3u8 {
        let step = r.after_probe(false, &cfg(), now, true, &TODAY, &mut motor, &mut journal);
        assert!(matches!(step, ProbeStep::Waiting(_)));
        assert_eq!(r.probe_failure_count, failures);
        assert_eq!(r.next_probe_at, Some(130 * SECOND));
    }
    assert!(motor.is_empty() && journal.is_empty());
    match r.after_probe(false, &cfg(), now, true, &TODAY, &mut motor, &mut journal) {
        ProbeStep::GivenUp { result, notes } => {
            assert!(!result.fault_still_active);
            assert_eq!(
                notes,
                "Probe failures reached the daily threshold (3); device will retry encoder recovery at midnight."
            );
        }
        other => panic!("{:?}", other),
    }
    assert!(r.mode_switched_daily());
    assert!(!r.active);
    assert!(matches!(motor[..], [MotorCommand::SetMode(MotionMode::StepperOnly)]));
    assert_eq!(
        shown(&journal),
        "[U8 { key: \"tracking_mode\", value: 1 }, Str { key: \"enc_rst_date\", value: \"2025-06-01\" }, U8 { key: \"enc_daily_mode\", value: 1 }]"
    );
    r.on_move_outcome(&MoveOutcome::AbortedStall, &cfg(), now);
    assert!(!r.active);
    r.set_mode_switched_daily(false);
    r.on_move_outcome(&MoveOutcome::AbortedStall, &cfg(), now);
    assert!(r.active);
}

#[test]
fn a_successful_probe_starts_afresh() {
    let mut r = faulted(0);
    let mut motor = Vec::new();
    let mut journal = Vec::new();
    r.after_probe(false, &cfg(), 0, true, &TODAY, &mut motor, &mut journal);
    assert!(matches!(
        r.after_probe(true, &cfg(), u64::MAX, true, &TODAY, &mut motor, &mut journal),
        ProbeStep::Recovered
    ));
    assert!(motor.is_empty() && journal.is_empty());
    assert_eq!((r.active, r.next_probe_at, r.probe_failure_count), (false, None, 0));
}

#[test]
fn a_small_drift_is_adopted_and_a_large_one_homes() {
    let mut heading = single(10.0);
    let mut motor = Vec::new();
    let mut journal = Vec::new();
    let res = after_comparison(
        &cfg(), single(14.0), single(5.0), MotionMode::EncoderGuarded, 9, true, &mut heading,
        &mut motor, &mut journal,
    );
    assert!(!res.should_rehome);
    assert_eq!(heading.bits, 14.0f32.to_bits());
    assert_eq!(journal.len(), 3);
    let res = after_comparison(
        &cfg(), single(99.0), single(5.1), MotionMode::EncoderGuarded, 9, true, &mut heading,
        &mut motor, &mut journal,
    );
    assert!(res.should_rehome);
    assert_eq!(heading.bits, 14.0f32.to_bits());
    let res = after_comparison(
        &cfg(), single(99.0), single(f32::NAN), MotionMode::StepperOnly, 9, true, &mut heading,
        &mut motor, &mut journal,
    );
    assert!(res.should_rehome);
    assert_eq!(journal.len(), 3);
    assert!(matches!(motor[..], [MotorCommand::UpdatePosition(h)] if h.bits == 14.0f32.to_bits()));
    let mut steps_only = Vec::new();
    persist_position(true, single(1.0), MotionMode::StepperOnly, 4, &mut steps_only);
    assert_eq!(steps_only.len(), 1);
}

#[test]
fn a_new_day_gives_the_encoder_another_chance() {
    let mut journal = Vec::new();
    assert!(!check_daily_encoder_reset(Some(0), Some("2025-05-31"), &TODAY, true, &mut journal));
    assert!(!check_daily_encoder_reset(Some(1), Some("2025-06-01"), &TODAY, true, &mut journal));
    assert!(journal.is_empty());
    assert!(!check_daily_encoder_reset(Some(1), None, &TODAY, true, &mut journal));
    assert_eq!(shown(&journal), "[Str { key: \"enc_rst_date\", value: \"2025-06-01\" }]");
    journal.clear();
    assert!(check_daily_encoder_reset(Some(1), Some("2025-05-31"), &TODAY, true, &mut journal));
    assert_eq!(
        shown(&journal),
        "[U8 { key: \"tracking_mode\", value: 2 }, U8 { key: \"enc_daily_mode\", value: 0 }, Str { key: \"enc_rst_date\", value: \"2025-06-01\" }]"
    );
}

#[test]
fn a_sleepy_recovery_homes_within_the_pass() {
    let r = EncoderFaultRecovery::new();
    assert!(matches!(sleepy::tick(&r, &cfg(), 0), RecoveryStep::Clear));
    let mut r = faulted(0);
    assert!(matches!(sleepy::tick(&r, &cfg(), 1), RecoveryStep::Sleep { secs: 90 }));
    assert!(matches!(sleepy::tick(&r, &cfg(), 30 * SECOND), RecoveryStep::Probe { steps: 50_000 }));
    let mut motor = Vec::new();
    let mut journal = Vec::new();
    let now = 30 * SECOND;
    assert!(matches!(
        sleepy::probed(&mut r, false, &cfg(), now, true, &TODAY, &mut motor, &mut journal),
        RecoveryStep::Sleep { secs: 30 }
    ));
    sleepy::probed(&mut r, false, &cfg(), now, true, &TODAY, &mut motor, &mut journal);
    match sleepy::probed(&mut r, false, &cfg(), now, true, &TODAY, &mut motor, &mut journal) {
        RecoveryStep::GivenUp(FaultReport { component, message, .. }) => {
            assert_eq!(component, Component::Encoder);
            assert_eq!(message, "Encoder probes exhausted, switched to Stepper-only");
        }
        other => panic!("{:?}", other),
    }
    let mut r = faulted(0);
    assert!(matches!(
        sleepy::probed(&mut r, true, &cfg(), now, true, &TODAY, &mut motor, &mut journal),
        RecoveryStep::Compare
    ));
    assert!(matches!(motor[..], [MotorCommand::SetMode(MotionMode::StepperOnly)]));
    motor.clear();
    journal.clear();
    let mut heading = single(10.0);
    assert!(matches!(
        sleepy::compared(
            &cfg(), single(80.0), single(70.0), MotionMode::EncoderGuarded, 1, true, &mut heading,
            &mut motor, &mut journal
        ),
        RecoveryStep::Rehome { dir: Direction::Ccw }
    ));
    match sleepy::rehomed(
        false, single(60.0), MotionMode::EncoderGuarded, 1, true, &mut heading, &mut motor,
        &mut journal,
    ) {
        RecoveryStep::Stop(fault) => {
            assert_eq!(fault.component, Component::LimitSwitch);
            assert_eq!(fault.message, "Re-home failed after drift correction");
        }
        other => panic!("{:?}", other),
    }
    assert_eq!(heading.bits, 10.0f32.to_bits());
    assert!(motor.is_empty());
    assert!(matches!(
        sleepy::rehomed(
            true, single(60.0), MotionMode::EncoderGuarded, 1, true, &mut heading, &mut motor,
            &mut journal
        ),
        RecoveryStep::Clear
    ));
    assert_eq!(heading.bits, 60.0f32.to_bits());
    assert!(matches!(motor[..], [MotorCommand::UpdatePosition(h)] if h.bits == 60.0f32.to_bits()));
    assert_eq!(journal.len(), 3);
    let mut close = single(10.0);
    assert!(matches!(
        sleepy::compared(
            &cfg(), single(14.0), single(4.0), MotionMode::StepperOnly, 1, true, &mut close,
            &mut motor, &mut journal
        ),
        RecoveryStep::Clear
    ));
    assert!(matches!(motor[1], MotorCommand::UpdatePosition(h) if h.bits == 14.0f32.to_bits()));
}
