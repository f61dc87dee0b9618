//! What a tower believes of its encoder, and what it does about it.

use vstd::prelude::*;

use crate::calendar::{stamps_tell_days_apart, LocalDate};
use crate::ieee::Single;
use crate::logic::daily_reset::{reset_due, reset_writes};
use crate::logic::encoder_fault::{
    adopted_bearings, compared_bearings, default_recovery_switches, probe_leads, Bearings,
    EncoderFaultRecovery, EncoderRecoverySwitches, ProbeStep, RecoveryState, TickStep,
};
use crate::logic::fsm::mail::Message;
use crate::logic::fsm::motion::context::{
    resumed, transition_leads, MaintenanceAction, MotionState, MotorCommand, StateResult,
};
use crate::logic::fsm::motion::error_loop::fault_log;
use crate::logic::fsm::motion::tracking::DriverReport;
use crate::logic::types::{
    Component, Direction, FaultView, MotionMode, MoveOutcome, OutcomeView, Severity,
};
use crate::runtime::encoder_fault::{
    compared_leads, probed_leads, rehomed_leads, tick_asks, RecoveryStep,
};
use crate::runtime::tracking_loop::{tick_leads, PassResult};
use crate::storage::laws::{keys_differ, replay_appended};
use crate::storage::snapshot_store::{
    NvsImage, NvsWriteView, NVS_KEY_ENCODER_DAILY_MODE, NVS_KEY_ENCODER_MODE_RESET_DATE,
    NVS_KEY_ENC_TICKS_ADJ, NVS_KEY_HEADING, NVS_KEY_TRACKING_MODE,
};

verus! {

/// Probing starts exactly after a stall or an overshoot, and only where the encoder was
/// not given up; the first probe is due after one interval, counted in seconds.
pub proof fn only_a_stall_or_an_overshoot_starts_probing(
    s: EncoderFaultRecovery,
    outcome: OutcomeView,
    cfg: EncoderRecoverySwitches,
    now: u64,
)
    requires
        now + cfg.probe_interval_secs * 1_000_000_000 <= u64::MAX,
    ensures
        ({
            let after = s.after_move(outcome, cfg, now);
            let starts = (outcome is AbortedStall || outcome is AbortedOvershoot)
                && !s.mode_switched_daily;
            &&& starts ==> after.active && after.next_probe_at == Some(
                (now + cfg.probe_interval_secs * 1_000_000_000) as u64,
            )
            &&& !starts ==> after == s
            &&& after.probe_failure_count == s.probe_failure_count
            &&& after.mode_switched_daily == s.mode_switched_daily
        }),
{
}

/// A recovery pass probes exactly where a fault is on, recovery is switched on and the
/// probe is due; it holds tracking back exactly while the probe is not due yet.
pub proof fn a_recovery_pass_probes_when_it_is_due(
    s: EncoderFaultRecovery,
    cfg: EncoderRecoverySwitches,
    now: u64,
    r: TickStep,
)
    requires
        s.tick_leads(cfg, now, r),
    ensures
        ({
            let fault = s.active && !s.mode_switched_daily;
            let due = s.next_probe_at is None || now >= s.next_probe_at->0;
            &&& r is Probe <==> fault && cfg.enabled && due
            &&& r matches TickStep::Probe { steps } ==> steps == cfg.probe_steps
            &&& r matches TickStep::Finished(result) ==> {
                &&& result@.fault_still_active <==> fault && cfg.enabled && !due
                &&& !result@.should_rehome
                &&& result@.message is Some <==> fault && !cfg.enabled
                &&& result@.component is Some <==> fault && !cfg.enabled
            }
        }),
{
}

/// A probe that the encoder follows ends the fault; the third in a row that it does not
/// follow gives it up; any other is repeated after one interval.
pub proof fn the_third_failure_gives_the_encoder_up(
    before: RecoveryState,
    ok: bool,
    cfg: EncoderRecoverySwitches,
    now: u64,
    persist: bool,
    today: LocalDate,
    after: RecoveryState,
    r: ProbeStep,
    image: NvsImage,
)
    requires
        before.recovery.probe_failure_count < 3,
        now + cfg.probe_interval_secs * 1_000_000_000 <= u64::MAX,
        probe_leads(before, ok, cfg, now, persist, today, after, r),
    ensures
        r is Recovered <==> ok,
        r is GivenUp <==> !ok && before.recovery.probe_failure_count == 2,
        r is Waiting <==> !ok && before.recovery.probe_failure_count < 2,
        ok ==> !after.recovery.active && after.recovery.probe_failure_count == 0
            && after.recovery.next_probe_at is None,
        r is GivenUp ==> after.recovery.mode_switched_daily && !after.recovery.active
            && after.recovery.probe_failure_count == 0 && after.motor == before.motor.push(
            MotorCommand::SetMode(MotionMode::StepperOnly),
        ),
        r is Waiting ==> after.recovery.active == before.recovery.active
            && after.recovery.probe_failure_count == before.recovery.probe_failure_count + 1
            && after.recovery.next_probe_at == Some(
            (now + cfg.probe_interval_secs * 1_000_000_000) as u64,
        ),
        !(r is GivenUp) ==> after.motor == before.motor && after.writes == before.writes
            && after.recovery.mode_switched_daily == before.recovery.mode_switched_daily,
        !persist ==> after.writes == before.writes,
        r is GivenUp && persist ==> {
            let kept = image.replayed(after.writes);
            &&& kept.u8_at(NVS_KEY_TRACKING_MODE@) == Some(1u8)
            &&& kept.u8_at(NVS_KEY_ENCODER_DAILY_MODE@) == Some(1u8)
            &&& kept.str_at(NVS_KEY_ENCODER_MODE_RESET_DATE@) == Some(today.text())
        },
{
    replay_appended(image, before.writes, after.writes);
    keys_differ();
}

/// A tower adopts a heading in all three places: it believes it, tells the motor, and
/// stores it where it stores anything.
pub proof fn an_adopted_heading_is_adopted_everywhere(
    before: Bearings,
    heading: Single,
    mode: MotionMode,
    encoder_ticks: i32,
    persist: bool,
    image: NvsImage,
)
    ensures
        ({
            let after = adopted_bearings(before, heading, mode, encoder_ticks, persist);
            let kept = image.replayed(after.writes);
            &&& after.heading == heading
            &&& after.motor == before.motor.push(MotorCommand::UpdatePosition(heading))
            &&& !persist ==> after.writes == before.writes
            &&& persist ==> kept.u32_at(NVS_KEY_HEADING@) == Some(heading.bits)
            &&& persist && mode == MotionMode::EncoderGuarded ==> kept.i32_at(
                NVS_KEY_ENC_TICKS_ADJ@,
            ) == Some(encoder_ticks)
            &&& persist && mode == MotionMode::StepperOnly ==> kept.i32_at(
                NVS_KEY_ENC_TICKS_ADJ@,
            ) == image.replayed(before.writes).i32_at(NVS_KEY_ENC_TICKS_ADJ@)
        }),
{
    let after = adopted_bearings(before, heading, mode, encoder_ticks, persist);
    replay_appended(image, before.writes, after.writes);
    keys_differ();
}

/// The heading of a recovered encoder is adopted exactly where its drift is a number not
/// beyond the limit; else nothing changes and the tower homes the way it is configured to.
pub proof fn only_a_small_drift_is_adopted(
    cfg: EncoderRecoverySwitches,
    candidate: Single,
    drift: Single,
    before: Bearings,
    mode: MotionMode,
    encoder_ticks: i32,
    persist: bool,
    r: RecoveryStep,
)
    requires
        compared_leads(cfg, drift, r),
    ensures
        ({
            let close = drift.magnitude() <= 0x7F80_0000 && cfg.max_drift_deg.magnitude()
                <= 0x7F80_0000 && drift.rank() <= cfg.max_drift_deg.rank();
            let after = compared_bearings(
                before,
                drift.le_spec(cfg.max_drift_deg),
                candidate,
                mode,
                encoder_ticks,
                persist,
            );
            &&& r is Clear <==> close
            &&& !close ==> r == (RecoveryStep::Rehome { dir: cfg.rehome_dir })
            &&& close ==> after.heading == candidate
            &&& !close ==> after == before
        }),
{
}

/// A recovery goes on exactly where the search found home, and stops the tower else.
pub proof fn a_recovery_without_home_stops(found: bool, r: RecoveryStep)
    requires
        rehomed_leads(found, r),
    ensures
        r is Clear <==> found,
        r is Stop <==> !found,
        r matches RecoveryStep::Stop(fault) ==> fault.component == Component::LimitSwitch,
{
}

/// A tower that homes within a pass tracks exactly where no fault is on, stops exactly
/// where one is on and recovery is off, sleeps a minute and a half while the probe is not
/// due, and probes else.
pub proof fn a_faulted_tower_waits_for_its_probe(
    s: EncoderFaultRecovery,
    cfg: EncoderRecoverySwitches,
    now: u64,
    r: RecoveryStep,
)
    requires
        tick_asks(s, cfg, now, r),
    ensures
        ({
            let fault = s.active && !s.mode_switched_daily;
            let due = s.next_probe_at is None || now >= s.next_probe_at->0;
            &&& r is Clear <==> !fault
            &&& r is Stop <==> fault && !cfg.enabled
            &&& r is Sleep <==> fault && cfg.enabled && !due
            &&& r is Probe <==> fault && cfg.enabled && due
            &&& r matches RecoveryStep::Sleep { secs } ==> secs == 90
            &&& r matches RecoveryStep::Probe { steps } ==> steps == cfg.probe_steps
        }),
{
}

/// After a probe such a tower compares headings exactly where the encoder followed, goes
/// on by steps alone exactly after the third failure, and sleeps half a minute else.
pub proof fn a_probe_decides_how_a_tower_goes_on(
    before: RecoveryState,
    ok: bool,
    cfg: EncoderRecoverySwitches,
    now: u64,
    persist: bool,
    today: LocalDate,
    after: RecoveryState,
    r: RecoveryStep,
    image: NvsImage,
)
    requires
        before.recovery.probe_failure_count < 3,
        probed_leads(before, ok, cfg, now, persist, today, after, r),
    ensures
        r is Compare <==> ok,
        r is GivenUp <==> !ok && before.recovery.probe_failure_count == 2,
        r is Sleep <==> !ok && before.recovery.probe_failure_count < 2,
        r matches RecoveryStep::Sleep { secs } ==> secs == 30,
        r is GivenUp ==> after.recovery.mode_switched_daily && after.motor == before.motor.push(
            MotorCommand::SetMode(MotionMode::StepperOnly),
        ),
        !(r is GivenUp) ==> after.motor == before.motor && after.writes == before.writes,
        r is GivenUp && persist ==> image.replayed(after.writes).u8_at(NVS_KEY_TRACKING_MODE@)
            == Some(1u8),
        !persist ==> after.writes == before.writes,
{
    replay_appended(image, before.writes, after.writes);
    keys_differ();
}

/// A given-up encoder gets another chance exactly on another day than the stored one; a
/// missing day is filled in; nothing is written where nothing is stored.
pub proof fn another_day_is_another_chance(
    daily_mode: Option<u8>,
    stored: LocalDate,
    today: LocalDate,
    persist: bool,
    image: NvsImage,
)
    requires
        stored.wf(),
        today.wf(),
    ensures
        ({
            let given_up = daily_mode == Some(1u8);
            let due = reset_due(daily_mode, Some(stored.text()), today);
            let written = reset_writes(daily_mode, Some(stored.text()), today, persist);
            let first = reset_writes(daily_mode, None, today, persist);
            &&& due <==> given_up && stored != today
            &&& !reset_due(daily_mode, None, today)
            &&& written.len() > 0 <==> persist && due
            &&& first.len() > 0 <==> persist && given_up
            &&& persist && due ==> {
                let kept = image.replayed(written);
                &&& kept.u8_at(NVS_KEY_TRACKING_MODE@) == Some(2u8)
                &&& kept.u8_at(NVS_KEY_ENCODER_DAILY_MODE@) == Some(0u8)
                &&& kept.str_at(NVS_KEY_ENCODER_MODE_RESET_DATE@) == Some(today.text())
            }
            &&& persist && given_up ==> image.replayed(first).str_at(
                NVS_KEY_ENCODER_MODE_RESET_DATE@,
            ) == Some(today.text())
        }),
{
    if stored.text() == today.text() {
        stamps_tell_days_apart(stored, today);
    }
    let none = Seq::<NvsWriteView>::empty();
    replay_appended(
        image,
        none,
        reset_writes(daily_mode, Some(stored.text()), today, persist),
    );
    replay_appended(image, none, reset_writes(daily_mode, None, today, persist));
    keys_differ();
    reveal_strlit("enc_daily_mode");
    reveal_strlit("tracking_mode");
}

/// A tower recovers by itself unless it is told otherwise: half a minute between probes of
/// fifty thousand steps, five degrees of drift, homing counter-clockwise.
pub proof fn recovery_is_on_by_default()
    ensures
        default_recovery_switches().enabled,
        default_recovery_switches().probe_interval_secs == 30,
        default_recovery_switches().probe_steps == 50_000,
        default_recovery_switches().max_drift_deg.bits == 0x40A0_0000,
        default_recovery_switches().rehome_dir == Direction::Ccw,
{
}

/// A pass on a tower that publishes for itself believes and stores exactly a completed
/// move, and a pass that needed no move counts as completed.
pub proof fn only_a_completed_move_counts(
    report: DriverReport,
    persist: bool,
    before: PassResult,
    after: PassResult,
    r: OutcomeView,
    image: NvsImage,
)
    requires
        tick_leads(report, persist, before, after, r),
    ensures
        ({
            let completed = report.last_outcome matches Some(MoveOutcome::Completed);
            &&& after.heading == (if completed {
                report.location
            } else {
                before.heading
            })
            &&& completed && persist ==> image.replayed(after.writes).u32_at(NVS_KEY_HEADING@)
                == Some(report.location.bits)
            &&& !completed || !persist ==> after.writes == before.writes
            &&& r is Completed <==> completed || report.last_outcome is None
            &&& report.last_outcome matches Some(outcome) ==> r == outcome@
        }),
{
    replay_appended(image, before.writes, after.writes);
    keys_differ();
}

/// A machine in motion goes into maintenance exactly where the newest message is a button
/// that was pressed: towards the button's side, or to rest for the maintenance button; and
/// it comes back to where it was.
pub proof fn the_newest_button_counts(
    messages: Seq<Message>,
    newest: Message,
    return_to: MotionState,
    r: Option<StateResult>,
    none: Option<StateResult>,
)
    requires
        transition_leads(messages.push(newest), return_to, r),
        transition_leads(Seq::empty(), return_to, none),
    ensures
        r is Some <==> newest is CCWPressed || newest is CWPressed || newest is MaintenancePressed,
        none is None,
        r is Some ==> {
            &&& r->0 matches StateResult::Running(MotionState::Maintenance(m))
            &&& m.return_to == Some(Box::new(return_to))
            &&& m.action == MaintenanceAction::Idle <==> newest is MaintenancePressed
            &&& m.action == MaintenanceAction::Moving(Direction::Ccw) <==> newest is CCWPressed
            &&& m.action == MaintenanceAction::Moving(Direction::Cw) <==> newest is CWPressed
        },
{
}

/// A move is followed by the state before it, and by a fresh start where there was none.
pub proof fn a_move_is_followed_by_what_came_before(state: MotionState)
    ensures
        resumed(Some(state)) == state,
        resumed(None) is Init,
{
}

/// A stopped tower reports its own fault, as a fault, word for word.
pub proof fn a_stopped_tower_reports_its_fault(device_id: Seq<char>, fault: FaultView)
    ensures
        fault_log(device_id, fault).message == fault.message,
        fault_log(device_id, fault).notes == fault.notes,
        fault_log(device_id, fault).component == fault.component,
        fault_log(device_id, fault).severity == Severity::Fault,
        fault_log(device_id, fault).log_type == "error"@,
{
}

/// A clockwise turn has the sign of its degrees, a counter-clockwise one the other; both
/// have their size.
pub proof fn turns_differ_in_their_sign(deg: Single)
    ensures
        Direction::Cw.applied(deg) == deg,
        Direction::Ccw.applied(deg).rank() == -deg.rank(),
        Direction::Ccw.applied(deg).magnitude() == deg.magnitude(),
{
}

} // verus!
