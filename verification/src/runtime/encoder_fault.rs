//! Encoder fault recovery on a tower that homes within a recovery pass.
//!
//! Times are nanoseconds of a monotonic clock.

use vstd::prelude::*;

use crate::calendar::LocalDate;
use crate::ieee::Single;
use crate::logic::encoder_fault::{
    after_comparison, compared_bearings, given_up_notes, given_up_writes, persist_position,
    Bearings, EncoderFaultRecovery, EncoderRecoverySwitches, ProbeStep, RecoveryState, TickStep,
    MAX_PROBE_FAILURES,
};
use crate::logic::fsm::motion::context::MotorCommand;
use crate::logic::types::{Component, Direction, FaultReport, FaultView, MotionMode};
use crate::storage::snapshot_store::{writes, NvsWrite};

verus! {

/// How long a faulted tower sleeps while no probe is due, and after a failed one.
pub const WAITING_SLEEP_SECS: u64 = 90;
pub const FAILED_PROBE_SLEEP_SECS: u64 = 30;

pub open spec fn disabled_fault() -> FaultView {
    FaultView {
        component: Component::System,
        message: "Encoder fault recovery disabled in switchboard"@,
        notes: "Switchboard disables encoder fault recovery; device cannot proceed when encoder has faulted."@,
    }
}

pub open spec fn drift_fault() -> FaultView {
    FaultView {
        component: Component::LimitSwitch,
        message: "Re-home failed after drift correction"@,
        notes: "Heading drift exceeded tolerance and the re-home sweep could not locate the limit switch."@,
    }
}

pub open spec fn probes_exhausted() -> FaultView {
    FaultView {
        component: Component::Encoder,
        message: "Encoder probes exhausted, switched to Stepper-only"@,
        notes: given_up_notes(MAX_PROBE_FAILURES),
    }
}

/// What a recovery pass asks for next.
#[derive(Debug)]
pub enum RecoveryStep {
    /// No fault: track.
    Clear,
    /// Stop with this fault.
    Stop(FaultReport),
    /// Keep house, sleep this long, and begin the pass over.
    Sleep { secs: u64 },
    /// Probe the encoder.
    Probe { steps: i64 },
    /// The encoder was given up: publish this, then track by steps alone.
    GivenUp(FaultReport),
    /// Compare the encoder's heading with the one believed.
    Compare,
    /// Search for the limit switch.
    Rehome { dir: Direction },
}

/// What a pass that begins at `now` asks for.
pub open spec fn tick_asks(
    s: EncoderFaultRecovery,
    cfg: EncoderRecoverySwitches,
    now: u64,
    r: RecoveryStep,
) -> bool {
    if !s.engaged() {
        r is Clear
    } else if !cfg.enabled {
        r matches RecoveryStep::Stop(fault) && fault@ == disabled_fault()
    } else if !s.probe_due(now) {
        r == (RecoveryStep::Sleep { secs: WAITING_SLEEP_SECS })
    } else {
        r == (RecoveryStep::Probe { steps: cfg.probe_steps })
    }
}

/// Begin a recovery pass.
pub fn tick(recovery: &EncoderFaultRecovery, cfg: &EncoderRecoverySwitches, now: u64) -> (r:
    RecoveryStep)
    ensures
        tick_asks(*recovery, *cfg, now, r),
{
    match recovery.tick(cfg, now) {
        TickStep::Probe { steps } => RecoveryStep::Probe { steps },
        TickStep::Finished(result) => {
            if result.fault_still_active {
                return RecoveryStep::Sleep { secs: WAITING_SLEEP_SECS };
            }
            match (result.telemetry_component, result.telemetry_message, result.telemetry_notes) {
                (Some(component), Some(message), Some(notes)) => RecoveryStep::Stop(
                    FaultReport { component, message, notes },
                ),
                _ => RecoveryStep::Clear,
            }
        },
    }
}

/// What a probe that was started at `now` leads to.
pub open spec fn probed_leads(
    before: RecoveryState,
    ok: bool,
    cfg: EncoderRecoverySwitches,
    now: u64,
    persist: bool,
    today: LocalDate,
    after: RecoveryState,
    r: RecoveryStep,
) -> bool {
    let given_up = !ok && before.recovery.is_last_probe();
    &&& if ok {
        r is Compare
    } else if given_up {
        r matches RecoveryStep::GivenUp(fault) && fault@ == probes_exhausted()
    } else {
        r == (RecoveryStep::Sleep { secs: FAILED_PROBE_SLEEP_SECS })
    }
    &&& after.recovery == before.recovery.after_probe_at(ok, cfg, now)
    &&& after.motor == (if given_up {
        before.motor.push(MotorCommand::SetMode(MotionMode::StepperOnly))
    } else {
        before.motor
    })
    &&& after.writes == (if given_up {
        before.writes + given_up_writes(persist, today)
    } else {
        before.writes
    })
}

/// Go on after a probe that was started at `now`.
pub fn probed(
    recovery: &mut EncoderFaultRecovery,
    ok: bool,
    cfg: &EncoderRecoverySwitches,
    now: u64,
    persist: bool,
    today: &LocalDate,
    motor: &mut Vec<MotorCommand>,
    journal: &mut Vec<NvsWrite>,
) -> (r: RecoveryStep)
    requires
        old(recovery).wf(),
        old(recovery).next_probe_fits(ok, *cfg, now),
        today.wf(),
    ensures
        final(recovery).wf(),
        probed_leads(
            (RecoveryState {
                recovery: *old(recovery),
                motor: old(motor)@,
                writes: writes(old(journal)@),
            }),
            ok,
            *cfg,
            now,
            persist,
            *today,
            (RecoveryState {
                recovery: *final(recovery),
                motor: final(motor)@,
                writes: writes(final(journal)@),
            }),
            r,
        ),
{
    match recovery.after_probe(ok, cfg, now, persist, today, motor, journal) {
        ProbeStep::Recovered => RecoveryStep::Compare,
        ProbeStep::Waiting(_) => RecoveryStep::Sleep { secs: FAILED_PROBE_SLEEP_SECS },
        ProbeStep::GivenUp { result: _, notes } => RecoveryStep::GivenUp(
            FaultReport {
                component: Component::Encoder,
                message: "Encoder probes exhausted, switched to Stepper-only".to_owned(),
                notes,
            },
        ),
    }
}

/// What a comparison of headings leads to.
pub open spec fn compared_leads(
    cfg: EncoderRecoverySwitches,
    drift: Single,
    r: RecoveryStep,
) -> bool {
    if drift.le_spec(cfg.max_drift_deg) {
        r is Clear
    } else {
        r == (RecoveryStep::Rehome { dir: cfg.rehome_dir })
    }
}

/// Go on after the comparison of headings: adopt a heading that has not drifted far,
/// else search for home.
pub fn compared(
    cfg: &EncoderRecoverySwitches,
    candidate_heading: Single,
    drift: Single,
    mode: MotionMode,
    encoder_ticks: i32,
    persist: bool,
    actual_heading: &mut Single,
    motor: &mut Vec<MotorCommand>,
    journal: &mut Vec<NvsWrite>,
) -> (r: RecoveryStep)
    ensures
        compared_leads(*cfg, drift, r),
        (Bearings {
            heading: *final(actual_heading),
            motor: final(motor)@,
            writes: writes(final(journal)@),
        }) == compared_bearings(
            (Bearings {
                heading: *old(actual_heading),
                motor: old(motor)@,
                writes: writes(old(journal)@),
            }),
            drift.le_spec(cfg.max_drift_deg),
            candidate_heading,
            mode,
            encoder_ticks,
            persist,
        ),
{
    let result = after_comparison(
        cfg,
        candidate_heading,
        drift,
        mode,
        encoder_ticks,
        persist,
        actual_heading,
        motor,
        journal,
    );
    if result.should_rehome {
        RecoveryStep::Rehome { dir: cfg.rehome_dir }
    } else {
        RecoveryStep::Clear
    }
}

/// What the search for home leads to.
pub open spec fn rehomed_leads(found: bool, r: RecoveryStep) -> bool {
    if found {
        r is Clear
    } else {
        r matches RecoveryStep::Stop(fault) && fault@ == drift_fault()
    }
}

/// Finish after the search: a tower that found home believes and persists it, one
/// that did not is stopped.
pub fn rehomed(
    found: bool,
    home_heading: Single,
    mode: MotionMode,
    encoder_ticks: i32,
    persist: bool,
    actual_heading: &mut Single,
    motor: &mut Vec<MotorCommand>,
    journal: &mut Vec<NvsWrite>,
) -> (r: RecoveryStep)
    ensures
        rehomed_leads(found, r),
        (Bearings {
            heading: *final(actual_heading),
            motor: final(motor)@,
            writes: writes(final(journal)@),
        }) == compared_bearings(
            (Bearings {
                heading: *old(actual_heading),
                motor: old(motor)@,
                writes: writes(old(journal)@),
            }),
            found,
            home_heading,
            mode,
            encoder_ticks,
            persist,
        ),
{
    if !found {
        return RecoveryStep::Stop(
            FaultReport::new(
                Component::LimitSwitch,
                "Re-home failed after drift correction",
                "Heading drift exceeded tolerance and the re-home sweep could not locate the limit switch.",
            ),
        );
    }
    *actual_heading = home_heading;
    motor.push(MotorCommand::UpdatePosition(home_heading));
    persist_position(persist, home_heading, mode, encoder_ticks, journal);
    RecoveryStep::Clear
}

} // verus!
