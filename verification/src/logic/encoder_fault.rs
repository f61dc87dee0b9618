//! Recovery from encoder faults.
//!
//! A stalled or overshooting move starts probing. While probes are due the tower
//! does not track. A probe that succeeds resumes tracking, either with the heading
//! the encoder gives or, where that has drifted too far, after homing again. When
//! [`MAX_PROBE_FAILURES`] probes fail in a row, the encoder is given up for the day.
//!
//! Times are nanoseconds of a monotonic clock.

use vstd::prelude::*;

use crate::calendar::LocalDate;
use crate::ieee::Single;
use crate::logic::fsm::motion::context::MotorCommand;
use crate::logic::types::{Component, Direction, MotionMode, MoveOutcome, OutcomeView};
use crate::storage::snapshot_store::{
    saved_daily_mode, saved_heading, saved_mode, saved_reset_date, saved_snapshot, writes,
    NvsWrite, NvsWriteView, SnapshotStore,
};
use crate::text::opt_text;

verus! {

pub const MAX_PROBE_FAILURES: u8 = 3;

pub const NANOS_PER_SEC: u64 = 1_000_000_000;

/// Runtime switches for encoder fault recovery.
#[derive(Debug, Clone, Copy)]
pub struct EncoderRecoverySwitches {
    pub enabled: bool,
    pub probe_interval_secs: u64,
    pub probe_steps: i64,
    pub max_drift_deg: Single,
    pub rehome_dir: Direction,
}

impl EncoderRecoverySwitches {
    /// The instant one probe interval after `now`.
    pub open spec fn interval_after(self, now: u64) -> int {
        now + self.probe_interval_secs * NANOS_PER_SEC
    }

    /// The clock reaches the end of an interval that starts at `now`.
    pub open spec fn interval_fits(self, now: u64) -> bool {
        self.interval_after(now) <= u64::MAX
    }

    fn after_interval(&self, now: u64) -> (r: u64)
        requires
            self.interval_fits(now),
        ensures
            r == self.interval_after(now),
    {
        assert(self.probe_interval_secs * NANOS_PER_SEC <= u64::MAX);
        now + self.probe_interval_secs * NANOS_PER_SEC
    }
}

impl Default for EncoderRecoverySwitches {
    /// Thirty seconds between probes of 50,000 steps, five degrees of drift, homing
    /// counter-clockwise.
    fn default() -> (r: Self)
        ensures
            r == default_recovery_switches(),
    {
        EncoderRecoverySwitches {
            enabled: true,
            probe_interval_secs: 30,
            probe_steps: 50_000,
            max_drift_deg: Single { bits: 0x40A0_0000 },
            rehome_dir: Direction::Ccw,
        }
    }
}

pub open spec fn default_recovery_switches() -> EncoderRecoverySwitches {
    EncoderRecoverySwitches {
        enabled: true,
        probe_interval_secs: 30,
        probe_steps: 50_000,
        max_drift_deg: Single { bits: 0x40A0_0000 },
        rehome_dir: Direction::Ccw,
    }
}

/// Where the recovery stands.
#[derive(Debug, Clone, Copy)]
pub struct EncoderFaultRecovery {
    pub active: bool,
    pub next_probe_at: Option<u64>,
    /// Probes that failed in a row.
    pub probe_failure_count: u8,
    /// The encoder was given up for the day.
    pub mode_switched_daily: bool,
}

/// What a recovery pass found.
#[derive(Debug)]
pub struct EncoderFaultRecoveryTickRes {
    /// The fault persists: skip tracking in this pass.
    pub fault_still_active: bool,
    /// The heading cannot be trusted: home before tracking.
    pub should_rehome: bool,
    pub telemetry_component: Option<Component>,
    pub telemetry_message: Option<String>,
    pub telemetry_notes: Option<String>,
}

#[verifier::ext_equal]
pub struct TickView {
    pub fault_still_active: bool,
    pub should_rehome: bool,
    pub component: Option<Component>,
    pub message: Option<Seq<char>>,
    pub notes: Option<Seq<char>>,
}

impl View for EncoderFaultRecoveryTickRes {
    type V = TickView;

    open spec fn view(&self) -> TickView {
        TickView {
            fault_still_active: self.fault_still_active,
            should_rehome: self.should_rehome,
            component: self.telemetry_component,
            message: opt_text(self.telemetry_message),
            notes: opt_text(self.telemetry_notes),
        }
    }
}

/// A pass without anything to report.
pub open spec fn quiet_tick(fault_still_active: bool, should_rehome: bool) -> TickView {
    TickView { fault_still_active, should_rehome, component: None, message: None, notes: None }
}

/// The pass of a tower whose recovery is switched off.
pub open spec fn disabled_tick() -> TickView {
    TickView {
        fault_still_active: false,
        should_rehome: false,
        component: Some(Component::System),
        message: Some("Encoder fault recovery disabled in switchboard"@),
        notes: Some(
            "Switchboard disables encoder fault recovery; device cannot proceed when encoder has faulted."@,
        ),
    }
}

impl EncoderFaultRecoveryTickRes {
    fn quiet(fault_still_active: bool, should_rehome: bool) -> (r: Self)
        ensures
            r@ == quiet_tick(fault_still_active, should_rehome),
    {
        EncoderFaultRecoveryTickRes {
            fault_still_active,
            should_rehome,
            telemetry_component: None,
            telemetry_message: None,
            telemetry_notes: None,
        }
    }
}

/// What a recovery pass asks for next.
#[derive(Debug)]
pub enum TickStep {
    Finished(EncoderFaultRecoveryTickRes),
    /// Move this many steps and watch whether the encoder follows.
    Probe { steps: i64 },
}

/// What a probe led to.
#[derive(Debug)]
pub enum ProbeStep {
    /// Keep waiting for the next probe.
    Waiting(EncoderFaultRecoveryTickRes),
    /// The encoder was given up, and the tower drives by steps alone from now on:
    /// report what is in `notes`.
    GivenUp { result: EncoderFaultRecoveryTickRes, notes: String },
    /// The encoder follows again: compare the heading it gives with the one
    /// believed so far.
    Recovered,
}

/// The text that reports a given-up encoder.
pub open spec fn given_up_notes(failures: u8) -> Seq<char> {
    "Probe failures reached the daily threshold ("@ + crate::text::decimal_text(failures as nat)
        + "); device will retry encoder recovery at midnight."@
}

/// The writes that give the encoder up until the day after `today`.
pub open spec fn given_up_writes(persist: bool, today: LocalDate) -> Seq<NvsWriteView> {
    if persist {
        seq![
            saved_mode(MotionMode::StepperOnly),
            saved_reset_date(today.text()),
            saved_daily_mode(true),
        ]
    } else {
        Seq::empty()
    }
}

/// The writes that persist a position.
pub open spec fn position_writes(
    persist: bool,
    heading: Single,
    mode: MotionMode,
    ticks: i32,
) -> Seq<NvsWriteView> {
    if !persist {
        Seq::empty()
    } else if mode == MotionMode::EncoderGuarded {
        seq![saved_heading(heading)] + saved_snapshot(ticks)
    } else {
        seq![saved_heading(heading)]
    }
}

/// Persist a heading and, while the encoder guards the moves, the encoder position.
pub fn persist_position(
    persist: bool,
    heading: Single,
    mode: MotionMode,
    ticks: i32,
    journal: &mut Vec<NvsWrite>,
)
    ensures
        writes(final(journal)@) == writes(old(journal)@) + position_writes(
            persist,
            heading,
            mode,
            ticks,
        ),
{
    let store = SnapshotStore::new(persist);
    store.save_heading(heading, journal);
    if mode == MotionMode::EncoderGuarded {
        store.save_encoder_snapshot(ticks, journal);
    }
    assert(writes(journal@) =~= writes(old(journal)@) + position_writes(
        persist,
        heading,
        mode,
        ticks,
    ));
}

impl EncoderFaultRecovery {
    /// Fewer probes failed in a row than give the encoder up.
    pub open spec fn wf(self) -> bool {
        self.probe_failure_count < MAX_PROBE_FAILURES
    }

    pub fn new() -> (r: Self)
        ensures
            r == (EncoderFaultRecovery {
                active: false,
                next_probe_at: None,
                probe_failure_count: 0,
                mode_switched_daily: false,
            }),
            r.wf(),
    {
        EncoderFaultRecovery {
            active: false,
            next_probe_at: None,
            probe_failure_count: 0,
            mode_switched_daily: false,
        }
    }

    pub fn mode_switched_daily(&self) -> (r: bool)
        ensures
            r == self.mode_switched_daily,
    {
        self.mode_switched_daily
    }

    pub fn set_mode_switched_daily(&mut self, value: bool)
        ensures
            *final(self) == (EncoderFaultRecovery { mode_switched_daily: value, ..*old(self) }),
    {
        self.mode_switched_daily = value;
    }

    /// Whether a move that ended so starts probing: a stall or an overshoot does,
    /// unless the encoder was given up.
    pub open spec fn starts_with(self, outcome: OutcomeView) -> bool {
        !self.mode_switched_daily && (outcome is AbortedStall || outcome is AbortedOvershoot)
    }

    /// The state after a move that ended at `now`: where it starts probing, the first
    /// probe is due one interval later.
    pub open spec fn after_move(
        self,
        outcome: OutcomeView,
        cfg: EncoderRecoverySwitches,
        now: u64,
    ) -> EncoderFaultRecovery {
        if self.starts_with(outcome) {
            EncoderFaultRecovery {
                active: true,
                next_probe_at: Some(cfg.interval_after(now) as u64),
                ..self
            }
        } else {
            self
        }
    }

    /// Take note of how a move ended.
    pub fn on_move_outcome(
        &mut self,
        outcome: &MoveOutcome,
        cfg: &EncoderRecoverySwitches,
        now: u64,
    )
        requires
            old(self).starts_with(outcome@) ==> cfg.interval_fits(now),
        ensures
            *final(self) == old(self).after_move(outcome@, *cfg, now),
            old(self).wf() ==> final(self).wf(),
    {
        if self.mode_switched_daily {
            return;
        }
        if matches!(outcome, MoveOutcome::AbortedStall)
            || matches!(outcome, MoveOutcome::AbortedOvershoot) {
            self.active = true;
            self.next_probe_at = Some(cfg.after_interval(now));
        }
    }

    /// Whether a probe is due at `now`.
    pub open spec fn probe_due(self, now: u64) -> bool {
        match self.next_probe_at {
            Some(t) => now >= t,
            None => true,
        }
    }

    /// Whether recovery has anything to do.
    pub open spec fn engaged(self) -> bool {
        self.active && !self.mode_switched_daily
    }

    /// What a recovery pass that begins at `now` asks for.
    pub open spec fn tick_leads(
        self,
        cfg: EncoderRecoverySwitches,
        now: u64,
        r: TickStep,
    ) -> bool {
        match r {
            TickStep::Probe { steps } => self.engaged() && cfg.enabled && self.probe_due(now)
                && steps == cfg.probe_steps,
            TickStep::Finished(result) => if !self.engaged() {
                result@ == quiet_tick(false, false)
            } else if !cfg.enabled {
                result@ == disabled_tick()
            } else {
                !self.probe_due(now) && result@ == quiet_tick(true, false)
            },
        }
    }

    /// Begin a recovery pass at `now`.
    pub fn tick(&self, cfg: &EncoderRecoverySwitches, now: u64) -> (r: TickStep)
        ensures
            self.tick_leads(*cfg, now, r),
    {
        if self.mode_switched_daily || !self.active {
            return TickStep::Finished(EncoderFaultRecoveryTickRes::quiet(false, false));
        }
        if !cfg.enabled {
            return TickStep::Finished(
                EncoderFaultRecoveryTickRes {
                    fault_still_active: false,
                    should_rehome: false,
                    telemetry_component: Some(Component::System),
                    telemetry_message: Some(
                        "Encoder fault recovery disabled in switchboard".to_owned(),
                    ),
                    telemetry_notes: Some(
                        "Switchboard disables encoder fault recovery; device cannot proceed when encoder has faulted.".to_owned(),
                    ),
                },
            );
        }
        let due = match self.next_probe_at {
            Some(t) => now >= t,
            None => true,
        };
        if !due {
            return TickStep::Finished(EncoderFaultRecoveryTickRes::quiet(true, false));
        }
        TickStep::Probe { steps: cfg.probe_steps }
    }

    /// The state after a probe that was started at `now`.
    pub open spec fn after_probe_at(
        self,
        ok: bool,
        cfg: EncoderRecoverySwitches,
        now: u64,
    ) -> EncoderFaultRecovery {
        if ok {
            EncoderFaultRecovery {
                active: false,
                next_probe_at: None,
                probe_failure_count: 0,
                ..self
            }
        } else if self.is_last_probe() {
            EncoderFaultRecovery {
                active: false,
                probe_failure_count: 0,
                mode_switched_daily: true,
                ..self
            }
        } else {
            EncoderFaultRecovery {
                probe_failure_count: (self.probe_failure_count + 1) as u8,
                next_probe_at: Some(cfg.interval_after(now) as u64),
                ..self
            }
        }
    }

    /// A probe that fails now is the last before the encoder is given up.
    pub open spec fn is_last_probe(self) -> bool {
        self.probe_failure_count + 1 >= MAX_PROBE_FAILURES
    }

    /// Where a further probe is planned, the clock reaches it.
    pub open spec fn next_probe_fits(
        self,
        ok: bool,
        cfg: EncoderRecoverySwitches,
        now: u64,
    ) -> bool {
        !ok && !self.is_last_probe() ==> cfg.interval_fits(now)
    }

    /// Take the result of a probe that was started at `now`.
    pub fn after_probe(
        &mut self,
        ok: bool,
        cfg: &EncoderRecoverySwitches,
        now: u64,
        persist: bool,
        today: &LocalDate,
        motor: &mut Vec<MotorCommand>,
        journal: &mut Vec<NvsWrite>,
    ) -> (r: ProbeStep)
        requires
            old(self).wf(),
            old(self).next_probe_fits(ok, *cfg, now),
            today.wf(),
        ensures
            final(self).wf(),
            probe_leads(
                (RecoveryState {
                    recovery: *old(self),
                    motor: old(motor)@,
                    writes: writes(old(journal)@),
                }),
                ok,
                *cfg,
                now,
                persist,
                *today,
                (RecoveryState {
                    recovery: *final(self),
                    motor: final(motor)@,
                    writes: writes(final(journal)@),
                }),
                r,
            ),
    {
        if ok {
            self.active = false;
            self.next_probe_at = None;
            self.probe_failure_count = 0;
            return ProbeStep::Recovered;
        }
        self.probe_failure_count = self.probe_failure_count + 1;
        if self.probe_failure_count >= MAX_PROBE_FAILURES {
            let notes = self.switch_to_stepper_only_daily(persist, today, motor, journal);
            return ProbeStep::GivenUp {
                result: EncoderFaultRecoveryTickRes::quiet(false, false),
                notes,
            };
        }
        self.next_probe_at = Some(cfg.after_interval(now));
        ProbeStep::Waiting(EncoderFaultRecoveryTickRes::quiet(true, false))
    }

    /// Give the encoder up for the rest of the day.
    fn switch_to_stepper_only_daily(
        &mut self,
        persist: bool,
        today: &LocalDate,
        motor: &mut Vec<MotorCommand>,
        journal: &mut Vec<NvsWrite>,
    ) -> (notes: String)
        requires
            today.wf(),
        ensures
            *final(self) == (EncoderFaultRecovery {
                active: false,
                probe_failure_count: 0,
                mode_switched_daily: true,
                ..*old(self)
            }),
            notes@ == given_up_notes(old(self).probe_failure_count),
            final(motor)@ == old(motor)@.push(MotorCommand::SetMode(MotionMode::StepperOnly)),
            writes(final(journal)@) == writes(old(journal)@) + given_up_writes(persist, *today),
    {
        motor.push(MotorCommand::SetMode(MotionMode::StepperOnly));
        let date = today.stamp();
        let store = SnapshotStore::new(persist);
        store.save_tracking_mode(MotionMode::StepperOnly, journal);
        store.save_encoder_mode_reset_date(date.as_str(), journal);
        store.save_encoder_daily_mode(true, journal);
        assert(writes(journal@) =~= writes(old(journal)@) + given_up_writes(persist, *today));
        let count = crate::text::decimal(self.probe_failure_count as u64);
        let notes = crate::text::concat3(
            "Probe failures reached the daily threshold (",
            count.as_str(),
            "); device will retry encoder recovery at midnight.",
        );
        self.mode_switched_daily = true;
        self.active = false;
        self.probe_failure_count = 0;
        notes
    }
}

/// The recovery, and what it asked of the motor and of flash so far.
#[verifier::ext_equal]
pub struct RecoveryState {
    pub recovery: EncoderFaultRecovery,
    pub motor: Seq<MotorCommand>,
    pub writes: Seq<NvsWriteView>,
}

/// What a probe that was started at `now` leads to. The last failure in a row drives
/// the tower by steps alone and stores that for the day; nothing else is asked for.
pub open spec fn probe_leads(
    before: RecoveryState,
    ok: bool,
    cfg: EncoderRecoverySwitches,
    now: u64,
    persist: bool,
    today: LocalDate,
    after: RecoveryState,
    r: ProbeStep,
) -> bool {
    let given_up = !ok && before.recovery.is_last_probe();
    &&& after == (RecoveryState {
        recovery: before.recovery.after_probe_at(ok, cfg, now),
        motor: if given_up {
            before.motor.push(MotorCommand::SetMode(MotionMode::StepperOnly))
        } else {
            before.motor
        },
        writes: if given_up {
            before.writes + given_up_writes(persist, today)
        } else {
            before.writes
        },
    })
    &&& match r {
        ProbeStep::Recovered => ok,
        ProbeStep::GivenUp { result, notes } => given_up && result@ == quiet_tick(false, false)
            && notes@ == given_up_notes(MAX_PROBE_FAILURES),
        ProbeStep::Waiting(result) => !ok && !given_up && result@ == quiet_tick(true, false),
    }
}

/// Where a tower believes to be, and what it asked of the motor and of flash so far.
#[verifier::ext_equal]
pub struct Bearings {
    pub heading: Single,
    pub motor: Seq<MotorCommand>,
    pub writes: Seq<NvsWriteView>,
}

/// The bearings of a tower that believes, tells the motor and stores another heading.
pub open spec fn adopted_bearings(
    before: Bearings,
    heading: Single,
    mode: MotionMode,
    encoder_ticks: i32,
    persist: bool,
) -> Bearings {
    Bearings {
        heading,
        motor: before.motor.push(MotorCommand::UpdatePosition(heading)),
        writes: before.writes + position_writes(persist, heading, mode, encoder_ticks),
    }
}

/// The bearings after the comparison of headings.
pub open spec fn compared_bearings(
    before: Bearings,
    close: bool,
    candidate: Single,
    mode: MotionMode,
    encoder_ticks: i32,
    persist: bool,
) -> Bearings {
    if close {
        adopted_bearings(before, candidate, mode, encoder_ticks, persist)
    } else {
        before
    }
}

/// Decide on the heading that a recovered encoder gives.
///
/// A drift of at most `max_drift_deg` adopts and persists it; a larger one, or one
/// that is not a number, asks for homing and leaves the heading alone.
pub fn after_comparison(
    cfg: &EncoderRecoverySwitches,
    candidate_heading: Single,
    drift: Single,
    mode: MotionMode,
    encoder_ticks: i32,
    persist: bool,
    actual_heading: &mut Single,
    motor: &mut Vec<MotorCommand>,
    journal: &mut Vec<NvsWrite>,
) -> (r: EncoderFaultRecoveryTickRes)
    ensures
        r@ == quiet_tick(false, !drift.le_spec(cfg.max_drift_deg)),
        (Bearings {
            heading: *final(actual_heading),
            motor: final(motor)@,
            writes: writes(final(journal)@),
        }) == compared_bearings(
            (Bearings {
                heading: *old(actual_heading),
                motor: old(motor)@,
                writes: writes(old(journal)@),
            }),
            drift.le_spec(cfg.max_drift_deg),
            candidate_heading,
            mode,
            encoder_ticks,
            persist,
        ),
{
    if drift.le(cfg.max_drift_deg) {
        *actual_heading = candidate_heading;
        motor.push(MotorCommand::UpdatePosition(candidate_heading));
        persist_position(persist, candidate_heading, mode, encoder_ticks, journal);
        return EncoderFaultRecoveryTickRes::quiet(false, false);
    }
    EncoderFaultRecoveryTickRes::quiet(false, true)
}

} // verus!
