//! A tower that runs in one loop: it homes at boot and then makes one pass after
//! another, each with its housekeeping.

use vstd::prelude::*;

use crate::calendar::LocalDate;
use crate::ieee::Single;
use crate::logic::daily_reset::{reset_due, reset_writes};
use crate::logic::encoder_fault::{given_up_writes, persist_position, position_writes};
use crate::logic::fsm::motion::context::{Effects, EffectsView, MotionContext, MotorCommand};
use crate::logic::fsm::motion::homing::{
    claims_home, homing_wanted, near_home, untrusted_fault,
};
use crate::logic::fsm::motion::init::StoredBearings;
use crate::logic::fsm::motion::position::outcome_view;
use crate::logic::fsm::motion::sweep::{
    detect_stepper_transition, mode_commands, mode_synced, rehome_fault, rehome_if_pending,
    rehome_pending, reset_context, sync_motion_mode_from_nvs, transition_seen,
};
use crate::logic::fsm::motion::tracking::{
    asked_mode, daily_reset, mode_writes, DriverReport,
};
use crate::logic::types::{Component, Direction, FaultReport, FaultView, MotionMode, OutcomeView};
use crate::runtime::encoder_fault::{
    compared, disabled_fault, drift_fault, probed, probes_exhausted, rehomed, tick, RecoveryStep,
    FAILED_PROBE_SLEEP_SECS, WAITING_SLEEP_SECS,
};
use crate::runtime::tracking_loop;
use crate::storage::snapshot_store::{
    flag_loaded, saved_heading, saved_last_run_normal, writes, NvsWrite, NvsWriteView,
    SnapshotStore,
};
use crate::text::opt_text;

verus! {

/// Which way the loop searches for the limit switch.
pub open spec fn homing_direction() -> Direction {
    Direction::Ccw
}

/// How long the tower rests after homing at boot, after homing in a pass, and
/// between passes, in seconds.
pub const BOOT_HOMING_REST_SECS: u64 = 5;
pub const REHOME_REST_SECS: u64 = 2;
pub const LOOP_SLEEP_SECS: u64 = 300;

/// What restoring the tower leads to.
pub open spec fn restore_leads(
    before: MotionContext,
    stored: StoredBearings,
    encoder_raw: i32,
    daily_mode: Option<u8>,
    begun: EffectsView,
    after: MotionContext,
    done: EffectsView,
) -> bool {
    let trusted = before.trust_nvs_state;
    let home = before.switchboard.home_heading_deg;
    let heading = stored.believed(trusted, home);
    let restored = stored.snapshot(trusted);
    &&& after.switchboard == before.switchboard
    &&& after.trust_nvs_state == trusted
    &&& after.motion_mode == stored.mode()
    &&& after.previous_motion_mode == stored.mode()
    &&& after.actual_heading == heading
    &&& after.restored_from_snapshot == restored is Some
    &&& !after.need_rehome
    &&& after.encoder_fault.mode_switched_daily == flag_loaded(daily_mode, false)
    &&& !after.encoder_fault.active
    &&& after.encoder_fault.probe_failure_count == 0
    &&& after.encoder_fault.next_probe_at is None
    &&& done == begun.wrote(stored.init_writes(trusted, home)).motored(
        seq![MotorCommand::SetMode(stored.mode()), MotorCommand::PowerOn] + (
        match restored {
            Some(ticks) => seq![
                MotorCommand::SetEncoderZeroOffset((encoder_raw - ticks) as i32),
            ],
            None => Seq::empty(),
        }) + seq![MotorCommand::UpdatePosition(heading)],
    )
}

/// Restore mode, heading, encoder position and the recovery's daily verdict.
pub fn restore(
    ctx: &mut MotionContext,
    stored: &StoredBearings,
    encoder_raw: i32,
    daily_mode: Option<u8>,
    fx: &mut Effects,
)
    requires
        stored.snapshot(old(ctx).trust_nvs_state) matches Some(ticks) ==> i32::MIN <= encoder_raw
            - ticks <= i32::MAX,
    ensures
        restore_leads(
            *old(ctx),
            *stored,
            encoder_raw,
            daily_mode,
            old(fx)@,
            *final(ctx),
            final(fx)@,
        ),
{
    let store = SnapshotStore::new(true);
    let mode = store.load_tracking_mode_or_init(
        stored.tracking_mode,
        MotionMode::EncoderGuarded,
        &mut fx.journal,
    );
    ctx.motion_mode = mode;
    ctx.previous_motion_mode = mode;
    fx.motor(MotorCommand::SetMode(mode));
    fx.motor(MotorCommand::PowerOn);
    ctx.actual_heading = if ctx.trust_nvs_state {
        store.load_heading_or_init(
            stored.heading,
            ctx.switchboard.home_heading_deg,
            &mut fx.journal,
        )
    } else {
        ctx.switchboard.home_heading_deg
    };
    let restored = stored.to_restore(ctx.trust_nvs_state);
    ctx.restored_from_snapshot = restored.is_some();
    match restored {
        Some(ticks) => {
            fx.motor(MotorCommand::SetEncoderZeroOffset(encoder_raw - ticks));
        },
        None => {},
    }
    fx.motor(MotorCommand::UpdatePosition(ctx.actual_heading));
    ctx.need_rehome = false;
    ctx.encoder_fault = crate::logic::encoder_fault::EncoderFaultRecovery::new();
    ctx.encoder_fault.set_mode_switched_daily(store.load_encoder_daily_mode(daily_mode));
    proof {
        let trusted = old(ctx).trust_nvs_state;
        let home = old(ctx).switchboard.home_heading_deg;
        let commands = seq![MotorCommand::SetMode(stored.mode()), MotorCommand::PowerOn] + (
        match restored {
            Some(ticks) => seq![MotorCommand::SetEncoderZeroOffset((encoder_raw - ticks) as i32)],
            None => Seq::empty(),
        }) + seq![MotorCommand::UpdatePosition(stored.believed(trusted, home))];
        assert(fx@.motor =~= old(fx)@.motor + commands);
        assert(fx@.writes =~= old(fx)@.writes + stored.init_writes(trusted, home));
    }
}

/// What homing at boot does.
#[derive(Debug)]
pub enum BootHoming {
    Sweep { dir: Direction },
    Stop(FaultReport),
    Skip,
}

/// What deciding on homing at boot leads to.
pub open spec fn boot_homing_leads(
    ctx: MotionContext,
    home_distance: Single,
    switch_pressed: bool,
    r: BootHoming,
) -> bool {
    let wanted = homing_wanted(
        ctx.motion_mode,
        ctx.restored_from_snapshot,
        ctx.trust_nvs_state,
        near_home(home_distance),
        switch_pressed,
    );
    match r {
        BootHoming::Sweep { dir } => wanted && ctx.switchboard.boot.homing.enabled && dir
            == homing_direction(),
        BootHoming::Stop(fault) => wanted && !ctx.switchboard.boot.homing.enabled
            && !ctx.trust_nvs_state && fault@ == untrusted_fault(),
        BootHoming::Skip => !wanted || (!ctx.switchboard.boot.homing.enabled
            && ctx.trust_nvs_state),
    }
}

/// Decide on homing at boot. A tower that wants to home and may not goes on only if
/// it trusts what it restored.
pub fn boot_homing(ctx: &MotionContext, home_distance: Single, switch_pressed: bool) -> (r:
    BootHoming)
    ensures
        boot_homing_leads(*ctx, home_distance, switch_pressed, r),
{
    let unconfirmed = claims_home(home_distance) && !switch_pressed;
    let wanted = ctx.motion_mode == MotionMode::StepperOnly || !ctx.restored_from_snapshot
        || !ctx.trust_nvs_state || unconfirmed;
    if !wanted {
        return BootHoming::Skip;
    }
    if ctx.switchboard.boot.homing.enabled {
        return BootHoming::Sweep { dir: Direction::Ccw };
    }
    if !ctx.trust_nvs_state {
        return BootHoming::Stop(
            FaultReport::new(
                Component::System,
                "Homing disabled with untrusted NVS state",
                "HOMING_ENABLED=false but persisted heading could not be trusted; manual intervention required.",
            ),
        );
    }
    BootHoming::Skip
}

pub open spec fn boot_sweep_fault() -> FaultView {
    FaultView {
        component: Component::LimitSwitch,
        message: "Limit switch not found during boot homing"@,
        notes: "Boot-time homing sweep completed without detecting the limit switch; tower orientation unknown."@,
    }
}

/// What the sweep at boot leads to.
pub open spec fn boot_swept_leads(
    before: MotionContext,
    begun: Seq<NvsWriteView>,
    found: bool,
    encoder_ticks: i32,
    after: MotionContext,
    written: Seq<NvsWriteView>,
    r: Option<FaultReport>,
) -> bool {
    &&& found ==> {
        let home = before.switchboard.home_heading_deg;
        &&& r is None
        &&& after == (MotionContext { actual_heading: home, ..before })
        &&& written == begun + position_writes(
            true,
            home,
            before.motion_mode,
            encoder_ticks,
        )
    }
    &&& !found ==> {
        &&& r is Some
        &&& r->0@ == boot_sweep_fault()
        &&& after == before
        &&& written == begun
    }
}

/// Settle the sweep at boot: a tower that found home believes and persists it, one
/// that did not is stopped.
pub fn boot_swept(
    ctx: &mut MotionContext,
    found: bool,
    encoder_ticks: i32,
    journal: &mut Vec<NvsWrite>,
) -> (r: Option<FaultReport>)
    ensures
        boot_swept_leads(
            *old(ctx),
            writes(old(journal)@),
            found,
            encoder_ticks,
            *final(ctx),
            writes(final(journal)@),
            r,
        ),
{
    if !found {
        return Some(
            FaultReport::new(
                Component::LimitSwitch,
                "Limit switch not found during boot homing",
                "Boot-time homing sweep completed without detecting the limit switch; tower orientation unknown.",
            ),
        );
    }
    ctx.actual_heading = ctx.switchboard.home_heading_deg;
    persist_position(true, ctx.actual_heading, ctx.motion_mode, encoder_ticks, journal);
    None
}

/// Mark this boot as a normal one, so that the next can trust what it stores.
pub fn boot_finished(journal: &mut Vec<NvsWrite>)
    ensures
        writes(final(journal)@) == writes(old(journal)@).push(saved_last_run_normal(true)),
{
    SnapshotStore::new(true).save_last_run_normal(true, journal);
    assert(writes(journal@) =~= writes(old(journal)@).push(saved_last_run_normal(true)));
}

/// An answer that a pass was waiting for.
#[derive(Debug)]
pub enum TowerInput {
    Daily { daily_mode: Option<u8>, stored_date: Option<String>, today: LocalDate },
    ModeAfterReset { stored: Option<u8> },
    /// Whether the sweep found the switch.
    Swept { found: bool },
    Mode { stored: Option<u8> },
    Probed { ok: bool, today: LocalDate },
    Compared { candidate: Single, drift: Single, encoder_ticks: i32 },
    /// Whether the search after a drift found the switch.
    Rehomed { found: bool, encoder_ticks: i32 },
    ModeAgain { stored: Option<u8> },
    Positioned { report: DriverReport },
}

/// What a pass waits for.
#[derive(Debug)]
pub enum TowerRequest {
    ReadModeAfterReset,
    Sweep { dir: Direction },
    ReadMode,
    Probe { steps: i64 },
    CompareHeading,
    Rehome { dir: Direction },
    /// Publish the report, if there is one, and read the mode again.
    ReadModeAgain { report: Option<FaultReport> },
    Position,
    /// Keep the connection and publish a sign of life, sleep, and begin a new pass.
    Wait { secs: u64 },
    /// Sleep and begin a new pass.
    Again { secs: u64 },
    /// Keep house, sleep and begin a new pass.
    KeepHouse { secs: u64 },
    /// Stop with this fault.
    Stop(FaultReport),
}

/// A pass goes on to the mode after the recovery, with nothing to report.
pub open spec fn goes_on(r: TowerRequest) -> bool {
    r matches TowerRequest::ReadModeAgain { report } && report is None
}

pub open spec fn stops(r: TowerRequest, fault: FaultView) -> bool {
    r matches TowerRequest::Stop(report) && report@ == fault
}

/// The tower before or after a step.
#[verifier::ext_equal]
pub struct TowerState {
    pub ctx: MotionContext,
    pub fx: EffectsView,
}

/// After the daily check: sweep if homing is pending, else read the mode.
pub open spec fn tower_gate_leads(
    before: MotionContext,
    after: MotionContext,
    r: TowerRequest,
) -> bool {
    &&& after == transition_seen(before)
    &&& r == (if rehome_pending(after) {
        TowerRequest::Sweep { dir: homing_direction() }
    } else {
        TowerRequest::ReadMode
    })
}

fn gate(ctx: &mut MotionContext) -> (r: TowerRequest)
    ensures
        tower_gate_leads(*old(ctx), *final(ctx), r),
{
    detect_stepper_transition(ctx);
    if ctx.need_rehome && ctx.motion_mode == MotionMode::StepperOnly {
        TowerRequest::Sweep { dir: Direction::Ccw }
    } else {
        TowerRequest::ReadMode
    }
}

/// A sweep ends the pass.
pub open spec fn tower_swept_leads(
    before: TowerState,
    found: bool,
    after: TowerState,
    r: TowerRequest,
) -> bool {
    if found {
        let home = before.ctx.switchboard.home_heading_deg;
        &&& after.ctx == (MotionContext {
            actual_heading: home,
            need_rehome: false,
            ..before.ctx
        })
        &&& after.fx == before.fx.motored(seq![MotorCommand::UpdatePosition(home)]).wrote(
            seq![saved_heading(home)],
        )
        &&& r == (TowerRequest::Again { secs: REHOME_REST_SECS })
    } else {
        after == before && stops(r, rehome_fault())
    }
}

fn after_sweep(ctx: &mut MotionContext, found: bool, fx: &mut Effects) -> (r: TowerRequest)
    ensures
        final(ctx).encoder_fault == old(ctx).encoder_fault,
        tower_swept_leads(
            (TowerState { ctx: *old(ctx), fx: old(fx)@ }),
            found,
            (TowerState { ctx: *final(ctx), fx: final(fx)@ }),
            r,
        ),
{
    match rehome_if_pending(ctx, found, fx) {
        Some(fault) => TowerRequest::Stop(fault),
        None => TowerRequest::Again { secs: REHOME_REST_SECS },
    }
}

/// What the recovery asks for when a pass reaches it at `now`.
pub open spec fn tower_tick_leads(ctx: MotionContext, now: u64, r: TowerRequest) -> bool {
    let cfg = ctx.switchboard.runtime.encoder_recovery;
    if !ctx.encoder_fault.engaged() {
        goes_on(r)
    } else if !cfg.enabled {
        stops(r, disabled_fault())
    } else if !ctx.encoder_fault.probe_due(now) {
        r == (TowerRequest::Wait { secs: WAITING_SLEEP_SECS })
    } else {
        r == (TowerRequest::Probe { steps: cfg.probe_steps })
    }
}

fn request(step: RecoveryStep) -> (r: TowerRequest)
    ensures
        match step {
            RecoveryStep::Clear => goes_on(r),
            RecoveryStep::Stop(fault) => stops(r, fault@),
            RecoveryStep::Sleep { secs } => r == (TowerRequest::Wait { secs }),
            RecoveryStep::Probe { steps } => r == (TowerRequest::Probe { steps }),
            RecoveryStep::GivenUp(fault) => r == (TowerRequest::ReadModeAgain {
                report: Some(fault),
            }),
            RecoveryStep::Compare => r is CompareHeading,
            RecoveryStep::Rehome { dir } => r == (TowerRequest::Rehome { dir }),
        },
{
    match step {
        RecoveryStep::Clear => TowerRequest::ReadModeAgain { report: None },
        RecoveryStep::Stop(fault) => TowerRequest::Stop(fault),
        RecoveryStep::Sleep { secs } => TowerRequest::Wait { secs },
        RecoveryStep::Probe { steps } => TowerRequest::Probe { steps },
        RecoveryStep::GivenUp(fault) => TowerRequest::ReadModeAgain { report: Some(fault) },
        RecoveryStep::Compare => TowerRequest::CompareHeading,
        RecoveryStep::Rehome { dir } => TowerRequest::Rehome { dir },
    }
}

/// What a probe that was started at `now` leads to.
pub open spec fn tower_probe_leads(
    before: TowerState,
    ok: bool,
    now: u64,
    today: LocalDate,
    after: TowerState,
    r: TowerRequest,
) -> bool {
    let cfg = before.ctx.switchboard.runtime.encoder_recovery;
    &&& after.ctx == (MotionContext {
        encoder_fault: before.ctx.encoder_fault.after_probe_at(ok, cfg, now),
        ..before.ctx
    })
    &&& if ok {
        r is CompareHeading && after.fx == before.fx
    } else if before.ctx.encoder_fault.is_last_probe() {
        &&& r matches TowerRequest::ReadModeAgain { report: Some(fault) } && fault@
            == probes_exhausted()
        &&& after.fx == before.fx.wrote(given_up_writes(true, today)).motored(
            seq![MotorCommand::SetMode(MotionMode::StepperOnly)],
        )
    } else {
        r == (TowerRequest::Wait { secs: FAILED_PROBE_SLEEP_SECS }) && after.fx == before.fx
    }
}

fn after_probing(
    ctx: &mut MotionContext,
    ok: bool,
    now: u64,
    today: &LocalDate,
    fx: &mut Effects,
) -> (r: TowerRequest)
    requires
        today.wf(),
        old(ctx).encoder_fault.wf(),
        old(ctx).encoder_fault.next_probe_fits(
            ok,
            old(ctx).switchboard.runtime.encoder_recovery,
            now,
        ),
    ensures
        final(ctx).encoder_fault.wf(),
        tower_probe_leads(
            (TowerState { ctx: *old(ctx), fx: old(fx)@ }),
            ok,
            now,
            *today,
            (TowerState { ctx: *final(ctx), fx: final(fx)@ }),
            r,
        ),
{
    let cfg = ctx.switchboard.runtime.encoder_recovery;
    let step = probed(
        &mut ctx.encoder_fault,
        ok,
        &cfg,
        now,
        true,
        today,
        &mut fx.motor,
        &mut fx.journal,
    );
    if matches!(step, RecoveryStep::GivenUp(_)) {
        assert(fx@ =~= old(fx)@.wrote(given_up_writes(true, *today)).motored(
            seq![MotorCommand::SetMode(MotionMode::StepperOnly)],
        ));
    } else {
        assert(fx@ =~= old(fx)@);
    }
    request(step)
}

/// What the comparison of headings leads to.
pub open spec fn tower_compare_leads(
    before: TowerState,
    candidate: Single,
    drift: Single,
    encoder_ticks: i32,
    after: TowerState,
    r: TowerRequest,
) -> bool {
    let cfg = before.ctx.switchboard.runtime.encoder_recovery;
    if drift.le_spec(cfg.max_drift_deg) {
        &&& goes_on(r)
        &&& after.ctx == (MotionContext { actual_heading: candidate, ..before.ctx })
        &&& after.fx == before.fx.motored(seq![MotorCommand::UpdatePosition(candidate)]).wrote(
            position_writes(true, candidate, before.ctx.motion_mode, encoder_ticks),
        )
    } else {
        r == (TowerRequest::Rehome { dir: cfg.rehome_dir }) && after == before
    }
}

fn after_comparing(
    ctx: &mut MotionContext,
    candidate: Single,
    drift: Single,
    encoder_ticks: i32,
    fx: &mut Effects,
) -> (r: TowerRequest)
    ensures
        final(ctx).encoder_fault == old(ctx).encoder_fault,
        tower_compare_leads(
            (TowerState { ctx: *old(ctx), fx: old(fx)@ }),
            candidate,
            drift,
            encoder_ticks,
            (TowerState { ctx: *final(ctx), fx: final(fx)@ }),
            r,
        ),
{
    let cfg = ctx.switchboard.runtime.encoder_recovery;
    let mode = ctx.motion_mode;
    let step = compared(
        &cfg,
        candidate,
        drift,
        mode,
        encoder_ticks,
        true,
        &mut ctx.actual_heading,
        &mut fx.motor,
        &mut fx.journal,
    );
    if matches!(step, RecoveryStep::Clear) {
        assert(fx@ =~= old(fx)@.motored(seq![MotorCommand::UpdatePosition(candidate)]).wrote(
            position_writes(true, candidate, mode, encoder_ticks),
        ));
    } else {
        assert(fx@ =~= old(fx)@);
    }
    request(step)
}

/// What the search after a drift leads to.
pub open spec fn tower_rehome_leads(
    before: TowerState,
    found: bool,
    encoder_ticks: i32,
    after: TowerState,
    r: TowerRequest,
) -> bool {
    if found {
        let home = before.ctx.switchboard.home_heading_deg;
        &&& goes_on(r)
        &&& after.ctx == (MotionContext { actual_heading: home, ..before.ctx })
        &&& after.fx == before.fx.motored(seq![MotorCommand::UpdatePosition(home)]).wrote(
            position_writes(true, home, before.ctx.motion_mode, encoder_ticks),
        )
    } else {
        stops(r, drift_fault()) && after == before
    }
}

fn after_rehoming(
    ctx: &mut MotionContext,
    found: bool,
    encoder_ticks: i32,
    fx: &mut Effects,
) -> (r: TowerRequest)
    ensures
        final(ctx).encoder_fault == old(ctx).encoder_fault,
        tower_rehome_leads(
            (TowerState { ctx: *old(ctx), fx: old(fx)@ }),
            found,
            encoder_ticks,
            (TowerState { ctx: *final(ctx), fx: final(fx)@ }),
            r,
        ),
{
    let home = ctx.switchboard.home_heading_deg;
    let mode = ctx.motion_mode;
    let step = rehomed(
        found,
        home,
        mode,
        encoder_ticks,
        true,
        &mut ctx.actual_heading,
        &mut fx.motor,
        &mut fx.journal,
    );
    if found {
        assert(fx@ =~= old(fx)@.motored(seq![MotorCommand::UpdatePosition(home)]).wrote(
            position_writes(true, home, mode, encoder_ticks),
        ));
    } else {
        assert(fx@ =~= old(fx)@);
    }
    request(step)
}

/// After the recovery: sweep if homing is pending, else track if tracking is on.
pub open spec fn tower_track_leads(ctx: MotionContext, r: TowerRequest) -> bool {
    r == (if rehome_pending(ctx) {
        TowerRequest::Sweep { dir: homing_direction() }
    } else if ctx.switchboard.runtime.tracking.enabled {
        TowerRequest::Position
    } else {
        TowerRequest::KeepHouse { secs: LOOP_SLEEP_SECS }
    })
}

/// How a pass counts: by its move, or as completed where none was needed.
pub open spec fn move_outcome(report: DriverReport) -> OutcomeView {
    match outcome_view(report.last_outcome) {
        Some(outcome) => outcome,
        None => OutcomeView::Completed,
    }
}

/// The last step of a pass.
pub open spec fn tower_position_leads(
    before: TowerState,
    report: DriverReport,
    now: u64,
    after: TowerState,
    r: TowerRequest,
) -> bool {
    let completed = outcome_view(report.last_outcome) == Some(OutcomeView::Completed);
    &&& r == (TowerRequest::KeepHouse { secs: LOOP_SLEEP_SECS })
    &&& after.ctx == (MotionContext {
        actual_heading: if completed {
            report.location
        } else {
            before.ctx.actual_heading
        },
        encoder_fault: before.ctx.encoder_fault.after_move(
            move_outcome(report),
            before.ctx.switchboard.runtime.encoder_recovery,
            now,
        ),
        ..before.ctx
    })
    &&& after.fx == (if completed {
        before.fx.wrote(
            position_writes(
                true,
                report.location,
                report.mode,
                report.encoder_ticks,
            ),
        )
    } else {
        before.fx
    })
}

fn after_positioning(
    ctx: &mut MotionContext,
    report: DriverReport,
    now: u64,
    fx: &mut Effects,
) -> (r: TowerRequest)
    requires
        old(ctx).encoder_fault.starts_with(move_outcome(report))
            ==> old(ctx).switchboard.runtime.encoder_recovery.interval_fits(now),
    ensures
        old(ctx).encoder_fault.wf() ==> final(ctx).encoder_fault.wf(),
        tower_position_leads(
            (TowerState { ctx: *old(ctx), fx: old(fx)@ }),
            report,
            now,
            (TowerState { ctx: *final(ctx), fx: final(fx)@ }),
            r,
        ),
{
    let outcome = tracking_loop::tick(
        report,
        true,
        &mut ctx.actual_heading,
        &mut fx.journal,
    );
    let cfg = ctx.switchboard.runtime.encoder_recovery;
    ctx.encoder_fault.on_move_outcome(&outcome, &cfg, now);
    assert(fx@.writes == writes(fx.journal@));
    TowerRequest::KeepHouse { secs: LOOP_SLEEP_SECS }
}

pub open spec fn tower_input_ok(ctx: MotionContext, input: TowerInput, now: u64) -> bool {
    let cfg = ctx.switchboard.runtime.encoder_recovery;
    match input {
        TowerInput::Daily { today, .. } => today.wf(),
        TowerInput::Probed { ok, today } => today.wf() && ctx.encoder_fault.wf()
            && ctx.encoder_fault.next_probe_fits(ok, cfg, now),
        TowerInput::Positioned { report } => ctx.encoder_fault.starts_with(move_outcome(report))
            ==> cfg.interval_fits(now),
        _ => true,
    }
}

/// What an answer leads to.
pub open spec fn tower_pass_leads(
    before: TowerState,
    input: TowerInput,
    now: u64,
    after: TowerState,
    r: TowerRequest,
) -> bool {
    match input {
        TowerInput::Daily { daily_mode, stored_date, today } => {
            &&& after.fx == before.fx.wrote(
                reset_writes(daily_mode, opt_text(stored_date), today, true),
            )
            &&& if reset_due(daily_mode, opt_text(stored_date), today) {
                r is ReadModeAfterReset && after.ctx == before.ctx
            } else {
                tower_gate_leads(before.ctx, after.ctx, r)
            }
        },
        TowerInput::ModeAfterReset { stored } => {
            &&& tower_gate_leads(reset_context(before.ctx, asked_mode(stored)), after.ctx, r)
            &&& after.fx == before.fx.wrote(mode_writes(stored)).motored(
                seq![MotorCommand::SetMode(asked_mode(stored))],
            )
        },
        TowerInput::Swept { found } => tower_swept_leads(before, found, after, r),
        TowerInput::Mode { stored } => {
            &&& after.ctx == mode_synced(before.ctx, asked_mode(stored))
            &&& after.fx == before.fx.wrote(mode_writes(stored)).motored(
                mode_commands(before.ctx, asked_mode(stored)),
            )
            &&& tower_tick_leads(after.ctx, now, r)
        },
        TowerInput::Probed { ok, today } => tower_probe_leads(before, ok, now, today, after, r),
        TowerInput::Compared { candidate, drift, encoder_ticks } => tower_compare_leads(
            before,
            candidate,
            drift,
            encoder_ticks,
            after,
            r,
        ),
        TowerInput::Rehomed { found, encoder_ticks } => tower_rehome_leads(
            before,
            found,
            encoder_ticks,
            after,
            r,
        ),
        TowerInput::ModeAgain { stored } => {
            &&& after.ctx == mode_synced(before.ctx, asked_mode(stored))
            &&& after.fx == before.fx.wrote(mode_writes(stored)).motored(
                mode_commands(before.ctx, asked_mode(stored)),
            )
            &&& tower_track_leads(after.ctx, r)
        },
        TowerInput::Positioned { report } => tower_position_leads(before, report, now, after, r),
    }
}

/// Take an answer of a pass, and say what it waits for next. A pass begins with the
/// answer on the day; a probe's time is the one at which the pass asked for it.
pub fn pass(ctx: &mut MotionContext, input: TowerInput, now: u64, fx: &mut Effects) -> (r:
    TowerRequest)
    requires
        tower_input_ok(*old(ctx), input, now),
    ensures
        old(ctx).encoder_fault.wf() ==> final(ctx).encoder_fault.wf(),
        tower_pass_leads(
            (TowerState { ctx: *old(ctx), fx: old(fx)@ }),
            input,
            now,
            (TowerState { ctx: *final(ctx), fx: final(fx)@ }),
            r,
        ),
{
    match input {
        TowerInput::Daily { daily_mode, stored_date, today } => {
            if daily_reset(daily_mode, &stored_date, &today, fx) {
                TowerRequest::ReadModeAfterReset
            } else {
                gate(ctx)
            }
        },
        TowerInput::ModeAfterReset { stored } => {
            let mode = SnapshotStore::new(true).load_tracking_mode_or_init(
                stored,
                MotionMode::EncoderGuarded,
                &mut fx.journal,
            );
            ctx.motion_mode = mode;
            fx.motor(MotorCommand::SetMode(mode));
            ctx.encoder_fault.set_mode_switched_daily(false);
            assert(fx@ =~= old(fx)@.wrote(mode_writes(stored)).motored(
                seq![MotorCommand::SetMode(asked_mode(stored))],
            ));
            gate(ctx)
        },
        TowerInput::Swept { found } => after_sweep(ctx, found, fx),
        TowerInput::Mode { stored } => {
            sync_motion_mode_from_nvs(ctx, stored, fx);
            let step = tick(
                &ctx.encoder_fault,
                &ctx.switchboard.runtime.encoder_recovery,
                now,
            );
            request(step)
        },
        TowerInput::Probed { ok, today } => after_probing(ctx, ok, now, &today, fx),
        TowerInput::Compared { candidate, drift, encoder_ticks } => after_comparing(
            ctx,
            candidate,
            drift,
            encoder_ticks,
            fx,
        ),
        TowerInput::Rehomed { found, encoder_ticks } => after_rehoming(
            ctx,
            found,
            encoder_ticks,
            fx,
        ),
        TowerInput::ModeAgain { stored } => {
            sync_motion_mode_from_nvs(ctx, stored, fx);
            if ctx.need_rehome && ctx.motion_mode == MotionMode::StepperOnly {
                TowerRequest::Sweep { dir: Direction::Ccw }
            } else if ctx.switchboard.runtime.tracking.enabled {
                TowerRequest::Position
            } else {
                TowerRequest::KeepHouse { secs: LOOP_SLEEP_SECS }
            }
        },
        TowerInput::Positioned { report } => after_positioning(ctx, report, now, fx),
    }
}

/// A tower never tracks while homing is pending: what asks for a position leaves
/// nothing to home for.
pub proof fn no_tracking_before_homing(
    before: TowerState,
    input: TowerInput,
    now: u64,
    after: TowerState,
    r: TowerRequest,
)
    requires
        tower_pass_leads(before, input, now, after, r),
        r is Position,
    ensures
        !rehome_pending(after.ctx),
        after.ctx.switchboard.runtime.tracking.enabled,
{
}

/// Homing clears the wish to home, so the next pass goes on.
pub proof fn homing_is_done_once(before: TowerState, after: TowerState, r: TowerRequest)
    requires
        tower_swept_leads(before, true, after, r),
    ensures
        !rehome_pending(after.ctx),
        after.ctx.actual_heading == before.ctx.switchboard.home_heading_deg,
{
}

} // verus!
