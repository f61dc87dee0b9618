//! Following the sun, one pass at a time.
//!
//! A pass is a conversation: every request names the one thing that the caller
//! reads or does next, and every input is the answer to it.

use std::collections::VecDeque;

use vstd::prelude::*;

use crate::calendar::LocalDate;
use crate::ieee::Single;
use crate::logic::daily_reset::{check_daily_encoder_reset, reset_due, reset_writes};
use crate::logic::encoder_fault::{
    after_comparison, given_up_writes, persist_position, position_writes, EncoderFaultRecovery,
    EncoderFaultRecoveryTickRes, EncoderRecoverySwitches, ProbeStep, TickStep, TickView,
};
use crate::logic::fsm::mail::{
    inbox_view, FSMAddress, FSMCommand, MailView, Message,
};
use crate::logic::fsm::motion::context::{
    enters_maintenance, error_loop, latest_maintenance, perform_maintenance_transition,
    stops_with, Effects, EffectsView, MotionContext, MotionState, MotionTracking, MotorCommand,
    StateResult,
};
use crate::logic::fsm::motion::position::{
    event_mail, outcome_view, publish_event, MotionTopics, SetTowerPositionRes,
};
use crate::logic::types::{
    EventView, FaultReport, FaultView, MotionMode, MoveOutcome, OutcomeView,
};
use crate::storage::snapshot_store::{
    mode_loaded, saved_mode, when_persistent, NvsWriteView, SnapshotStore,
};
use crate::text::opt_text;

verus! {

/// What the motor driver keeps of the tower's state.
#[derive(Debug, Clone, Copy, PartialEq, Eq, Structural)]
pub struct DriverState {
    pub motion_mode: MotionMode,
    pub need_rehome: bool,
}

/// The mode that flash asks for.
pub open spec fn asked_mode(stored: Option<u8>) -> MotionMode {
    mode_loaded(stored, MotionMode::EncoderGuarded)
}

/// The writes of loading the mode.
pub open spec fn mode_writes(stored: Option<u8>) -> Seq<NvsWriteView> {
    when_persistent(stored is None, saved_mode(MotionMode::EncoderGuarded))
}

/// The driver after its mode was brought in line with flash: a change to
/// stepper-only makes it home.
pub open spec fn synced(driver: DriverState, mode: MotionMode) -> DriverState {
    if mode == driver.motion_mode {
        driver
    } else {
        DriverState {
            motion_mode: mode,
            need_rehome: driver.need_rehome || mode == MotionMode::StepperOnly,
        }
    }
}

pub open spec fn sync_commands(driver: DriverState, mode: MotionMode) -> Seq<MotorCommand> {
    if mode == driver.motion_mode {
        Seq::empty()
    } else {
        seq![MotorCommand::SetMode(mode)]
    }
}

/// Bring the driver's mode in line with flash.
pub fn sync_motion_mode_from_nvs(
    driver: &mut DriverState,
    stored: Option<u8>,
    fx: &mut Effects,
)
    ensures
        *final(driver) == synced(*old(driver), asked_mode(stored)),
        final(fx)@ == old(fx)@.wrote(mode_writes(stored)).motored(
            sync_commands(*old(driver), asked_mode(stored)),
        ),
{
    let mode = SnapshotStore::new(true).load_tracking_mode_or_init(
        stored,
        MotionMode::EncoderGuarded,
        &mut fx.journal,
    );
    if mode != driver.motion_mode {
        driver.motion_mode = mode;
        fx.motor(MotorCommand::SetMode(mode));
        if mode == MotionMode::StepperOnly {
            driver.need_rehome = true;
        }
    }
    assert(fx@ =~= old(fx)@.wrote(mode_writes(stored)).motored(
        sync_commands(*old(driver), asked_mode(stored)),
    ));
}

/// What a tracking pass led to.
#[derive(Debug)]
pub struct TrackingRes {
    pub should_rehome: bool,
    pub outcome: Option<MoveOutcome>,
}

/// What the driver says after a positioning pass.
#[derive(Debug)]
pub struct DriverReport {
    /// How the last move ended, if one was made.
    pub last_outcome: Option<MoveOutcome>,
    pub location: Single,
    /// The mode that the driver moves in.
    pub mode: MotionMode,
    pub encoder_ticks: i32,
}

/// The outcome of a pass in which no move was made.
pub open spec fn unmoved_outcome(message: Option<EventView>) -> OutcomeView {
    match message {
        Some(EventView::ErrorLoop(fault)) => OutcomeView::AbortedErrorLoop(fault),
        _ => OutcomeView::Completed,
    }
}

pub open spec fn message_view(message: Option<crate::logic::types::MotionEvent>) -> Option<
    EventView,
> {
    match message {
        Some(event) => Some(event@),
        None => None,
    }
}

/// Settle a positioning pass. The position is persisted only after a completed
/// move; where no move was made, the pass's report is published.
pub fn tracking_tick(
    ctx: &mut MotionContext,
    res: SetTowerPositionRes,
    report: DriverReport,
    topics: &MotionTopics,
    fx: &mut Effects,
) -> (r: TrackingRes)
    ensures
        r.outcome is Some,
        match outcome_view(report.last_outcome) {
            Some(OutcomeView::Completed) => {
                &&& r.should_rehome == res.should_rehome
                &&& r.outcome->0@ is Completed
                &&& *final(ctx) == (MotionContext {
                    actual_heading: report.location,
                    ..*old(ctx)
                })
                &&& final(fx)@ == old(fx)@.wrote(
                    position_writes(
                        old(ctx).switchboard.effects.persist_nvs,
                        report.location,
                        report.mode,
                        report.encoder_ticks,
                    ),
                )
            },
            Some(outcome) => {
                &&& r.should_rehome == res.should_rehome
                &&& r.outcome->0@ == outcome
                &&& *final(ctx) == *old(ctx)
                &&& final(fx)@ == old(fx)@
            },
            None => {
                let message = message_view(res.message);
                &&& r.outcome->0@ == unmoved_outcome(message)
                &&& r.should_rehome == (res.should_rehome && !(unmoved_outcome(
                    message,
                ) is AbortedErrorLoop))
                &&& *final(ctx) == *old(ctx)
                &&& final(fx)@ == (match message {
                    Some(event) => old(fx)@.mailed(event_mail(event, *topics)),
                    None => old(fx)@,
                })
            },
        },
{
    match report.last_outcome {
        Some(MoveOutcome::Completed) => {
            ctx.actual_heading = report.location;
            persist_position(
                ctx.switchboard.effects.persist_nvs,
                report.location,
                report.mode,
                report.encoder_ticks,
                &mut fx.journal,
            );
            TrackingRes {
                should_rehome: res.should_rehome,
                outcome: Some(MoveOutcome::Completed),
            }
        },
        Some(outcome) => TrackingRes {
            should_rehome: res.should_rehome,
            outcome: Some(outcome),
        },
        None => {
            match res.message {
                Some(event) => {
                    match publish_event(event, topics, fx) {
                        Some(fault) => {
                            assert(fx@ =~= old(fx)@);
                            return TrackingRes {
                                should_rehome: false,
                                outcome: Some(MoveOutcome::AbortedErrorLoop(fault)),
                            };
                        },
                        None => {},
                    }
                },
                None => {},
            }
            TrackingRes {
                should_rehome: res.should_rehome,
                outcome: Some(MoveOutcome::Completed),
            }
        },
    }
}

/// What the recovery's verdict means for the pass.
pub enum FaultVerdict {
    Rehome,
    Hold,
    Stop(FaultView),
    GoOn,
}

pub open spec fn fault_verdict(t: TickView) -> FaultVerdict {
    if t.should_rehome {
        FaultVerdict::Rehome
    } else if t.fault_still_active {
        FaultVerdict::Hold
    } else if t.component is Some && t.message is Some && t.notes is Some {
        FaultVerdict::Stop(
            FaultView {
                component: t.component->0,
                message: t.message->0,
                notes: t.notes->0,
            },
        )
    } else {
        FaultVerdict::GoOn
    }
}

/// Act on the recovery's verdict; `None` goes on with the pass.
pub fn settle_fault(res: EncoderFaultRecoveryTickRes) -> (r: Option<StateResult>)
    ensures
        match fault_verdict(res@) {
            FaultVerdict::Rehome => r == Some(StateResult::Running(MotionState::BeginHoming)),
            FaultVerdict::Hold => r == Some(StateResult::Hold),
            FaultVerdict::Stop(fault) => r is Some && stops_with(r->0, fault),
            FaultVerdict::GoOn => r is None,
        },
{
    if res.should_rehome {
        return Some(StateResult::Running(MotionState::BeginHoming));
    }
    if res.fault_still_active {
        return Some(StateResult::Hold);
    }
    match (res.telemetry_component, res.telemetry_message, res.telemetry_notes) {
        (Some(component), Some(message), Some(notes)) => Some(
            error_loop(FaultReport { component, message, notes }),
        ),
        _ => None,
    }
}

/// An answer that a pass was waiting for.
#[derive(Debug)]
pub enum TrackingInput {
    /// The pass begins.
    Start,
    /// What flash holds of the daily encoder mode, and the day it is.
    Daily { daily_mode: Option<u8>, stored_date: Option<String>, today: LocalDate },
    /// The mode that flash holds after a daily reset.
    ModeAfterReset { stored: Option<u8> },
    /// Whether the driver waits for homing.
    RehomePending { pending: bool },
    /// The mode that flash holds, and the time.
    Mode { stored: Option<u8>, now: u64 },
    /// Whether the encoder followed the probe that was asked for at `now`.
    Probed { ok: bool, now: u64, today: LocalDate },
    /// The heading that the encoder gives, and how far it is from the one believed.
    Compared { candidate: Single, drift: Single, encoder_ticks: i32 },
    /// The mode that flash holds after the recovery.
    ModeAgain { stored: Option<u8> },
    /// Whether the driver waits for homing, after the recovery.
    RehomePendingAgain { pending: bool },
    /// What positioning the tower led to, and the time.
    Positioned { res: SetTowerPositionRes, report: DriverReport, now: u64 },
}

/// What a pass waits for.
#[derive(Debug)]
pub enum TrackingRequest {
    ReadDaily,
    ReadModeAfterReset,
    AskRehomePending,
    ReadMode,
    Probe { steps: i64 },
    CompareHeading,
    ReadModeAgain,
    AskRehomePendingAgain,
    /// Position the tower.
    Position,
    Finished(StateResult),
}

/// What the recovery's verdict leads to.
pub open spec fn after_fault(t: TickView, r: TrackingRequest) -> bool {
    match fault_verdict(t) {
        FaultVerdict::Rehome => r == TrackingRequest::Finished(
            StateResult::Running(MotionState::BeginHoming),
        ),
        FaultVerdict::Hold => r == TrackingRequest::Finished(StateResult::Hold),
        FaultVerdict::Stop(fault) => r matches TrackingRequest::Finished(result) && stops_with(
            result,
            fault,
        ),
        FaultVerdict::GoOn => r is ReadModeAgain,
    }
}

fn continue_after_fault(res: EncoderFaultRecoveryTickRes) -> (r: TrackingRequest)
    ensures
        after_fault(res@, r),
{
    match settle_fault(res) {
        Some(result) => TrackingRequest::Finished(result),
        None => TrackingRequest::ReadModeAgain,
    }
}

/// What a recovery that begins at `now` leads to.
pub open spec fn fault_tick_leads(
    recovery: EncoderFaultRecovery,
    cfg: EncoderRecoverySwitches,
    now: u64,
    r: TrackingRequest,
) -> bool {
    if !recovery.engaged() {
        r is ReadModeAgain
    } else if !cfg.enabled {
        after_fault(crate::logic::encoder_fault::disabled_tick(), r)
    } else if !recovery.probe_due(now) {
        r == TrackingRequest::Finished(StateResult::Hold)
    } else {
        r == (TrackingRequest::Probe { steps: cfg.probe_steps })
    }
}

/// The last word of a pass.
pub open spec fn tracked_leads(
    should_rehome: bool,
    outcome: Option<OutcomeView>,
    r: TrackingRequest,
) -> bool {
    if should_rehome {
        r == TrackingRequest::Finished(StateResult::Running(MotionState::BeginHoming))
    } else {
        match outcome {
            Some(OutcomeView::AbortedErrorLoop(fault)) => {
                r matches TrackingRequest::Finished(result) && stops_with(result, fault)
            },
            _ => r == TrackingRequest::Finished(StateResult::Hold),
        }
    }
}

fn finish_tracked(res: TrackingRes, driver: &mut DriverState) -> (r: TrackingRequest)
    ensures
        *final(driver) == (DriverState { need_rehome: res.should_rehome, ..*old(driver) }),
        tracked_leads(res.should_rehome, outcome_view(res.outcome), r),
{
    driver.need_rehome = res.should_rehome;
    if res.should_rehome {
        return TrackingRequest::Finished(StateResult::Running(MotionState::BeginHoming));
    }
    match res.outcome {
        Some(MoveOutcome::AbortedErrorLoop(fault)) => TrackingRequest::Finished(
            error_loop(fault),
        ),
        _ => TrackingRequest::Finished(StateResult::Hold),
    }
}

/// What a pass needs besides its context.
pub open spec fn input_ok(ctx: MotionContext, input: TrackingInput) -> bool {
    let cfg = ctx.switchboard.runtime.encoder_recovery;
    match input {
        TrackingInput::Daily { today, .. } => today.wf(),
        TrackingInput::Probed { ok, now, today } => today.wf() && ctx.encoder_fault.wf()
            && ctx.encoder_fault.next_probe_fits(ok, cfg, now),
        TrackingInput::Positioned { res, report, now } => ctx.encoder_fault.starts_with(
            pass_outcome(res, report),
        ) ==> cfg.interval_fits(now),
        _ => true,
    }
}

/// The machine before or after a step.
#[verifier::ext_equal]
pub struct PassState {
    pub ctx: MotionContext,
    pub driver: DriverState,
    pub fx: EffectsView,
}

/// The first step of a pass: tell the network machine, and look for maintenance.
pub open spec fn start_leads(
    before: PassState,
    messages: Seq<Message>,
    after: PassState,
    r: TrackingRequest,
) -> bool {
    &&& after.ctx == before.ctx
    &&& after.driver == before.driver
    &&& after.fx == before.fx.mailed(
        seq![
            MailView {
                to: FSMAddress::Network,
                message: Message::UpdateNetworkMotionContext(
                    before.driver.motion_mode,
                    before.ctx.actual_heading,
                ),
            },
        ],
    )
    &&& match latest_maintenance(messages) {
        Some(action) => {
            r matches TrackingRequest::Finished(result) && enters_maintenance(
                result,
                action,
                MotionState::Tracking,
            )
        },
        None => r is ReadDaily,
    }
}

pub open spec fn daily_leads(
    before: PassState,
    daily_mode: Option<u8>,
    stored_date: Option<Seq<char>>,
    today: LocalDate,
    after: PassState,
    r: TrackingRequest,
) -> bool {
    &&& after.ctx == before.ctx
    &&& after.driver == before.driver
    &&& after.fx == before.fx.wrote(reset_writes(daily_mode, stored_date, today, true))
    &&& r == (if reset_due(daily_mode, stored_date, today) {
        TrackingRequest::ReadModeAfterReset
    } else {
        TrackingRequest::AskRehomePending
    })
}

/// A daily reset takes the mode from flash and gives the encoder another chance.
pub open spec fn reset_leads(
    before: PassState,
    stored: Option<u8>,
    after: PassState,
    r: TrackingRequest,
) -> bool {
    &&& r is AskRehomePending
    &&& after.driver == (DriverState { motion_mode: asked_mode(stored), ..before.driver })
    &&& after.ctx == (MotionContext {
        encoder_fault: EncoderFaultRecovery {
            mode_switched_daily: false,
            ..before.ctx.encoder_fault
        },
        ..before.ctx
    })
    &&& after.fx == before.fx.wrote(mode_writes(stored)).motored(
        seq![MotorCommand::SetMode(asked_mode(stored))],
    )
}

pub open spec fn pending_leads(pending: bool, r: TrackingRequest) -> bool {
    r == (if pending {
        TrackingRequest::Finished(StateResult::Running(MotionState::BeginHoming))
    } else {
        TrackingRequest::ReadMode
    })
}

/// The driver follows flash, and nothing else changes.
pub open spec fn sync_leads(before: PassState, stored: Option<u8>, after: PassState) -> bool {
    &&& after.ctx == before.ctx
    &&& after.driver == synced(before.driver, asked_mode(stored))
    &&& after.fx == before.fx.wrote(mode_writes(stored)).motored(
        sync_commands(before.driver, asked_mode(stored)),
    )
}

/// A probe brings the encoder back, or gives it up, or ends the pass.
pub open spec fn probe_leads(
    before: PassState,
    ok: bool,
    now: u64,
    today: LocalDate,
    after: PassState,
    r: TrackingRequest,
) -> bool {
    let cfg = before.ctx.switchboard.runtime.encoder_recovery;
    let given_up = !ok && before.ctx.encoder_fault.is_last_probe();
    &&& after.ctx == (MotionContext {
        encoder_fault: before.ctx.encoder_fault.after_probe_at(ok, cfg, now),
        ..before.ctx
    })
    &&& if ok {
        &&& r is CompareHeading
        &&& after.driver == before.driver
        &&& after.fx == before.fx
    } else if given_up {
        &&& r is ReadModeAgain
        &&& after.driver == (DriverState {
            motion_mode: MotionMode::StepperOnly,
            ..before.driver
        })
        &&& after.fx == before.fx.wrote(given_up_writes(true, today)).motored(
            seq![MotorCommand::SetMode(MotionMode::StepperOnly)],
        )
    } else {
        &&& r == TrackingRequest::Finished(StateResult::Hold)
        &&& after.driver == before.driver
        &&& after.fx == before.fx
    }
}

/// A heading that has not drifted far is adopted; otherwise the tower homes.
pub open spec fn compare_leads(
    before: PassState,
    candidate: Single,
    drift: Single,
    encoder_ticks: i32,
    after: PassState,
    r: TrackingRequest,
) -> bool {
    &&& after.driver == before.driver
    &&& if drift.le_spec(before.ctx.switchboard.runtime.encoder_recovery.max_drift_deg) {
        &&& r is ReadModeAgain
        &&& after.ctx == (MotionContext { actual_heading: candidate, ..before.ctx })
        &&& after.fx == before.fx.motored(seq![MotorCommand::UpdatePosition(candidate)]).wrote(
            position_writes(true, candidate, before.driver.motion_mode, encoder_ticks),
        )
    } else {
        &&& r == TrackingRequest::Finished(StateResult::Running(MotionState::BeginHoming))
        &&& after.ctx == before.ctx
        &&& after.fx == before.fx
    }
}

pub open spec fn pending_again_leads(
    before: PassState,
    pending: bool,
    after: PassState,
    r: TrackingRequest,
) -> bool {
    let tracks = before.ctx.switchboard.runtime.tracking.enabled;
    &&& after.ctx == before.ctx
    &&& after.fx == before.fx
    &&& after.driver == (if !pending && !tracks {
        DriverState { need_rehome: false, ..before.driver }
    } else {
        before.driver
    })
    &&& r == (if pending {
        TrackingRequest::Finished(StateResult::Running(MotionState::BeginHoming))
    } else if tracks {
        TrackingRequest::Position
    } else {
        TrackingRequest::Finished(StateResult::Hold)
    })
}

/// How the pass's move, or its lack of one, counts.
pub open spec fn pass_outcome(res: SetTowerPositionRes, report: DriverReport) -> OutcomeView {
    match outcome_view(report.last_outcome) {
        Some(o) => o,
        None => unmoved_outcome(message_view(res.message)),
    }
}

/// Whether the pass ends with homing.
pub open spec fn pass_rehomes(res: SetTowerPositionRes, report: DriverReport) -> bool {
    res.should_rehome && !(report.last_outcome is None && pass_outcome(
        res,
        report,
    ) is AbortedErrorLoop)
}

/// The last step of a pass: persist a completed move, publish the report of a pass
/// without one, take note of how it ended.
pub open spec fn position_leads(
    before: PassState,
    res: SetTowerPositionRes,
    report: DriverReport,
    now: u64,
    topics: MotionTopics,
    after: PassState,
    r: TrackingRequest,
) -> bool {
    let moved = outcome_view(report.last_outcome);
    let heading = if moved == Some(OutcomeView::Completed) {
        report.location
    } else {
        before.ctx.actual_heading
    };
    &&& after.ctx == (MotionContext {
        actual_heading: heading,
        encoder_fault: before.ctx.encoder_fault.after_move(
            pass_outcome(res, report),
            before.ctx.switchboard.runtime.encoder_recovery,
            now,
        ),
        ..before.ctx
    })
    &&& after.driver == (DriverState {
        need_rehome: pass_rehomes(res, report),
        ..before.driver
    })
    &&& tracked_leads(pass_rehomes(res, report), Some(pass_outcome(res, report)), r)
    &&& after.fx == (match moved {
        Some(OutcomeView::Completed) => before.fx.wrote(
            position_writes(
                before.ctx.switchboard.effects.persist_nvs,
                report.location,
                report.mode,
                report.encoder_ticks,
            ),
        ),
        Some(_) => before.fx,
        None => match message_view(res.message) {
            Some(event) => before.fx.mailed(event_mail(event, topics)),
            None => before.fx,
        },
    })
}

/// What an answer leads to.
pub open spec fn pass_leads(
    before: PassState,
    messages: Seq<Message>,
    input: TrackingInput,
    topics: MotionTopics,
    after: PassState,
    r: TrackingRequest,
) -> bool {
    match input {
        TrackingInput::Start => start_leads(before, messages, after, r),
        TrackingInput::Daily { daily_mode, stored_date, today } => daily_leads(
            before,
            daily_mode,
            opt_text(stored_date),
            today,
            after,
            r,
        ),
        TrackingInput::ModeAfterReset { stored } => reset_leads(before, stored, after, r),
        TrackingInput::RehomePending { pending } => after == before && pending_leads(pending, r),
        TrackingInput::Mode { stored, now } => sync_leads(before, stored, after)
            && fault_tick_leads(
            before.ctx.encoder_fault,
            before.ctx.switchboard.runtime.encoder_recovery,
            now,
            r,
        ),
        TrackingInput::Probed { ok, now, today } => probe_leads(before, ok, now, today, after, r),
        TrackingInput::Compared { candidate, drift, encoder_ticks } => compare_leads(
            before,
            candidate,
            drift,
            encoder_ticks,
            after,
            r,
        ),
        TrackingInput::ModeAgain { stored } => sync_leads(before, stored, after)
            && r is AskRehomePendingAgain,
        TrackingInput::RehomePendingAgain { pending } => pending_again_leads(
            before,
            pending,
            after,
            r,
        ),
        TrackingInput::Positioned { res, report, now } => position_leads(
            before,
            res,
            report,
            now,
            topics,
            after,
            r,
        ),
    }
}

fn start(
    ctx: &MotionContext,
    driver: &DriverState,
    inbox: &mut VecDeque<FSMCommand>,
    fx: &mut Effects,
) -> (r: TrackingRequest)
    ensures
        final(inbox)@.len() == 0,
        start_leads(
            (PassState { ctx: *ctx, driver: *driver, fx: old(fx)@ }),
            inbox_view(old(inbox)@),
            (PassState { ctx: *ctx, driver: *driver, fx: final(fx)@ }),
            r,
        ),
{
    fx.mail(
        FSMAddress::Network,
        FSMCommand::UpdateNetworkMotionContext(driver.motion_mode, ctx.actual_heading),
    );
    match perform_maintenance_transition(inbox, MotionState::Tracking) {
        Some(result) => TrackingRequest::Finished(result),
        None => TrackingRequest::ReadDaily,
    }
}

/// Give the encoder another chance if the day has changed since it was given up;
/// `true` if it has, and the mode is to be read again.
pub fn daily_reset(
    daily_mode: Option<u8>,
    stored_date: &Option<String>,
    today: &LocalDate,
    fx: &mut Effects,
) -> (r: bool)
    requires
        today.wf(),
    ensures
        r == reset_due(daily_mode, opt_text(*stored_date), *today),
        final(fx)@ == old(fx)@.wrote(
            reset_writes(daily_mode, opt_text(*stored_date), *today, true),
        ),
{
    let date = match stored_date {
        Some(text) => Some(text.as_str()),
        None => None,
    };
    check_daily_encoder_reset(daily_mode, date, today, true, &mut fx.journal)
}

fn after_reset(
    ctx: &mut MotionContext,
    driver: &mut DriverState,
    stored: Option<u8>,
    fx: &mut Effects,
) -> (r: TrackingRequest)
    ensures
        reset_leads(
            (PassState { ctx: *old(ctx), driver: *old(driver), fx: old(fx)@ }),
            stored,
            (PassState { ctx: *final(ctx), driver: *final(driver), fx: final(fx)@ }),
            r,
        ),
{
    let mode = SnapshotStore::new(true).load_tracking_mode_or_init(
        stored,
        MotionMode::EncoderGuarded,
        &mut fx.journal,
    );
    driver.motion_mode = mode;
    fx.motor(MotorCommand::SetMode(mode));
    ctx.encoder_fault.set_mode_switched_daily(false);
    assert(fx@ =~= old(fx)@.wrote(mode_writes(stored)).motored(
        seq![MotorCommand::SetMode(asked_mode(stored))],
    ));
    TrackingRequest::AskRehomePending
}

fn after_tick(ctx: &MotionContext, now: u64) -> (r: TrackingRequest)
    ensures
        fault_tick_leads(
            ctx.encoder_fault,
            ctx.switchboard.runtime.encoder_recovery,
            now,
            r,
        ),
{
    match ctx.encoder_fault.tick(&ctx.switchboard.runtime.encoder_recovery, now) {
        TickStep::Finished(res) => continue_after_fault(res),
        TickStep::Probe { steps } => TrackingRequest::Probe { steps },
    }
}

fn after_probing(
    ctx: &mut MotionContext,
    driver: &mut DriverState,
    ok: bool,
    now: u64,
    today: &LocalDate,
    fx: &mut Effects,
) -> (r: TrackingRequest)
    requires
        today.wf(),
        old(ctx).encoder_fault.wf(),
        old(ctx).encoder_fault.next_probe_fits(
            ok,
            old(ctx).switchboard.runtime.encoder_recovery,
            now,
        ),
    ensures
        final(ctx).encoder_fault.wf(),
        probe_leads(
            (PassState { ctx: *old(ctx), driver: *old(driver), fx: old(fx)@ }),
            ok,
            now,
            *today,
            (PassState { ctx: *final(ctx), driver: *final(driver), fx: final(fx)@ }),
            r,
        ),
{
    let cfg = ctx.switchboard.runtime.encoder_recovery;
    match ctx.encoder_fault.after_probe(
        ok,
        &cfg,
        now,
        true,
        today,
        &mut fx.motor,
        &mut fx.journal,
    ) {
        ProbeStep::Waiting(res) => {
            assert(fx@ =~= old(fx)@);
            continue_after_fault(res)
        },
        ProbeStep::GivenUp { result, notes: _ } => {
            driver.motion_mode = MotionMode::StepperOnly;
            assert(fx@ =~= old(fx)@.wrote(given_up_writes(true, *today)).motored(
                seq![MotorCommand::SetMode(MotionMode::StepperOnly)],
            ));
            continue_after_fault(result)
        },
        ProbeStep::Recovered => {
            assert(fx@ =~= old(fx)@);
            TrackingRequest::CompareHeading
        },
    }
}

fn after_comparing(
    ctx: &mut MotionContext,
    driver: &DriverState,
    candidate: Single,
    drift: Single,
    encoder_ticks: i32,
    fx: &mut Effects,
) -> (r: TrackingRequest)
    ensures
        final(ctx).encoder_fault == old(ctx).encoder_fault,
        compare_leads(
            (PassState { ctx: *old(ctx), driver: *driver, fx: old(fx)@ }),
            candidate,
            drift,
            encoder_ticks,
            (PassState { ctx: *final(ctx), driver: *driver, fx: final(fx)@ }),
            r,
        ),
{
    let cfg = ctx.switchboard.runtime.encoder_recovery;
    let res = after_comparison(
        &cfg,
        candidate,
        drift,
        driver.motion_mode,
        encoder_ticks,
        true,
        &mut ctx.actual_heading,
        &mut fx.motor,
        &mut fx.journal,
    );
    if !res.should_rehome {
        assert(fx@ =~= old(fx)@.motored(seq![MotorCommand::UpdatePosition(candidate)]).wrote(
            position_writes(true, candidate, driver.motion_mode, encoder_ticks),
        ));
    } else {
        assert(fx@ =~= old(fx)@);
    }
    continue_after_fault(res)
}

pub open spec fn no_effects() -> EffectsView {
    EffectsView { mail: Seq::empty(), motor: Seq::empty(), writes: Seq::empty() }
}

/// Track, if tracking is on at all.
pub fn run_tracking(ctx: &MotionContext, driver: &mut DriverState) -> (r: TrackingRequest)
    ensures
        pending_again_leads(
            (PassState { ctx: *ctx, driver: *old(driver), fx: no_effects() }),
            false,
            (PassState { ctx: *ctx, driver: *final(driver), fx: no_effects() }),
            r,
        ),
{
    if !ctx.switchboard.runtime.tracking.enabled {
        return finish_tracked(TrackingRes { should_rehome: false, outcome: None }, driver);
    }
    TrackingRequest::Position
}

fn after_positioning(
    ctx: &mut MotionContext,
    driver: &mut DriverState,
    res: SetTowerPositionRes,
    report: DriverReport,
    now: u64,
    topics: &MotionTopics,
    fx: &mut Effects,
) -> (r: TrackingRequest)
    requires
        old(ctx).encoder_fault.starts_with(pass_outcome(res, report))
            ==> old(ctx).switchboard.runtime.encoder_recovery.interval_fits(now),
    ensures
        old(ctx).encoder_fault.wf() ==> final(ctx).encoder_fault.wf(),
        position_leads(
            (PassState { ctx: *old(ctx), driver: *old(driver), fx: old(fx)@ }),
            res,
            report,
            now,
            *topics,
            (PassState { ctx: *final(ctx), driver: *final(driver), fx: final(fx)@ }),
            r,
        ),
{
    let settled = tracking_tick(ctx, res, report, topics, fx);
    let cfg = ctx.switchboard.runtime.encoder_recovery;
    match &settled.outcome {
        Some(outcome) => ctx.encoder_fault.on_move_outcome(outcome, &cfg, now),
        None => {},
    }
    finish_tracked(settled, driver)
}

impl MotionTracking {
    /// Take an answer, and say what the pass waits for next.
    pub fn process(
        &self,
        ctx: &mut MotionContext,
        driver: &mut DriverState,
        input: TrackingInput,
        inbox: &mut VecDeque<FSMCommand>,
        topics: &MotionTopics,
        fx: &mut Effects,
    ) -> (r: TrackingRequest)
        requires
            input_ok(*old(ctx), input),
        ensures
            input is Start ==> final(inbox)@.len() == 0,
            !(input is Start) ==> final(inbox)@ == old(inbox)@,
            old(ctx).encoder_fault.wf() ==> final(ctx).encoder_fault.wf(),
            pass_leads(
                (PassState { ctx: *old(ctx), driver: *old(driver), fx: old(fx)@ }),
                inbox_view(old(inbox)@),
                input,
                *topics,
                (PassState { ctx: *final(ctx), driver: *final(driver), fx: final(fx)@ }),
                r,
            ),
    {
        match input {
            TrackingInput::Start => start(ctx, driver, inbox, fx),
            TrackingInput::Daily { daily_mode, stored_date, today } => {
                if daily_reset(daily_mode, &stored_date, &today, fx) {
                    TrackingRequest::ReadModeAfterReset
                } else {
                    TrackingRequest::AskRehomePending
                }
            },
            TrackingInput::ModeAfterReset { stored } => after_reset(ctx, driver, stored, fx),
            TrackingInput::RehomePending { pending } => {
                if pending {
                    TrackingRequest::Finished(StateResult::Running(MotionState::BeginHoming))
                } else {
                    TrackingRequest::ReadMode
                }
            },
            TrackingInput::Mode { stored, now } => {
                sync_motion_mode_from_nvs(driver, stored, fx);
                after_tick(ctx, now)
            },
            TrackingInput::Probed { ok, now, today } => after_probing(
                ctx,
                driver,
                ok,
                now,
                &today,
                fx,
            ),
            TrackingInput::Compared { candidate, drift, encoder_ticks } => after_comparing(
                ctx,
                driver,
                candidate,
                drift,
                encoder_ticks,
                fx,
            ),
            TrackingInput::ModeAgain { stored } => {
                sync_motion_mode_from_nvs(driver, stored, fx);
                TrackingRequest::AskRehomePendingAgain
            },
            TrackingInput::RehomePendingAgain { pending } => {
                if pending {
                    TrackingRequest::Finished(StateResult::Running(MotionState::BeginHoming))
                } else {
                    run_tracking(ctx, driver)
                }
            },
            TrackingInput::Positioned { res, report, now } => after_positioning(
                ctx,
                driver,
                res,
                report,
                now,
                topics,
                fx,
            ),
        }
    }
}

/// A tower tracks only without an encoder fault. A pass comes to positioning by way
/// of reading the mode again, and when it asks for that, no recovery is engaged: none
/// was, or the encoder was given up for the day, or it was found to follow again, in
/// which case the comparison of headings begins without one, too. The two steps from
/// there to positioning leave the recovery alone.
pub proof fn a_tower_tracks_only_without_a_fault(
    before: PassState,
    messages: Seq<Message>,
    input: TrackingInput,
    topics: MotionTopics,
    after: PassState,
    r: TrackingRequest,
)
    requires
        pass_leads(before, messages, input, topics, after, r),
        input is Compared ==> !before.ctx.encoder_fault.engaged(),
    ensures
        r is CompareHeading ==> !after.ctx.encoder_fault.engaged(),
        r is ReadModeAgain ==> !after.ctx.encoder_fault.engaged(),
        r is AskRehomePendingAgain ==> input is ModeAgain && after.ctx == before.ctx,
        r is Position ==> input is RehomePendingAgain && after.ctx == before.ctx,
{
}

/// While a probe is not due, a faulted tower neither probes nor tracks: the pass
/// ends.
pub proof fn a_faulted_tower_does_not_track(
    recovery: EncoderFaultRecovery,
    cfg: EncoderRecoverySwitches,
    now: u64,
    r: TrackingRequest,
)
    requires
        recovery.engaged(),
        !recovery.probe_due(now) || !cfg.enabled,
        fault_tick_leads(recovery, cfg, now, r),
    ensures
        r is Finished,
{
}

} // verus!
