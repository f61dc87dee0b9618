//! Following the sun on a tower that sweeps for its limit switch within a pass.
//!
//! Such a tower finds home itself, at night and after a change of mode, and waits
//! between passes.

use std::collections::VecDeque;

use vstd::prelude::*;

use crate::calendar::LocalDate;
use crate::ieee::{Double, Single};
use crate::logic::daily_reset::{reset_due, reset_writes};
use crate::logic::encoder_fault::{
    after_comparison, given_up_writes, persist_position, position_writes,
    EncoderFaultRecovery, EncoderFaultRecoveryTickRes, EncoderRecoverySwitches, ProbeStep,
    TickStep, TickView,
};
use crate::logic::fsm::mail::{inbox_view, FSMAddress, FSMCommand, MailView, Message};
use crate::logic::fsm::motion::context::{
    enters_maintenance, error_loop, latest_maintenance, perform_maintenance_transition,
    stops_with, Effects, EffectsView, MotionContext, MotionState, MotionTracking,
    MotionTrackingWait, MotorCommand, StateResult,
};
use crate::logic::fsm::motion::homing::{claims_home, near_home};
use crate::logic::fsm::motion::position::{
    day_leads, day_pass, event_mail, outcome_view, publish_event, DayInput, DayRequest, DayRun,
    MotionTopics, SoftLimits,
};
use crate::logic::fsm::motion::tracking::{
    asked_mode, daily_reset, fault_verdict, mode_writes, DriverReport, FaultVerdict,
};
use crate::logic::types::{
    Component, EventView, FaultReport, FaultView, MotionEvent, MotionMode, MoveOutcome,
    OutcomeView,
};
use crate::storage::snapshot_store::{saved_heading, SnapshotStore};
use crate::text::opt_text;

verus! {

/// How long a tower waits between passes, in nanoseconds.
pub const TRACKING_WAIT: u64 = 300_000_000_000;

pub open spec fn event_views(events: Seq<MotionEvent>) -> Seq<EventView> {
    events.map_values(|e: MotionEvent| e@)
}

/// What a night pass does.
#[derive(Debug, Clone, Copy, PartialEq, Eq, Structural)]
pub enum NightStep {
    /// The tower is at home: sleep.
    Sleep,
    /// The tower claims to be at home and the switch does not confirm it: sweep.
    Verify,
    /// Sweep home.
    GoHome,
}

pub open spec fn night_step(home_distance: Single, switch_pressed: bool) -> NightStep {
    if !near_home(home_distance) {
        NightStep::GoHome
    } else if switch_pressed {
        NightStep::Sleep
    } else {
        NightStep::Verify
    }
}

/// Decide what a night pass does.
pub fn night_begin(home_distance: Single, switch_pressed: bool) -> (r: NightStep)
    ensures
        r == night_step(home_distance, switch_pressed),
{
    if !claims_home(home_distance) {
        NightStep::GoHome
    } else if switch_pressed {
        NightStep::Sleep
    } else {
        NightStep::Verify
    }
}

pub open spec fn unverified_fault() -> FaultView {
    FaultView {
        component: Component::LimitSwitch,
        message: "Limit switch not found during sunset home verification"@,
        notes: "Heading indicated home at sunset but the limit switch did not confirm; re-verification homing sweep failed."@,
    }
}

pub open spec fn no_sleep_fault() -> FaultView {
    FaultView {
        component: Component::LimitSwitch,
        message: "Limit switch not found during move-to-sleep homing"@,
        notes: "End-of-day homing sweep failed to locate the limit switch."@,
    }
}

/// What a night sweep reports of how far off the encoder was.
pub open spec fn night_report(reported: bool, error_ticks: Option<Seq<char>>) -> Seq<EventView> {
    match error_ticks {
        Some(payload) => if reported {
            seq![EventView::HomeErrorTicks(payload)]
        } else {
            Seq::empty()
        },
        None => Seq::empty(),
    }
}

/// Whether a night pass reached the sleeping position. `swept` is what the sweep
/// found, `None` where it could not be made.
pub open spec fn night_done(step: NightStep, swept: Option<bool>) -> bool {
    match step {
        NightStep::Sleep => true,
        NightStep::Verify => swept == Some(true),
        NightStep::GoHome => swept != Some(false),
    }
}

/// The events of a night pass.
pub open spec fn night_events(
    step: NightStep,
    swept: Option<bool>,
    error_ticks: Option<Seq<char>>,
) -> Seq<EventView> {
    match step {
        NightStep::Sleep => Seq::empty(),
        NightStep::Verify => {
            let report = night_report(swept is Some, error_ticks);
            if swept == Some(true) {
                report
            } else {
                report.push(EventView::ErrorLoop(unverified_fault()))
            }
        },
        NightStep::GoHome => if swept == Some(false) {
            seq![EventView::ErrorLoop(no_sleep_fault())]
        } else {
            night_report(swept == Some(true), error_ticks)
        },
    }
}

/// Settle a night pass after its sweep, if it made one. `error_ticks` is the report
/// of how far off the encoder was, in JSON, where home was found.
///
/// The result says whether the tower sleeps, and what to publish.
pub fn settle_night(
    step: NightStep,
    swept: Option<bool>,
    error_ticks: Option<String>,
    fx: &mut Effects,
) -> (r: (bool, Vec<MotionEvent>))
    ensures
        r.0 == night_done(step, swept),
        event_views(r.1@) == night_events(step, swept, opt_text(error_ticks)),
        final(fx)@ == (if step != NightStep::GoHome && r.0 {
            old(fx)@.motored(seq![MotorCommand::ForceZeroIfLimitSwitchPressed])
        } else {
            old(fx)@
        }),
{
    let mut events: Vec<MotionEvent> = Vec::new();
    let reported = match step {
        NightStep::Sleep => false,
        NightStep::Verify => swept.is_some(),
        NightStep::GoHome => matches!(swept, Some(true)),
    };
    if reported {
        match error_ticks {
            Some(payload) => {
                events.push(MotionEvent::HomeErrorTicks(payload));
            },
            None => {},
        }
    }
    match step {
        NightStep::GoHome => {
            if matches!(swept, Some(false)) {
                events.push(
                    MotionEvent::ErrorLoop(
                        FaultReport::new(
                            Component::LimitSwitch,
                            "Limit switch not found during move-to-sleep homing",
                            "End-of-day homing sweep failed to locate the limit switch.",
                        ),
                    ),
                );
                assert(event_views(events@) =~= night_events(
                    step,
                    swept,
                    opt_text(error_ticks),
                ));
                return (false, events);
            }
        },
        NightStep::Verify => {
            if !matches!(swept, Some(true)) {
                events.push(
                    MotionEvent::ErrorLoop(
                        FaultReport::new(
                            Component::LimitSwitch,
                            "Limit switch not found during sunset home verification",
                            "Heading indicated home at sunset but the limit switch did not confirm; re-verification homing sweep failed.",
                        ),
                    ),
                );
                assert(event_views(events@) =~= night_events(
                    step,
                    swept,
                    opt_text(error_ticks),
                ));
                return (false, events);
            }
            fx.motor(MotorCommand::ForceZeroIfLimitSwitchPressed);
        },
        NightStep::Sleep => {
            fx.motor(MotorCommand::ForceZeroIfLimitSwitchPressed);
        },
    }
    assert(event_views(events@) =~= night_events(step, swept, opt_text(error_ticks)));
    (true, events)
}

/// An answer that positioning was waiting for.
#[derive(Debug)]
pub enum NightInput {
    Day(DayInput),
    /// How far the heading lies from home, and whether the limit switch is pressed.
    Home { distance: Single, switch_pressed: bool },
    /// What the sweep of this step found, and how far off the encoder was, in JSON.
    Swept { step: NightStep, found: Option<bool>, error_ticks: Option<String> },
}

/// What positioning waits for.
#[derive(Debug)]
pub enum NightRequest {
    /// The sun could not be calculated.
    Failed(String),
    ReadTarget,
    ReadOffset { target: Double },
    Move { offset: Double },
    Report { target: Double, offset: Double },
    /// It is night: look where the tower is.
    ReadHome,
    /// Sweep for the limit switch.
    Sweep(NightStep),
    /// Positioning is over: whether the tower is where it belongs, and what to
    /// publish.
    Done { done: bool, events: Vec<MotionEvent> },
}

/// The events of a day pass.
pub open spec fn day_events(message: Option<MotionEvent>) -> Seq<EventView> {
    match message {
        Some(event) => seq![event@],
        None => Seq::empty(),
    }
}

/// What positioning waits for where a day pass waits for `r`.
pub open spec fn by_day(r: DayRequest, p: NightRequest) -> bool {
    match r {
        DayRequest::Failed(e) => p == NightRequest::Failed(e),
        DayRequest::Night => p is ReadHome,
        DayRequest::ReadTarget => p is ReadTarget,
        DayRequest::ReadOffset { target } => p == (NightRequest::ReadOffset { target }),
        DayRequest::Move { offset } => p == (NightRequest::Move { offset }),
        DayRequest::Report { target, offset } => p == (NightRequest::Report { target, offset }),
        DayRequest::Done(message) => {
            &&& p matches NightRequest::Done { done, events }
            &&& done
            &&& event_views(events@) == day_events(message)
        },
    }
}

/// Whether a night pass is settled as its step and its sweep say.
pub open spec fn night_settled(
    before: EffectsView,
    step: NightStep,
    found: Option<bool>,
    error_ticks: Option<Seq<char>>,
    after: EffectsView,
    r: NightRequest,
) -> bool {
    &&& r matches NightRequest::Done { done, events }
    &&& done == night_done(step, found)
    &&& event_views(events@) == night_events(step, found, error_ticks)
    &&& after == (if step != NightStep::GoHome && done {
        before.motored(seq![MotorCommand::ForceZeroIfLimitSwitchPressed])
    } else {
        before
    })
}

/// What an answer of positioning leads to.
pub open spec fn night_leads(
    before: EffectsView,
    run: DayRun,
    input: NightInput,
    limits: SoftLimits,
    deadband: Double,
    after: EffectsView,
    next: DayRun,
    r: NightRequest,
) -> bool {
    match input {
        NightInput::Day(day) => exists|d: DayRequest|
            #[trigger] day_leads(before, run, day, limits, deadband, after, next, d)
                && by_day(d, r),
        NightInput::Home { distance, switch_pressed } => {
            let step = night_step(distance, switch_pressed);
            &&& next == run
            &&& if step == NightStep::Sleep {
                night_settled(before, step, None, None, after, r)
            } else {
                r == NightRequest::Sweep(step) && after == before
            }
        },
        NightInput::Swept { step, found, error_ticks } => next == run && night_settled(
            before,
            step,
            found,
            opt_text(error_ticks),
            after,
            r,
        ),
    }
}

/// Take an answer of positioning, and say what it waits for next. By night, the tower
/// looks for home itself.
pub fn set_tower_position(
    input: NightInput,
    limits: &SoftLimits,
    deadband: Double,
    run: &mut DayRun,
    fx: &mut Effects,
) -> (r: NightRequest)
    ensures
        night_leads(
            old(fx)@,
            *old(run),
            input,
            *limits,
            deadband,
            final(fx)@,
            *final(run),
            r,
        ),
{
    match input {
        NightInput::Day(day) => {
            let step = day_pass(day, limits, deadband, run, fx);
            assert(day_leads(old(fx)@, *old(run), day, *limits, deadband, fx@, *run, step));
            match step {
                DayRequest::Failed(e) => NightRequest::Failed(e),
                DayRequest::Night => NightRequest::ReadHome,
                DayRequest::ReadTarget => NightRequest::ReadTarget,
                DayRequest::ReadOffset { target } => NightRequest::ReadOffset { target },
                DayRequest::Move { offset } => NightRequest::Move { offset },
                DayRequest::Report { target, offset } => NightRequest::Report { target, offset },
                DayRequest::Done(message) => {
                    let mut events: Vec<MotionEvent> = Vec::new();
                    match message {
                        Some(event) => {
                            events.push(event);
                        },
                        None => {},
                    }
                    assert(event_views(events@) =~= day_events(message));
                    NightRequest::Done { done: true, events }
                },
            }
        },
        NightInput::Home { distance, switch_pressed } => {
            let step = night_begin(distance, switch_pressed);
            if step == NightStep::Sleep {
                let (done, events) = settle_night(step, None, None, fx);
                NightRequest::Done { done, events }
            } else {
                NightRequest::Sweep(step)
            }
        },
        NightInput::Swept { step, found, error_ticks } => {
            let (done, events) = settle_night(step, found, error_ticks, fx);
            NightRequest::Done { done, events }
        },
    }
}

/// A night pass that does not reach the sleeping position stops the tower, and one
/// that reaches it does not.
pub proof fn a_night_without_home_stops_the_tower(
    step: NightStep,
    swept: Option<bool>,
    error_ticks: Option<Seq<char>>,
)
    ensures
        !night_done(step, swept) <==> stopping_event(
            night_events(step, swept, error_ticks),
        ) is Some,
{
    let events = night_events(step, swept, error_ticks);
    reveal_with_fuel(stopping_event, 3);
    if events.len() == 2 {
        assert(events.drop_first()[0] == events[1]);
    }
}

/// The first event that stops the tower.
pub open spec fn stopping_event(events: Seq<EventView>) -> Option<FaultView>
    decreases events.len(),
{
    if events.len() == 0 {
        None
    } else {
        match events.first() {
            EventView::ErrorLoop(fault) => Some(fault),
            _ => stopping_event(events.drop_first()),
        }
    }
}

/// The mail of a run of events, up to the first that stops the tower.
pub open spec fn events_mail(events: Seq<EventView>, topics: MotionTopics) -> Seq<MailView>
    decreases events.len(),
{
    if events.len() == 0 {
        Seq::empty()
    } else {
        match events.first() {
            EventView::ErrorLoop(_) => Seq::empty(),
            event => event_mail(event, topics) + events_mail(events.drop_first(), topics),
        }
    }
}

/// Publish events in order. One that stops the tower ends that and is handed back.
pub fn publish_events(events: Vec<MotionEvent>, topics: &MotionTopics, fx: &mut Effects) -> (r:
    Option<FaultReport>)
    ensures
        final(fx)@ == old(fx)@.mailed(events_mail(event_views(events@), *topics)),
        match stopping_event(event_views(events@)) {
            Some(fault) => r is Some && r->0@ == fault,
            None => r is None,
        },
{
    let ghost all = event_views(events@);
    let ghost begun = fx@;
    let mut left = events;
    let ghost mut sent: Seq<MailView> = Seq::empty();
    assert(begun.mailed(sent) =~= begun);
    while left.len() > 0
        invariant
            all == event_views(events@),
            begun == old(fx)@,
            fx@ == begun.mailed(sent),
            sent + events_mail(event_views(left@), *topics) == events_mail(all, *topics),
            stopping_event(event_views(left@)) == stopping_event(all),
        decreases left@.len(),
    {
        let ghost now = event_views(left@);
        let event = left.remove(0);
        let ghost rest = event_views(left@);
        proof {
            assert(now.first() == event@);
            assert(now.drop_first() =~= rest);
        }
        match publish_event(event, topics, fx) {
            Some(fault) => {
                assert(fx@ =~= begun.mailed(sent));
                assert(sent =~= events_mail(all, *topics));
                return Some(fault);
            },
            None => {},
        }
        proof {
            let more = event_mail(event@, *topics);
            assert(fx@ =~= begun.mailed(sent + more));
            assert(sent + more + events_mail(rest, *topics) =~= sent + (more + events_mail(
                rest,
                *topics,
            )));
            sent = sent + more;
        }
    }
    proof {
        assert(event_views(left@) =~= Seq::empty());
        assert(sent =~= events_mail(all, *topics));
    }
    None
}

/// How a pass counts: by its move if it made one, else by its events.
pub open spec fn sweep_outcome(
    report: DriverReport,
    events: Seq<EventView>,
) -> OutcomeView {
    match outcome_view(report.last_outcome) {
        Some(o) => o,
        None => match stopping_event(events) {
            Some(fault) => OutcomeView::AbortedErrorLoop(fault),
            None => OutcomeView::Completed,
        },
    }
}

/// Settle a pass. The position is persisted only after a completed move; where no
/// move was made, the pass's events are published.
pub fn tracking_tick(
    ctx: &mut MotionContext,
    events: Vec<MotionEvent>,
    report: DriverReport,
    topics: &MotionTopics,
    fx: &mut Effects,
) -> (r: MoveOutcome)
    ensures
        r@ == sweep_outcome(report, event_views(events@)),
        match outcome_view(report.last_outcome) {
            Some(OutcomeView::Completed) => {
                &&& *final(ctx) == (MotionContext {
                    actual_heading: report.location,
                    ..*old(ctx)
                })
                &&& final(fx)@ == old(fx)@.wrote(
                    position_writes(
                        old(ctx).switchboard.effects.persist_nvs,
                        report.location,
                        report.mode,
                        report.encoder_ticks,
                    ),
                )
            },
            Some(_) => *final(ctx) == *old(ctx) && final(fx)@ == old(fx)@,
            None => {
                &&& *final(ctx) == *old(ctx)
                &&& final(fx)@ == old(fx)@.mailed(
                    events_mail(event_views(events@), *topics),
                )
            },
        },
{
    match report.last_outcome {
        Some(MoveOutcome::Completed) => {
            ctx.actual_heading = report.location;
            persist_position(
                ctx.switchboard.effects.persist_nvs,
                report.location,
                report.mode,
                report.encoder_ticks,
                &mut fx.journal,
            );
            MoveOutcome::Completed
        },
        Some(outcome) => outcome,
        None => match publish_events(events, topics, fx) {
            Some(fault) => MoveOutcome::AbortedErrorLoop(fault),
            None => MoveOutcome::Completed,
        },
    }
}

/// The context after a look for a change into stepper-only mode.
pub open spec fn transition_seen(ctx: MotionContext) -> MotionContext {
    MotionContext {
        need_rehome: ctx.need_rehome || (ctx.motion_mode == MotionMode::StepperOnly
            && ctx.previous_motion_mode != MotionMode::StepperOnly),
        previous_motion_mode: ctx.motion_mode,
        ..ctx
    }
}

/// Ask for homing once when the tower changes into stepper-only mode.
pub fn detect_stepper_transition(ctx: &mut MotionContext)
    ensures
        *final(ctx) == transition_seen(*old(ctx)),
{
    if ctx.motion_mode == MotionMode::StepperOnly && ctx.previous_motion_mode
        != MotionMode::StepperOnly {
        ctx.need_rehome = true;
    }
    ctx.previous_motion_mode = ctx.motion_mode;
}

/// A change of mode is seen once: a second look finds nothing new.
pub proof fn a_transition_is_seen_once(ctx: MotionContext)
    ensures
        transition_seen(transition_seen(ctx)) == transition_seen(ctx),
{
}

/// Whether homing is pending.
pub open spec fn rehome_pending(ctx: MotionContext) -> bool {
    ctx.need_rehome && ctx.motion_mode == MotionMode::StepperOnly
}

pub open spec fn rehome_fault() -> FaultView {
    FaultView {
        component: Component::LimitSwitch,
        message: "Re-home failed after encoder recovery"@,
        notes: "Encoder recovery completed but subsequent re-home could not locate the limit switch."@,
    }
}

/// Settle a sweep that was made because homing was pending: the tower that found
/// home believes and persists it, the one that did not is stopped.
pub fn rehome_if_pending(ctx: &mut MotionContext, found: bool, fx: &mut Effects) -> (r: Option<
    FaultReport,
>)
    ensures
        found ==> {
            let home = old(ctx).switchboard.home_heading_deg;
            &&& r is None
            &&& *final(ctx) == (MotionContext {
                actual_heading: home,
                need_rehome: false,
                ..*old(ctx)
            })
            &&& final(fx)@ == old(fx)@.motored(seq![MotorCommand::UpdatePosition(home)]).wrote(
                seq![saved_heading(home)],
            )
        },
        !found ==> {
            &&& r is Some
            &&& r->0@ == rehome_fault()
            &&& *final(ctx) == *old(ctx)
            &&& final(fx)@ == old(fx)@
        },
{
    if !found {
        return Some(
            FaultReport::new(
                Component::LimitSwitch,
                "Re-home failed after encoder recovery",
                "Encoder recovery completed but subsequent re-home could not locate the limit switch.",
            ),
        );
    }
    let home = ctx.switchboard.home_heading_deg;
    ctx.actual_heading = home;
    fx.motor(MotorCommand::UpdatePosition(home));
    SnapshotStore::new(true).save_heading(home, &mut fx.journal);
    ctx.need_rehome = false;
    assert(fx@ =~= old(fx)@.motored(seq![MotorCommand::UpdatePosition(home)]).wrote(
        seq![saved_heading(home)],
    ));
    None
}

/// The context after its mode was brought in line with flash.
pub open spec fn mode_synced(ctx: MotionContext, mode: MotionMode) -> MotionContext {
    if mode == ctx.motion_mode {
        ctx
    } else {
        MotionContext {
            motion_mode: mode,
            need_rehome: ctx.need_rehome || mode == MotionMode::StepperOnly,
            ..ctx
        }
    }
}

pub open spec fn mode_commands(ctx: MotionContext, mode: MotionMode) -> Seq<MotorCommand> {
    if mode == ctx.motion_mode {
        Seq::empty()
    } else {
        seq![MotorCommand::SetMode(mode)]
    }
}

/// Bring the mode in line with flash; a change to stepper-only makes the tower home.
pub fn sync_motion_mode_from_nvs(
    ctx: &mut MotionContext,
    stored: Option<u8>,
    fx: &mut Effects,
)
    ensures
        *final(ctx) == mode_synced(*old(ctx), asked_mode(stored)),
        final(fx)@ == old(fx)@.wrote(mode_writes(stored)).motored(
            mode_commands(*old(ctx), asked_mode(stored)),
        ),
{
    let mode = SnapshotStore::new(true).load_tracking_mode_or_init(
        stored,
        MotionMode::EncoderGuarded,
        &mut fx.journal,
    );
    if mode != ctx.motion_mode {
        ctx.motion_mode = mode;
        fx.motor(MotorCommand::SetMode(mode));
        if mode == MotionMode::StepperOnly {
            ctx.need_rehome = true;
        }
    }
    assert(fx@ =~= old(fx)@.wrote(mode_writes(stored)).motored(
        mode_commands(*old(ctx), asked_mode(stored)),
    ));
}

/// A tower that changes into stepper-only mode by way of flash homes.
pub proof fn a_change_to_stepper_only_homes(ctx: MotionContext)
    requires
        ctx.motion_mode == MotionMode::EncoderGuarded,
    ensures
        rehome_pending(mode_synced(ctx, MotionMode::StepperOnly)),
{
}

/// What waiting for the next pass leads to.
pub open spec fn tracking_wait_leads(
    wait: MotionTrackingWait,
    ctx: MotionContext,
    messages: Seq<Message>,
    now: u64,
    before: EffectsView,
    after: EffectsView,
    r: StateResult,
) -> bool {
    match latest_maintenance(messages) {
        Some(action) => enters_maintenance(r, action, MotionState::Tracking)
            && after == before,
        None => {
            &&& after == before.mailed(
                seq![
                    MailView {
                        to: FSMAddress::Network,
                        message: Message::UpdateNetworkMotionContext(
                            ctx.motion_mode,
                            ctx.actual_heading,
                        ),
                    },
                ],
            )
            &&& r == (if now >= wait.begin + TRACKING_WAIT {
                StateResult::Running(MotionState::Tracking)
            } else {
                StateResult::Hold
            })
        },
    }
}

impl MotionTrackingWait {
    /// Wait for the next pass, telling the network machine where the tower is.
    pub fn process(
        &self,
        ctx: &MotionContext,
        inbox: &mut VecDeque<FSMCommand>,
        now: u64,
        fx: &mut Effects,
    ) -> (r: StateResult)
        ensures
            final(inbox)@.len() == 0,
            tracking_wait_leads(
                *self,
                *ctx,
                inbox_view(old(inbox)@),
                now,
                old(fx)@,
                final(fx)@,
                r,
            ),
    {
        match perform_maintenance_transition(inbox, MotionState::Tracking) {
            Some(result) => {
                return result;
            },
            None => {},
        }
        fx.mail(
            FSMAddress::Network,
            FSMCommand::UpdateNetworkMotionContext(ctx.motion_mode, ctx.actual_heading),
        );
        if now < self.begin || now - self.begin < TRACKING_WAIT {
            StateResult::Hold
        } else {
            StateResult::Running(MotionState::Tracking)
        }
    }
}

/// An answer that a sweeping pass was waiting for.
#[derive(Debug)]
pub enum SweepInput {
    Start,
    Daily { daily_mode: Option<u8>, stored_date: Option<String>, today: LocalDate },
    ModeAfterReset { stored: Option<u8> },
    /// Whether the sweep before tracking found the switch.
    Swept { found: bool },
    Mode { stored: Option<u8> },
    Probed { ok: bool, today: LocalDate },
    Compared { candidate: Single, drift: Single, encoder_ticks: i32 },
    ModeAgain { stored: Option<u8> },
    /// Whether the sweep after the recovery found the switch.
    SweptAgain { found: bool },
    Positioned { events: Vec<MotionEvent>, report: DriverReport },
}

/// What a sweeping pass waits for.
#[derive(Debug)]
pub enum SweepRequest {
    ReadDaily,
    ReadModeAfterReset,
    Sweep,
    ReadMode,
    Probe { steps: i64 },
    CompareHeading,
    ReadModeAgain,
    SweepAgain,
    Position,
    Finished(StateResult),
}

/// The pass is over, and the next one waits from `now`.
pub open spec fn waits(r: SweepRequest, now: u64) -> bool {
    r == SweepRequest::Finished(
        StateResult::Running(MotionState::TrackingWait(MotionTrackingWait { begin: now })),
    )
}

fn wait(now: u64) -> (r: SweepRequest)
    ensures
        waits(r, now),
{
    SweepRequest::Finished(
        StateResult::Running(MotionState::TrackingWait(MotionTrackingWait { begin: now })),
    )
}

/// The machine before or after a step.
#[verifier::ext_equal]
pub struct SweepState {
    pub ctx: MotionContext,
    pub fx: EffectsView,
}

/// After the daily check: sweep if homing is pending, else go on.
pub open spec fn gate_leads(before: MotionContext, after: MotionContext, r: SweepRequest) -> bool {
    &&& after == transition_seen(before)
    &&& r == (if rehome_pending(after) {
        SweepRequest::Sweep
    } else {
        SweepRequest::ReadMode
    })
}

fn gate(ctx: &mut MotionContext) -> (r: SweepRequest)
    ensures
        gate_leads(*old(ctx), *final(ctx), r),
{
    detect_stepper_transition(ctx);
    if ctx.need_rehome && ctx.motion_mode == MotionMode::StepperOnly {
        SweepRequest::Sweep
    } else {
        SweepRequest::ReadMode
    }
}

/// What the recovery's verdict leads to.
pub open spec fn sweep_after_fault(t: TickView, now: u64, r: SweepRequest) -> bool {
    match fault_verdict(t) {
        FaultVerdict::Rehome => r == SweepRequest::Finished(
            StateResult::Running(MotionState::BeginHoming),
        ),
        FaultVerdict::Hold => waits(r, now),
        FaultVerdict::Stop(fault) => r matches SweepRequest::Finished(result) && stops_with(
            result,
            fault,
        ),
        FaultVerdict::GoOn => r is ReadModeAgain,
    }
}

fn continue_after_fault(res: EncoderFaultRecoveryTickRes, now: u64) -> (r: SweepRequest)
    ensures
        sweep_after_fault(res@, now, r),
{
    if res.fault_still_active && !res.should_rehome {
        return wait(now);
    }
    match crate::logic::fsm::motion::tracking::settle_fault(res) {
        Some(result) => SweepRequest::Finished(result),
        None => SweepRequest::ReadModeAgain,
    }
}

/// What a recovery that begins at `now` leads to.
pub open spec fn sweep_tick_leads(
    recovery: EncoderFaultRecovery,
    cfg: EncoderRecoverySwitches,
    now: u64,
    r: SweepRequest,
) -> bool {
    if !recovery.engaged() {
        r is ReadModeAgain
    } else if !cfg.enabled {
        sweep_after_fault(crate::logic::encoder_fault::disabled_tick(), now, r)
    } else if !recovery.probe_due(now) {
        waits(r, now)
    } else {
        r == (SweepRequest::Probe { steps: cfg.probe_steps })
    }
}

fn after_tick(ctx: &MotionContext, now: u64) -> (r: SweepRequest)
    ensures
        sweep_tick_leads(
            ctx.encoder_fault,
            ctx.switchboard.runtime.encoder_recovery,
            now,
            r,
        ),
{
    match ctx.encoder_fault.tick(&ctx.switchboard.runtime.encoder_recovery, now) {
        TickStep::Finished(res) => continue_after_fault(res, now),
        TickStep::Probe { steps } => SweepRequest::Probe { steps },
    }
}

pub open spec fn sweep_probe_leads(
    before: SweepState,
    ok: bool,
    now: u64,
    today: LocalDate,
    after: SweepState,
    r: SweepRequest,
) -> bool {
    let cfg = before.ctx.switchboard.runtime.encoder_recovery;
    let given_up = !ok && before.ctx.encoder_fault.is_last_probe();
    &&& after.ctx == (MotionContext {
        encoder_fault: before.ctx.encoder_fault.after_probe_at(ok, cfg, now),
        ..before.ctx
    })
    &&& if ok {
        r is CompareHeading && after.fx == before.fx
    } else if given_up {
        &&& r is ReadModeAgain
        &&& after.fx == before.fx.wrote(given_up_writes(true, today)).motored(
            seq![MotorCommand::SetMode(MotionMode::StepperOnly)],
        )
    } else {
        waits(r, now) && after.fx == before.fx
    }
}

fn after_probing(
    ctx: &mut MotionContext,
    ok: bool,
    now: u64,
    today: &LocalDate,
    fx: &mut Effects,
) -> (r: SweepRequest)
    requires
        today.wf(),
        old(ctx).encoder_fault.wf(),
        old(ctx).encoder_fault.next_probe_fits(
            ok,
            old(ctx).switchboard.runtime.encoder_recovery,
            now,
        ),
    ensures
        final(ctx).encoder_fault.wf(),
        sweep_probe_leads(
            (SweepState { ctx: *old(ctx), fx: old(fx)@ }),
            ok,
            now,
            *today,
            (SweepState { ctx: *final(ctx), fx: final(fx)@ }),
            r,
        ),
{
    let cfg = ctx.switchboard.runtime.encoder_recovery;
    match ctx.encoder_fault.after_probe(
        ok,
        &cfg,
        now,
        true,
        today,
        &mut fx.motor,
        &mut fx.journal,
    ) {
        ProbeStep::Waiting(res) => {
            assert(fx@ =~= old(fx)@);
            continue_after_fault(res, now)
        },
        ProbeStep::GivenUp { result, notes: _ } => {
            assert(fx@ =~= old(fx)@.wrote(given_up_writes(true, *today)).motored(
                seq![MotorCommand::SetMode(MotionMode::StepperOnly)],
            ));
            continue_after_fault(result, now)
        },
        ProbeStep::Recovered => {
            assert(fx@ =~= old(fx)@);
            SweepRequest::CompareHeading
        },
    }
}

pub open spec fn sweep_compare_leads(
    before: SweepState,
    candidate: Single,
    drift: Single,
    encoder_ticks: i32,
    after: SweepState,
    r: SweepRequest,
) -> bool {
    if drift.le_spec(before.ctx.switchboard.runtime.encoder_recovery.max_drift_deg) {
        &&& r is ReadModeAgain
        &&& after.ctx == (MotionContext { actual_heading: candidate, ..before.ctx })
        &&& after.fx == before.fx.motored(seq![MotorCommand::UpdatePosition(candidate)]).wrote(
            position_writes(true, candidate, before.ctx.motion_mode, encoder_ticks),
        )
    } else {
        &&& r == SweepRequest::Finished(StateResult::Running(MotionState::BeginHoming))
        &&& after.ctx == before.ctx
        &&& after.fx == before.fx
    }
}

fn after_comparing(
    ctx: &mut MotionContext,
    candidate: Single,
    drift: Single,
    encoder_ticks: i32,
    now: u64,
    fx: &mut Effects,
) -> (r: SweepRequest)
    ensures
        final(ctx).encoder_fault == old(ctx).encoder_fault,
        sweep_compare_leads(
            (SweepState { ctx: *old(ctx), fx: old(fx)@ }),
            candidate,
            drift,
            encoder_ticks,
            (SweepState { ctx: *final(ctx), fx: final(fx)@ }),
            r,
        ),
{
    let cfg = ctx.switchboard.runtime.encoder_recovery;
    let mode = ctx.motion_mode;
    let res = after_comparison(
        &cfg,
        candidate,
        drift,
        mode,
        encoder_ticks,
        true,
        &mut ctx.actual_heading,
        &mut fx.motor,
        &mut fx.journal,
    );
    if !res.should_rehome {
        assert(fx@ =~= old(fx)@.motored(seq![MotorCommand::UpdatePosition(candidate)]).wrote(
            position_writes(true, candidate, mode, encoder_ticks),
        ));
    } else {
        assert(fx@ =~= old(fx)@);
    }
    continue_after_fault(res, now)
}

/// After the recovery: sweep if homing is pending, else track if tracking is on.
pub open spec fn track_leads(ctx: MotionContext, now: u64, r: SweepRequest) -> bool {
    if rehome_pending(ctx) {
        r is SweepAgain
    } else if ctx.switchboard.runtime.tracking.enabled {
        r is Position
    } else {
        waits(r, now)
    }
}

/// A sweep within a pass ends it.
pub open spec fn swept_leads(
    before: SweepState,
    found: bool,
    again: bool,
    now: u64,
    after: SweepState,
    r: SweepRequest,
) -> bool {
    if found {
        let home = before.ctx.switchboard.home_heading_deg;
        &&& after.ctx == (MotionContext {
            actual_heading: home,
            need_rehome: false,
            ..before.ctx
        })
        &&& after.fx == before.fx.motored(seq![MotorCommand::UpdatePosition(home)]).wrote(
            seq![saved_heading(home)],
        )
        &&& if again {
            waits(r, now)
        } else {
            r == SweepRequest::Finished(StateResult::Running(MotionState::BeginHoming))
        }
    } else {
        &&& after == before
        &&& r matches SweepRequest::Finished(result) && stops_with(result, rehome_fault())
    }
}

fn after_sweep(
    ctx: &mut MotionContext,
    found: bool,
    again: bool,
    now: u64,
    fx: &mut Effects,
) -> (r: SweepRequest)
    ensures
        final(ctx).encoder_fault == old(ctx).encoder_fault,
        swept_leads(
            (SweepState { ctx: *old(ctx), fx: old(fx)@ }),
            found,
            again,
            now,
            (SweepState { ctx: *final(ctx), fx: final(fx)@ }),
            r,
        ),
{
    match rehome_if_pending(ctx, found, fx) {
        Some(fault) => SweepRequest::Finished(error_loop(fault)),
        None => {
            if again {
                wait(now)
            } else {
                SweepRequest::Finished(StateResult::Running(MotionState::BeginHoming))
            }
        },
    }
}

/// The last step of a pass.
pub open spec fn sweep_position_leads(
    before: SweepState,
    events: Seq<EventView>,
    report: DriverReport,
    now: u64,
    topics: MotionTopics,
    after: SweepState,
    r: SweepRequest,
) -> bool {
    let moved = outcome_view(report.last_outcome);
    let outcome = sweep_outcome(report, events);
    &&& after.ctx == (MotionContext {
        actual_heading: if moved == Some(OutcomeView::Completed) {
            report.location
        } else {
            before.ctx.actual_heading
        },
        encoder_fault: before.ctx.encoder_fault.after_move(
            outcome,
            before.ctx.switchboard.runtime.encoder_recovery,
            now,
        ),
        ..before.ctx
    })
    &&& after.fx == (match moved {
        Some(OutcomeView::Completed) => before.fx.wrote(
            position_writes(
                before.ctx.switchboard.effects.persist_nvs,
                report.location,
                report.mode,
                report.encoder_ticks,
            ),
        ),
        Some(_) => before.fx,
        None => before.fx.mailed(events_mail(events, topics)),
    })
    &&& match outcome {
        OutcomeView::AbortedErrorLoop(fault) => {
            r matches SweepRequest::Finished(result) && stops_with(result, fault)
        },
        _ => waits(r, now),
    }
}

fn after_positioning(
    ctx: &mut MotionContext,
    events: Vec<MotionEvent>,
    report: DriverReport,
    now: u64,
    topics: &MotionTopics,
    fx: &mut Effects,
) -> (r: SweepRequest)
    requires
        old(ctx).encoder_fault.starts_with(sweep_outcome(report, event_views(events@)))
            ==> old(ctx).switchboard.runtime.encoder_recovery.interval_fits(now),
    ensures
        old(ctx).encoder_fault.wf() ==> final(ctx).encoder_fault.wf(),
        sweep_position_leads(
            (SweepState { ctx: *old(ctx), fx: old(fx)@ }),
            event_views(events@),
            report,
            now,
            *topics,
            (SweepState { ctx: *final(ctx), fx: final(fx)@ }),
            r,
        ),
{
    let outcome = tracking_tick(ctx, events, report, topics, fx);
    let cfg = ctx.switchboard.runtime.encoder_recovery;
    ctx.encoder_fault.on_move_outcome(&outcome, &cfg, now);
    match outcome {
        MoveOutcome::AbortedErrorLoop(fault) => SweepRequest::Finished(error_loop(fault)),
        _ => wait(now),
    }
}

pub open spec fn sweep_input_ok(ctx: MotionContext, input: SweepInput, now: u64) -> bool {
    let cfg = ctx.switchboard.runtime.encoder_recovery;
    match input {
        SweepInput::Daily { today, .. } => today.wf(),
        SweepInput::Probed { ok, today } => today.wf() && ctx.encoder_fault.wf()
            && ctx.encoder_fault.next_probe_fits(ok, cfg, now),
        SweepInput::Positioned { events, report } => ctx.encoder_fault.starts_with(
            sweep_outcome(report, event_views(events@)),
        ) ==> cfg.interval_fits(now),
        _ => true,
    }
}

/// A daily reset takes the mode from flash and gives the encoder another chance.
pub open spec fn reset_context(ctx: MotionContext, mode: MotionMode) -> MotionContext {
    MotionContext {
        motion_mode: mode,
        encoder_fault: EncoderFaultRecovery {
            mode_switched_daily: false,
            ..ctx.encoder_fault
        },
        ..ctx
    }
}

/// What an answer leads to.
pub open spec fn sweep_pass_leads(
    before: SweepState,
    messages: Seq<Message>,
    input: SweepInput,
    now: u64,
    topics: MotionTopics,
    after: SweepState,
    r: SweepRequest,
) -> bool {
    match input {
        SweepInput::Start => after == before && (match latest_maintenance(messages) {
            Some(action) => {
                r matches SweepRequest::Finished(result) && enters_maintenance(
                    result,
                    action,
                    MotionState::Tracking,
                )
            },
            None => r is ReadDaily,
        }),
        SweepInput::Daily { daily_mode, stored_date, today } => {
            &&& after.fx == before.fx.wrote(
                reset_writes(daily_mode, opt_text(stored_date), today, true),
            )
            &&& if reset_due(daily_mode, opt_text(stored_date), today) {
                r is ReadModeAfterReset && after.ctx == before.ctx
            } else {
                gate_leads(before.ctx, after.ctx, r)
            }
        },
        SweepInput::ModeAfterReset { stored } => {
            &&& gate_leads(reset_context(before.ctx, asked_mode(stored)), after.ctx, r)
            &&& after.fx == before.fx.wrote(mode_writes(stored)).motored(
                seq![MotorCommand::SetMode(asked_mode(stored))],
            )
        },
        SweepInput::Swept { found } => swept_leads(before, found, false, now, after, r),
        SweepInput::Mode { stored } => {
            &&& after.ctx == mode_synced(before.ctx, asked_mode(stored))
            &&& after.fx == before.fx.wrote(mode_writes(stored)).motored(
                mode_commands(before.ctx, asked_mode(stored)),
            )
            &&& sweep_tick_leads(
                before.ctx.encoder_fault,
                before.ctx.switchboard.runtime.encoder_recovery,
                now,
                r,
            )
        },
        SweepInput::Probed { ok, today } => sweep_probe_leads(before, ok, now, today, after, r),
        SweepInput::Compared { candidate, drift, encoder_ticks } => sweep_compare_leads(
            before,
            candidate,
            drift,
            encoder_ticks,
            after,
            r,
        ),
        SweepInput::ModeAgain { stored } => {
            &&& after.ctx == mode_synced(before.ctx, asked_mode(stored))
            &&& after.fx == before.fx.wrote(mode_writes(stored)).motored(
                mode_commands(before.ctx, asked_mode(stored)),
            )
            &&& track_leads(after.ctx, now, r)
        },
        SweepInput::SweptAgain { found } => swept_leads(before, found, true, now, after, r),
        SweepInput::Positioned { events, report } => sweep_position_leads(
            before,
            event_views(events@),
            report,
            now,
            topics,
            after,
            r,
        ),
    }
}

impl MotionTracking {
    /// Take an answer of a sweeping pass, and say what it waits for next.
    pub fn process_sweeping(
        &self,
        ctx: &mut MotionContext,
        input: SweepInput,
        inbox: &mut VecDeque<FSMCommand>,
        now: u64,
        topics: &MotionTopics,
        fx: &mut Effects,
    ) -> (r: SweepRequest)
        requires
            sweep_input_ok(*old(ctx), input, now),
        ensures
            input is Start ==> final(inbox)@.len() == 0,
            !(input is Start) ==> final(inbox)@ == old(inbox)@,
            old(ctx).encoder_fault.wf() ==> final(ctx).encoder_fault.wf(),
            sweep_pass_leads(
                (SweepState { ctx: *old(ctx), fx: old(fx)@ }),
                inbox_view(old(inbox)@),
                input,
                now,
                *topics,
                (SweepState { ctx: *final(ctx), fx: final(fx)@ }),
                r,
            ),
    {
        match input {
            SweepInput::Start => {
                match perform_maintenance_transition(inbox, MotionState::Tracking) {
                    Some(result) => SweepRequest::Finished(result),
                    None => SweepRequest::ReadDaily,
                }
            },
            SweepInput::Daily { daily_mode, stored_date, today } => {
                if daily_reset(daily_mode, &stored_date, &today, fx) {
                    SweepRequest::ReadModeAfterReset
                } else {
                    gate(ctx)
                }
            },
            SweepInput::ModeAfterReset { stored } => {
                let mode = SnapshotStore::new(true).load_tracking_mode_or_init(
                    stored,
                    MotionMode::EncoderGuarded,
                    &mut fx.journal,
                );
                ctx.motion_mode = mode;
                fx.motor(MotorCommand::SetMode(mode));
                ctx.encoder_fault.set_mode_switched_daily(false);
                assert(fx@ =~= old(fx)@.wrote(mode_writes(stored)).motored(
                    seq![MotorCommand::SetMode(asked_mode(stored))],
                ));
                gate(ctx)
            },
            SweepInput::Swept { found } => after_sweep(ctx, found, false, now, fx),
            SweepInput::Mode { stored } => {
                sync_motion_mode_from_nvs(ctx, stored, fx);
                after_tick(ctx, now)
            },
            SweepInput::Probed { ok, today } => after_probing(ctx, ok, now, &today, fx),
            SweepInput::Compared { candidate, drift, encoder_ticks } => after_comparing(
                ctx,
                candidate,
                drift,
                encoder_ticks,
                now,
                fx,
            ),
            SweepInput::ModeAgain { stored } => {
                sync_motion_mode_from_nvs(ctx, stored, fx);
                if ctx.need_rehome && ctx.motion_mode == MotionMode::StepperOnly {
                    SweepRequest::SweepAgain
                } else if ctx.switchboard.runtime.tracking.enabled {
                    SweepRequest::Position
                } else {
                    wait(now)
                }
            },
            SweepInput::SweptAgain { found } => after_sweep(ctx, found, true, now, fx),
            SweepInput::Positioned { events, report } => after_positioning(
                ctx,
                events,
                report,
                now,
                topics,
                fx,
            ),
        }
    }
}

} // verus!
