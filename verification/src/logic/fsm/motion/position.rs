//! Where the tower should point, and what a positioning pass reports.

use vstd::prelude::*;

use crate::ieee::{Double, Single};
use crate::json::{json_quote, quoted};
use crate::logic::fsm::mail::{FSMAddress, FSMCommand, MailView, Message};
use crate::logic::fsm::motion::context::{Effects, EffectsView, MotorCommand};
use crate::logic::fsm::motion::homing::{claims_home, near_home};
use crate::logic::types::{EventView, FaultReport, MotionEvent, MoveOutcome, OutcomeView};

verus! {

/// Whether it is day: after sunrise and not after sunset. An error of either
/// calculation is handed on, that of sunrise first.
pub fn is_daytime(after_sunrise: Result<bool, String>, after_sunset: Result<bool, String>) -> (r:
    Result<bool, String>)
    ensures
        match (after_sunrise, after_sunset) {
            (Ok(risen), Ok(set)) => r == Ok::<bool, String>(risen && !set),
            (Err(e), _) => r == Err::<bool, String>(e),
            (_, Err(e)) => r == Err::<bool, String>(e),
        },
{
    match (after_sunrise, after_sunset) {
        (Ok(risen), Ok(set)) => Ok(risen && !set),
        (Err(e), _) => Err(e),
        (_, Err(e)) => Err(e),
    }
}

/// The headings that daytime tracking keeps to.
#[derive(Debug, Clone, Copy)]
pub struct SoftLimits {
    pub enabled: bool,
    pub min: Double,
    pub max: Double,
}

/// A target heading brought within the limits.
pub open spec fn clamped(target: Double, limits: SoftLimits) -> Double {
    if limits.enabled && target.lt_spec(limits.min) {
        limits.min
    } else if limits.enabled && limits.max.lt_spec(target) {
        limits.max
    } else {
        target
    }
}

/// Bring a target heading within the limits.
pub fn clamp_target(target: Double, limits: &SoftLimits) -> (r: Double)
    ensures
        r == clamped(target, *limits),
{
    if !limits.enabled {
        return target;
    }
    if target.lt(limits.min) {
        limits.min
    } else if limits.max.lt(target) {
        limits.max
    } else {
        target
    }
}

/// With limits on, every target that is a number ends up within them.
pub proof fn a_clamped_target_is_within_limits(target: Double, limits: SoftLimits)
    requires
        limits.enabled,
        limits.min.le_spec(limits.max),
        !target.nan(),
    ensures
        limits.min.le_spec(clamped(target, limits)),
        clamped(target, limits).le_spec(limits.max),
{
}

/// A target within the limits is not changed.
pub proof fn clamping_leaves_good_targets_alone(target: Double, limits: SoftLimits)
    requires
        limits.min.le_spec(target),
        target.le_spec(limits.max),
    ensures
        clamped(target, limits) == target,
{
}

pub open spec fn within_deadband(offset: Double, deadband: Double) -> bool {
    offset.abs_spec().le_spec(deadband)
}

/// What a day pass does about the offset between target and heading.
#[derive(Debug, Clone, Copy, PartialEq, Eq, Structural)]
pub enum DayStep {
    /// The offset is too small to move for.
    Stay,
    /// Move by the offset, then go on with [`day_moved`].
    Move,
}

/// Decide whether an offset is worth a move. An offset that is not a number is.
pub fn day_offset(offset: Double, deadband: Double, fx: &mut Effects) -> (r: DayStep)
    ensures
        r == (if within_deadband(offset, deadband) {
            DayStep::Stay
        } else {
            DayStep::Move
        }),
        final(fx)@ == old(fx)@.motored(
            seq![
                if within_deadband(offset, deadband) {
                    MotorCommand::Disable
                } else {
                    MotorCommand::Enable
                },
            ],
        ),
{
    if offset.abs().le(deadband) {
        fx.motor(MotorCommand::Disable);
        DayStep::Stay
    } else {
        fx.motor(MotorCommand::Enable);
        DayStep::Move
    }
}

/// Whether a move counts as made: it completed, or the driver could not say.
pub open spec fn move_counts(outcome: Option<OutcomeView>) -> bool {
    outcome is None || outcome->0 is Completed
}

pub open spec fn outcome_view(outcome: Option<MoveOutcome>) -> Option<OutcomeView> {
    match outcome {
        Some(o) => Some(o@),
        None => None,
    }
}

/// Go on after a day move. The result is whether it counts as made; one that was
/// aborted changes nothing.
pub fn day_moved(outcome: &Option<MoveOutcome>, fx: &mut Effects) -> (r: bool)
    ensures
        r == move_counts(outcome_view(*outcome)),
        final(fx)@ == (if r {
            old(fx)@
        } else {
            old(fx)@.motored(seq![MotorCommand::Disable])
        }),
{
    let aborted = match outcome {
        Some(o) => !o.is_completed(),
        None => false,
    };
    if aborted {
        fx.motor(MotorCommand::Disable);
    }
    !aborted
}

/// Take the heading that a day move led to as the tower's, and report it. `angle` is
/// the report, in JSON.
pub fn day_reported(heading: Single, angle: String, fx: &mut Effects) -> (r: MotionEvent)
    ensures
        r@ == EventView::Angle(angle@),
        final(fx)@ == old(fx)@.motored(
            seq![MotorCommand::UpdatePosition(heading), MotorCommand::Disable],
        ),
{
    fx.motor(MotorCommand::UpdatePosition(heading));
    fx.motor(MotorCommand::Disable);
    assert(fx@ =~= old(fx)@.motored(
        seq![MotorCommand::UpdatePosition(heading), MotorCommand::Disable],
    ));
    MotionEvent::Angle(angle)
}

/// What positioning the tower led to.
#[derive(Debug)]
pub struct SetTowerPositionRes {
    pub tracking_done: bool,
    pub should_rehome: bool,
    pub message: Option<MotionEvent>,
}

/// What a day pass is about: the heading that it leads to, within the limits, and how
/// far that lies from the tower's.
#[derive(Debug, Clone, Copy)]
pub struct DayRun {
    pub target: Double,
    pub offset: Double,
}

impl DayRun {
    /// A pass that has not looked at the sun yet.
    pub fn new() -> (r: Self)
        ensures
            r == (DayRun { target: Double { bits: 0 }, offset: Double { bits: 0 } }),
    {
        DayRun { target: Double { bits: 0 }, offset: Double { bits: 0 } }
    }
}

/// An answer that a day pass was waiting for.
#[derive(Debug)]
pub enum DayInput {
    /// Whether the sun has risen, and whether it has set.
    Sun { after_sunrise: Result<bool, String>, after_sunset: Result<bool, String> },
    /// The heading towards the sun.
    Target { target: Double },
    /// How far the target lies from the heading.
    Offset { offset: Double },
    /// The move was tried.
    Moved { outcome: Option<MoveOutcome> },
    /// The heading that the move led to, and the report of it, in JSON.
    Reported { heading: Single, angle: String },
}

/// What a day pass waits for.
#[derive(Debug)]
pub enum DayRequest {
    /// The sun could not be calculated.
    Failed(String),
    /// It is night.
    Night,
    /// Calculate the heading towards the sun.
    ReadTarget,
    /// Calculate how far this heading lies from the tower's.
    ReadOffset { target: Double },
    /// Move by this offset.
    Move { offset: Double },
    /// Calculate the heading that a move by this offset, towards this target, led to,
    /// and write its report.
    Report { target: Double, offset: Double },
    /// The pass is over, with this to report.
    Done(Option<MotionEvent>),
}

/// What an answer of a day pass leads to.
pub open spec fn day_leads(
    before: EffectsView,
    run: DayRun,
    input: DayInput,
    limits: SoftLimits,
    deadband: Double,
    after: EffectsView,
    next: DayRun,
    r: DayRequest,
) -> bool {
    match input {
        DayInput::Sun { after_sunrise, after_sunset } => {
            &&& next == run
            &&& match (after_sunrise, after_sunset) {
                (Ok(risen), Ok(set)) => if risen && !set {
                    r is ReadTarget && after == before.motored(
                        seq![MotorCommand::ForceZeroIfLimitSwitchPressed],
                    )
                } else {
                    r is Night && after == before
                },
                (Err(e), _) => r == DayRequest::Failed(e) && after == before,
                (_, Err(e)) => r == DayRequest::Failed(e) && after == before,
            }
        },
        DayInput::Target { target } => {
            &&& r == (DayRequest::ReadOffset { target: clamped(target, limits) })
            &&& next == (DayRun { target: clamped(target, limits), ..run })
            &&& after == before
        },
        DayInput::Offset { offset } => {
            &&& next == (DayRun { offset, ..run })
            &&& if within_deadband(offset, deadband) {
                r == DayRequest::Done(None) && after == before.motored(
                    seq![MotorCommand::Disable],
                )
            } else {
                &&& r == (DayRequest::Move { offset })
                &&& after == before.motored(seq![MotorCommand::Enable])
            }
        },
        DayInput::Moved { outcome } => {
            &&& next == run
            &&& if move_counts(outcome_view(outcome)) {
                &&& r == (DayRequest::Report { target: run.target, offset: run.offset })
                &&& after == before
            } else {
                r == DayRequest::Done(None) && after == before.motored(
                    seq![MotorCommand::Disable],
                )
            }
        },
        DayInput::Reported { heading, angle } => {
            &&& next == run
            &&& r matches DayRequest::Done(Some(event))
            &&& event@ == EventView::Angle(angle@)
            &&& after == before.motored(
                seq![MotorCommand::UpdatePosition(heading), MotorCommand::Disable],
            )
        },
    }
}

/// Take an answer of a day pass, and say what it waits for next.
pub fn day_pass(
    input: DayInput,
    limits: &SoftLimits,
    deadband: Double,
    run: &mut DayRun,
    fx: &mut Effects,
) -> (r: DayRequest)
    ensures
        day_leads(old(fx)@, *old(run), input, *limits, deadband, final(fx)@, *final(run), r),
{
    match input {
        DayInput::Sun { after_sunrise, after_sunset } => match is_daytime(
            after_sunrise,
            after_sunset,
        ) {
            Ok(true) => {
                fx.motor(MotorCommand::ForceZeroIfLimitSwitchPressed);
                DayRequest::ReadTarget
            },
            Ok(false) => DayRequest::Night,
            Err(e) => DayRequest::Failed(e),
        },
        DayInput::Target { target } => {
            let target = clamp_target(target, limits);
            run.target = target;
            DayRequest::ReadOffset { target }
        },
        DayInput::Offset { offset } => {
            run.offset = offset;
            match day_offset(offset, deadband, fx) {
                DayStep::Stay => DayRequest::Done(None),
                DayStep::Move => DayRequest::Move { offset },
            }
        },
        DayInput::Moved { outcome } => if day_moved(&outcome, fx) {
            DayRequest::Report { target: run.target, offset: run.offset }
        } else {
            DayRequest::Done(None)
        },
        DayInput::Reported { heading, angle } => DayRequest::Done(
            Some(day_reported(heading, angle, fx)),
        ),
    }
}

/// A day pass moves the tower only for an offset beyond the deadband, and by that
/// offset.
pub proof fn a_small_offset_moves_nothing(
    before: EffectsView,
    run: DayRun,
    input: DayInput,
    limits: SoftLimits,
    deadband: Double,
    after: EffectsView,
    next: DayRun,
    r: DayRequest,
)
    requires
        day_leads(before, run, input, limits, deadband, after, next, r),
    ensures
        r matches DayRequest::Move { offset } ==> input == (DayInput::Offset { offset })
            && !within_deadband(offset, deadband),
{
}

/// A day move that counts is reported for the target of its pass, within the limits,
/// and the offset that it was made by.
pub proof fn a_day_move_is_reported_for_its_target(
    fx: Seq<EffectsView>,
    runs: Seq<DayRun>,
    target: Double,
    offset: Double,
    outcome: Option<MoveOutcome>,
    limits: SoftLimits,
    deadband: Double,
    r: Seq<DayRequest>,
)
    requires
        fx.len() == 4 && runs.len() == 4 && r.len() == 3,
        day_leads(
            fx[0],
            runs[0],
            DayInput::Target { target },
            limits,
            deadband,
            fx[1],
            runs[1],
            r[0],
        ),
        day_leads(
            fx[1],
            runs[1],
            DayInput::Offset { offset },
            limits,
            deadband,
            fx[2],
            runs[2],
            r[1],
        ),
        day_leads(
            fx[2],
            runs[2],
            DayInput::Moved { outcome },
            limits,
            deadband,
            fx[3],
            runs[3],
            r[2],
        ),
        move_counts(outcome_view(outcome)),
    ensures
        r[0] == (DayRequest::ReadOffset { target: clamped(target, limits) }),
        r[2] == (DayRequest::Report { target: clamped(target, limits), offset }),
{
}

/// A day pass that is over leaves the motor disabled.
pub proof fn a_day_pass_leaves_the_motor_disabled(
    before: EffectsView,
    run: DayRun,
    input: DayInput,
    limits: SoftLimits,
    deadband: Double,
    after: EffectsView,
    next: DayRun,
    r: DayRequest,
)
    requires
        day_leads(before, run, input, limits, deadband, after, next, r),
        r is Done,
    ensures
        after.motor.len() > 0,
        after.motor.last() == MotorCommand::Disable,
{
}

/// An answer that positioning was waiting for.
#[derive(Debug)]
pub enum PositionInput {
    Day(DayInput),
    /// How far the heading lies from home, and whether the limit switch is pressed.
    Home { distance: Single, switch_pressed: bool },
}

/// What positioning waits for.
#[derive(Debug)]
pub enum PositionRequest {
    /// The sun could not be calculated.
    Failed(String),
    ReadTarget,
    ReadOffset { target: Double },
    Move { offset: Double },
    Report { target: Double, offset: Double },
    /// It is night: look where the tower is.
    ReadHome,
    Done(SetTowerPositionRes),
}

/// What positioning waits for where a day pass waits for `r`.
pub open spec fn by_day(r: DayRequest, p: PositionRequest) -> bool {
    match r {
        DayRequest::Failed(e) => p == PositionRequest::Failed(e),
        DayRequest::Night => p is ReadHome,
        DayRequest::ReadTarget => p is ReadTarget,
        DayRequest::ReadOffset { target } => p == (PositionRequest::ReadOffset { target }),
        DayRequest::Move { offset } => p == (PositionRequest::Move { offset }),
        DayRequest::Report { target, offset } => p == (PositionRequest::Report { target, offset }),
        DayRequest::Done(message) => p == PositionRequest::Done(
            SetTowerPositionRes { tracking_done: true, should_rehome: false, message },
        ),
    }
}

/// What an answer of positioning leads to. By night, a tower that is at home, with
/// the switch to prove it, sleeps; any other is sent home.
pub open spec fn position_step_leads(
    before: EffectsView,
    run: DayRun,
    input: PositionInput,
    limits: SoftLimits,
    deadband: Double,
    after: EffectsView,
    next: DayRun,
    r: PositionRequest,
) -> bool {
    match input {
        PositionInput::Day(day) => exists|d: DayRequest|
            #[trigger] day_leads(before, run, day, limits, deadband, after, next, d)
                && by_day(d, r),
        PositionInput::Home { distance, switch_pressed } => {
            let asleep = near_home(distance) && switch_pressed;
            &&& next == run
            &&& r == PositionRequest::Done(
                SetTowerPositionRes {
                    tracking_done: asleep,
                    should_rehome: !asleep,
                    message: None,
                },
            )
            &&& after == (if asleep {
                before.motored(seq![MotorCommand::ForceZeroIfLimitSwitchPressed])
            } else {
                before
            })
        },
    }
}

/// Take an answer of positioning, and say what it waits for next.
pub fn set_tower_position(
    input: PositionInput,
    limits: &SoftLimits,
    deadband: Double,
    run: &mut DayRun,
    fx: &mut Effects,
) -> (r: PositionRequest)
    ensures
        position_step_leads(
            old(fx)@,
            *old(run),
            input,
            *limits,
            deadband,
            final(fx)@,
            *final(run),
            r,
        ),
{
    match input {
        PositionInput::Day(day) => {
            let step = day_pass(day, limits, deadband, run, fx);
            assert(day_leads(old(fx)@, *old(run), day, *limits, deadband, fx@, *run, step));
            match step {
                DayRequest::Failed(e) => PositionRequest::Failed(e),
                DayRequest::Night => PositionRequest::ReadHome,
                DayRequest::ReadTarget => PositionRequest::ReadTarget,
                DayRequest::ReadOffset { target } => PositionRequest::ReadOffset { target },
                DayRequest::Move { offset } => PositionRequest::Move { offset },
                DayRequest::Report { target, offset } => PositionRequest::Report { target, offset },
                DayRequest::Done(message) => PositionRequest::Done(
                    SetTowerPositionRes { tracking_done: true, should_rehome: false, message },
                ),
            }
        },
        PositionInput::Home { distance, switch_pressed } => {
            let asleep = claims_home(distance) && switch_pressed;
            if asleep {
                fx.motor(MotorCommand::ForceZeroIfLimitSwitchPressed);
            }
            PositionRequest::Done(
                SetTowerPositionRes {
                    tracking_done: asleep,
                    should_rehome: !asleep,
                    message: None,
                },
            )
        },
    }
}

/// The topics that positioning reports on.
#[derive(Debug)]
pub struct MotionTopics {
    pub data_angle: String,
    pub data_encoder_error_ticks: String,
}

/// The mail that publishes an event, if it is published.
pub open spec fn event_mail(event: EventView, topics: MotionTopics) -> Seq<MailView> {
    match event {
        EventView::Angle(payload) => seq![
            MailView {
                to: FSMAddress::Network,
                message: Message::MqttPublishJson(quoted(payload), topics.data_angle@),
            },
        ],
        EventView::HomeErrorTicks(payload) => seq![
            MailView {
                to: FSMAddress::Network,
                message: Message::MqttPublishJson(
                    quoted(payload),
                    topics.data_encoder_error_ticks@,
                ),
            },
        ],
        EventView::CheckForOTA => seq![
            MailView { to: FSMAddress::Network, message: Message::PerformOTA },
        ],
        EventView::ErrorLoop(_) => Seq::empty(),
    }
}

/// Publish an event. One that stops the tower is handed back instead.
pub fn publish_event(event: MotionEvent, topics: &MotionTopics, fx: &mut Effects) -> (r: Option<
    FaultReport,
>)
    ensures
        final(fx)@ == old(fx)@.mailed(event_mail(event@, *topics)),
        match event@ {
            EventView::ErrorLoop(fault) => r is Some && r->0@ == fault,
            _ => r is None,
        },
{
    match event {
        MotionEvent::Angle(payload) => {
            let serialized = json_quote(payload.as_str());
            fx.mail(
                FSMAddress::Network,
                FSMCommand::MqttPublishJson(serialized, topics.data_angle.as_str().to_owned()),
            );
            None
        },
        MotionEvent::HomeErrorTicks(payload) => {
            let serialized = json_quote(payload.as_str());
            fx.mail(
                FSMAddress::Network,
                FSMCommand::MqttPublishJson(
                    serialized,
                    topics.data_encoder_error_ticks.as_str().to_owned(),
                ),
            );
            None
        },
        MotionEvent::CheckForOTA => {
            fx.mail(FSMAddress::Network, FSMCommand::PerformOTA);
            None
        },
        MotionEvent::ErrorLoop(fault) => {
            assert(fx@ =~= old(fx)@.mailed(Seq::empty()));
            Some(fault)
        },
    }
}

} // verus!
