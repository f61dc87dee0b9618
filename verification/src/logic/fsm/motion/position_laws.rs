//! What positioning the tower may and may not do, by day and by night.

use vstd::prelude::*;

use crate::ieee::{Double, Single};
use crate::logic::fsm::motion::context::{EffectsView, MotorCommand};
use crate::logic::fsm::motion::position::{
    day_leads, position_step_leads, DayInput, DayRequest, DayRun, PositionInput, PositionRequest,
    SoftLimits,
};
use crate::logic::fsm::motion::sweep::{
    event_views, night_leads, NightInput, NightRequest, NightStep,
};
use crate::logic::types::{Component, EventView, MoveOutcome};

verus! {

/// By night a pass is done only for a tower that lies less than a hundredth of a degree
/// from home with its limit switch pressed; at every other distance and switch level it
/// asks for homing, and the motor is left alone. A tower that sleeps has its encoder
/// zeroed against the switch, and nothing else happens.
pub proof fn a_tower_sleeps_only_at_home(
    before: EffectsView,
    run: DayRun,
    distance: Single,
    switch_pressed: bool,
    limits: SoftLimits,
    deadband: Double,
    after: EffectsView,
    next: DayRun,
    r: PositionRequest,
)
    requires
        position_step_leads(
            before,
            run,
            PositionInput::Home { distance, switch_pressed },
            limits,
            deadband,
            after,
            next,
            r,
        ),
    ensures
        r matches PositionRequest::Done(res) && {
            &&& res.tracking_done <==> switch_pressed && distance.magnitude() < 0x3C23_D70A
            &&& res.should_rehome <==> !switch_pressed || distance.magnitude() >= 0x3C23_D70A
            &&& res.message is None
            &&& next == run
            &&& res.should_rehome ==> after == before
            &&& res.tracking_done ==> after.motor == before.motor.push(
                MotorCommand::ForceZeroIfLimitSwitchPressed,
            ) && after.mail == before.mail && after.writes == before.writes
        },
{
}

/// By night a tower never sleeps without its switch, and a tower that sleeps at some
/// distance sleeps at every smaller one.
pub proof fn nearer_is_no_worse(
    before: EffectsView,
    run: DayRun,
    near: Single,
    far: Single,
    switch_pressed: bool,
    limits: SoftLimits,
    deadband: Double,
    after: (EffectsView, EffectsView),
    next: (DayRun, DayRun),
    r: (PositionRequest, PositionRequest),
)
    requires
        near.magnitude() <= far.magnitude(),
        position_step_leads(
            before,
            run,
            PositionInput::Home { distance: near, switch_pressed },
            limits,
            deadband,
            after.0,
            next.0,
            r.0,
        ),
        position_step_leads(
            before,
            run,
            PositionInput::Home { distance: far, switch_pressed },
            limits,
            deadband,
            after.1,
            next.1,
            r.1,
        ),
    ensures
        r.1->Done_0.tracking_done ==> r.0->Done_0.tracking_done,
        !switch_pressed ==> r.0->Done_0.should_rehome && r.1->Done_0.should_rehome,
{
}

/// The sun decides between day and night: a day pass goes on where the sun has risen
/// and not set, a night pass where it has not risen or has set. An error of either
/// calculation ends the pass with it, that of sunrise first.
pub proof fn the_sun_decides(
    before: EffectsView,
    run: DayRun,
    after_sunrise: Result<bool, String>,
    after_sunset: Result<bool, String>,
    limits: SoftLimits,
    deadband: Double,
    after: EffectsView,
    next: DayRun,
    r: PositionRequest,
)
    requires
        position_step_leads(
            before,
            run,
            PositionInput::Day(DayInput::Sun { after_sunrise, after_sunset }),
            limits,
            deadband,
            after,
            next,
            r,
        ),
    ensures
        next == run,
        r is ReadTarget <==> after_sunrise == Ok::<bool, String>(true) && after_sunset == Ok::<
            bool,
            String,
        >(false),
        r is ReadHome <==> after_sunrise is Ok && after_sunset is Ok && !(after_sunrise->Ok_0
            && !after_sunset->Ok_0),
        r is Failed <==> after_sunrise is Err || after_sunset is Err,
        r matches PositionRequest::Failed(e) ==> e == (if after_sunrise is Err {
            after_sunrise->Err_0
        } else {
            after_sunset->Err_0
        }),
        r is ReadTarget ==> after.motor == before.motor.push(
            MotorCommand::ForceZeroIfLimitSwitchPressed,
        ),
        !(r is ReadTarget) ==> after == before,
{
}

/// The heading that a day pass leads to keeps to the limits where they are on: it lies
/// within them, it is the sun's where that lies within them, and it is never further
/// from the sun's than a limit. Where they are off it is the sun's.
pub proof fn a_day_target_keeps_to_the_limits(
    before: EffectsView,
    run: DayRun,
    target: Double,
    limits: SoftLimits,
    deadband: Double,
    after: EffectsView,
    next: DayRun,
    r: PositionRequest,
)
    requires
        position_step_leads(
            before,
            run,
            PositionInput::Day(DayInput::Target { target }),
            limits,
            deadband,
            after,
            next,
            r,
        ),
    ensures
        after == before,
        r matches PositionRequest::ReadOffset { target: led } && {
            &&& next.target == led && next.offset == run.offset
            &&& !limits.enabled ==> led == target
            &&& limits.enabled && !target.nan() && !limits.min.nan() && !limits.max.nan()
                && limits.min.rank() <= limits.max.rank() ==> {
                &&& limits.min.rank() <= led.rank() <= limits.max.rank()
                &&& limits.min.rank() <= target.rank() <= limits.max.rank() ==> led == target
                &&& target.rank() < limits.min.rank() ==> led == limits.min
                &&& target.rank() > limits.max.rank() ==> led == limits.max
            }
        },
{
}

/// A day pass moves by an offset exactly where its size is beyond the deadband,
/// whichever way it points, or is not a number; a smaller one ends the pass, with the
/// motor disabled and nothing to report.
pub proof fn a_tower_moves_for_an_offset_beyond_the_deadband(
    before: EffectsView,
    run: DayRun,
    offset: Double,
    limits: SoftLimits,
    deadband: Double,
    after: EffectsView,
    next: DayRun,
    r: PositionRequest,
)
    requires
        position_step_leads(
            before,
            run,
            PositionInput::Day(DayInput::Offset { offset }),
            limits,
            deadband,
            after,
            next,
            r,
        ),
        !deadband.nan(),
    ensures
        offset.nan() || offset.magnitude() > deadband.rank() ==> r == (PositionRequest::Move { offset })
            && after.motor == before.motor.push(MotorCommand::Enable),
        !offset.nan() && offset.magnitude() <= deadband.rank() ==> {
            &&& r matches PositionRequest::Done(res)
            &&& res.tracking_done && !res.should_rehome && res.message is None
            &&& after.motor == before.motor.push(MotorCommand::Disable)
        },
        next.offset == offset && next.target == run.target,
        after.mail == before.mail && after.writes == before.writes,
{
}

/// A move that completed, or that the driver could not tell about, is reported for the
/// pass's target and offset; one that was aborted ends the pass without a report. Only
/// a reported move updates the position.
pub proof fn only_a_made_move_is_reported(
    before: EffectsView,
    run: DayRun,
    outcome: Option<MoveOutcome>,
    limits: SoftLimits,
    deadband: Double,
    after: EffectsView,
    next: DayRun,
    r: PositionRequest,
)
    requires
        position_step_leads(
            before,
            run,
            PositionInput::Day(DayInput::Moved { outcome }),
            limits,
            deadband,
            after,
            next,
            r,
        ),
    ensures
        ({
            let made = outcome is None || outcome->0 is Completed;
            &&& made ==> r == (PositionRequest::Report { target: run.target, offset: run.offset })
                && after == before
            &&& !made ==> {
                &&& r matches PositionRequest::Done(res)
                &&& res.tracking_done && !res.should_rehome && res.message is None
                &&& after.motor == before.motor.push(MotorCommand::Disable)
            }
        }),
        next == run,
{
}

/// The report of a day move tells the motor the heading, disables it and carries the
/// report out.
pub proof fn a_reported_heading_is_adopted(
    before: EffectsView,
    run: DayRun,
    heading: Single,
    angle: String,
    limits: SoftLimits,
    deadband: Double,
    after: EffectsView,
    next: DayRun,
    r: PositionRequest,
)
    requires
        position_step_leads(
            before,
            run,
            PositionInput::Day(DayInput::Reported { heading, angle }),
            limits,
            deadband,
            after,
            next,
            r,
        ),
    ensures
        r matches PositionRequest::Done(res) && res.tracking_done && !res.should_rehome
            && res.message is Some && res.message->0@ == EventView::Angle(angle@),
        after.motor == before.motor.push(MotorCommand::UpdatePosition(heading)).push(
            MotorCommand::Disable,
        ),
        after.mail == before.mail && after.writes == before.writes,
{
}

/// The same pass on a tower that looks for home itself waits for the same things by
/// day.
pub proof fn both_towers_follow_the_sun_alike(
    before: EffectsView,
    run: DayRun,
    input: DayInput,
    limits: SoftLimits,
    deadband: Double,
    after: EffectsView,
    next: DayRun,
    r: NightRequest,
)
    requires
        night_leads(
            before,
            run,
            NightInput::Day(input),
            limits,
            deadband,
            after,
            next,
            r,
        ),
    ensures
        exists|p: PositionRequest|
            #[trigger] position_step_leads(
                before,
                run,
                PositionInput::Day(input),
                limits,
                deadband,
                after,
                next,
                p,
            ) && {
                &&& p is ReadTarget <==> r is ReadTarget
                &&& p is ReadHome <==> r is ReadHome
                &&& p is Failed <==> r is Failed
                &&& p matches PositionRequest::ReadOffset { target } ==> r
                    == (NightRequest::ReadOffset { target })
                &&& p matches PositionRequest::Move { offset } ==> r == (NightRequest::Move {
                    offset,
                })
                &&& p matches PositionRequest::Report { target, offset } ==> r
                    == (NightRequest::Report { target, offset })
                &&& p matches PositionRequest::Done(res) ==> {
                    &&& r matches NightRequest::Done { done, events }
                    &&& done == res.tracking_done
                    &&& event_views(events@) == (match res.message {
                        Some(event) => seq![event@],
                        None => Seq::empty(),
                    })
                }
            },
{
    let d = choose|d: DayRequest|
        #[trigger] day_leads(before, run, input, limits, deadband, after, next, d)
            && crate::logic::fsm::motion::sweep::by_day(d, r);
    let p = match d {
        DayRequest::Failed(e) => PositionRequest::Failed(e),
        DayRequest::Night => PositionRequest::ReadHome,
        DayRequest::ReadTarget => PositionRequest::ReadTarget,
        DayRequest::ReadOffset { target } => PositionRequest::ReadOffset { target },
        DayRequest::Move { offset } => PositionRequest::Move { offset },
        DayRequest::Report { target, offset } => PositionRequest::Report { target, offset },
        DayRequest::Done(message) => PositionRequest::Done(
            crate::logic::fsm::motion::position::SetTowerPositionRes {
                tracking_done: true,
                should_rehome: false,
                message,
            },
        ),
    };
    assert(crate::logic::fsm::motion::position::by_day(d, p));
    assert(position_step_leads(
        before,
        run,
        PositionInput::Day(input),
        limits,
        deadband,
        after,
        next,
        p,
    ));
}

/// By night a tower that looks for home itself sleeps at once only at home with its
/// switch pressed; at home without the switch it sweeps to verify that, and anywhere
/// else it sweeps home.
pub proof fn a_sweeping_tower_sleeps_only_at_home(
    before: EffectsView,
    run: DayRun,
    distance: Single,
    switch_pressed: bool,
    limits: SoftLimits,
    deadband: Double,
    after: EffectsView,
    next: DayRun,
    r: NightRequest,
)
    requires
        night_leads(
            before,
            run,
            NightInput::Home { distance, switch_pressed },
            limits,
            deadband,
            after,
            next,
            r,
        ),
    ensures
        next == run,
        r is Done <==> distance.magnitude() < 0x3C23_D70A && switch_pressed,
        r == NightRequest::Sweep(NightStep::Verify) <==> distance.magnitude() < 0x3C23_D70A
            && !switch_pressed,
        r == NightRequest::Sweep(NightStep::GoHome) <==> distance.magnitude() >= 0x3C23_D70A,
        r matches NightRequest::Done { done, events } ==> done && events@.len() == 0
            && after.motor == before.motor.push(MotorCommand::ForceZeroIfLimitSwitchPressed),
        !(r is Done) ==> after == before,
{
    if r is Done {
        assert(event_views(r->events@).len() == 0);
    }
}

/// A night sweep that looked for the switch and did not find it stops the tower with a
/// fault of the limit switch, and one that found it never does: the tower then sleeps,
/// and reports how far off the encoder was if that is known. A verification that could
/// not be made counts as one that failed.
pub proof fn a_night_sweep_ends_at_the_switch_or_stops(
    before: EffectsView,
    run: DayRun,
    step: NightStep,
    found: Option<bool>,
    error_ticks: Option<String>,
    limits: SoftLimits,
    deadband: Double,
    after: EffectsView,
    next: DayRun,
    r: NightRequest,
)
    requires
        !(step is Sleep),
        night_leads(
            before,
            run,
            NightInput::Swept { step, found, error_ticks },
            limits,
            deadband,
            after,
            next,
            r,
        ),
    ensures
        r is Done,
        found == Some(true) ==> r->done,
        found == Some(false) ==> !r->done,
        found is None ==> (r->done <==> step is GoHome),
        !r->done ==> r->events@.len() > 0 && (r->events@.last()@ matches EventView::ErrorLoop(
            fault,
        ) && fault.component == Component::LimitSwitch),
        r->done ==> forall|i: int|
            0 <= i < r->events@.len() ==> !((#[trigger] r->events@[i])@ is ErrorLoop),
        found == Some(true) && error_ticks is Some ==> r->events@.len() == 1 && r->events@[0]@
            == EventView::HomeErrorTicks(error_ticks->0@),
        after.motor == before.motor || after.motor == before.motor.push(
            MotorCommand::ForceZeroIfLimitSwitchPressed,
        ),
        step is Verify ==> (r->done <==> after.motor.len() == before.motor.len() + 1),
        step is GoHome ==> after == before,
{
    let events = r->events@;
    let views = event_views(events);
    assert(views.len() == events.len());
    assert forall|i: int| 0 <= i < events.len() implies views[i] == (#[trigger] events[i])@ by {}
    if events.len() > 0 {
        assert(views.last() == events.last()@);
    }
}

} // verus!
