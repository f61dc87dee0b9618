//! What a tracking pass may and may not do.
//!
//! Each law speaks of one step of a pass, from the answer that it took to what it
//! waits for next, by what the machine held before and after.

use vstd::prelude::*;

use crate::logic::encoder_fault::NANOS_PER_SEC;
use crate::logic::fsm::mail::{FSMAddress, MailView, Message};
use crate::logic::fsm::motion::context::{
    MaintenanceAction, MotionState, MotorCommand, StateResult,
};
use crate::logic::fsm::motion::position::MotionTopics;
use crate::logic::fsm::motion::tracking::{
    pass_leads, PassState, TrackingInput, TrackingRequest,
};
use crate::logic::types::{Component, Direction, MotionEvent, MotionMode, MoveOutcome};
use crate::storage::laws::replay_appended;
use crate::storage::snapshot_store::{
    NvsImage, NVS_KEY_ENCODER_DAILY_MODE, NVS_KEY_ENCODER_MODE_RESET_DATE, NVS_KEY_ENC_TICKS_ADJ,
    NVS_KEY_HEADING, NVS_KEY_TRACKING_MODE,
};

verus! {

/// A pass that learns that homing is pending, at either gate, ends with homing and
/// does nothing else.
pub proof fn pending_homing_ends_the_pass(
    before: PassState,
    messages: Seq<Message>,
    input: TrackingInput,
    topics: MotionTopics,
    after: PassState,
    r: TrackingRequest,
)
    requires
        pass_leads(before, messages, input, topics, after, r),
        input == (TrackingInput::RehomePending { pending: true }) || input
            == (TrackingInput::RehomePendingAgain { pending: true }),
    ensures
        r == TrackingRequest::Finished(StateResult::Running(MotionState::BeginHoming)),
        after.ctx == before.ctx && after.driver == before.driver && after.fx == before.fx,
{
}

/// The tower is positioned exactly on the answer that no homing is pending, once the
/// recovery is through, and only where tracking is on at all. Where it is off the pass
/// ends there and the machine stays.
pub proof fn positioning_takes_the_answer_that_no_homing_is_pending(
    before: PassState,
    messages: Seq<Message>,
    input: TrackingInput,
    topics: MotionTopics,
    after: PassState,
    r: TrackingRequest,
)
    requires
        pass_leads(before, messages, input, topics, after, r),
    ensures
        r is Position <==> input == (TrackingInput::RehomePendingAgain { pending: false })
            && before.ctx.switchboard.runtime.tracking.enabled,
        r is Position ==> after.ctx == before.ctx && after.driver == before.driver && after.fx
            == before.fx,
        input == (TrackingInput::RehomePendingAgain { pending: false })
            && !before.ctx.switchboard.runtime.tracking.enabled ==> r
            == TrackingRequest::Finished(StateResult::Hold) && !after.driver.need_rehome
            && after.ctx == before.ctx && after.fx == before.fx,
        r is ReadMode <==> input == (TrackingInput::RehomePending { pending: false }),
        r is AskRehomePendingAgain <==> input is ModeAgain,
{
}

/// While a fault is active, the encoder is not given up, recovery is on and its probe
/// is not due, the pass ends and the machine stays as it is: the tower neither homes
/// nor probes nor tracks.
pub proof fn a_tower_stands_still_until_its_probe(
    before: PassState,
    messages: Seq<Message>,
    stored: Option<u8>,
    now: u64,
    topics: MotionTopics,
    after: PassState,
    r: TrackingRequest,
)
    requires
        pass_leads(
            before,
            messages,
            TrackingInput::Mode { stored, now },
            topics,
            after,
            r,
        ),
        before.ctx.encoder_fault.active,
        !before.ctx.encoder_fault.mode_switched_daily,
        before.ctx.switchboard.runtime.encoder_recovery.enabled,
        before.ctx.encoder_fault.next_probe_at is Some,
        now < before.ctx.encoder_fault.next_probe_at->0,
    ensures
        r == TrackingRequest::Finished(StateResult::Hold),
        after.ctx == before.ctx,
{
}

/// A probe is asked for exactly of a tower with an active fault whose encoder is not
/// given up, whose recovery is on and whose probe is due, and by the steps that are
/// configured.
pub proof fn a_probe_is_made_when_it_is_due(
    before: PassState,
    messages: Seq<Message>,
    input: TrackingInput,
    topics: MotionTopics,
    after: PassState,
    r: TrackingRequest,
)
    requires
        pass_leads(before, messages, input, topics, after, r),
    ensures
        r is Probe <==> {
            &&& input is Mode
            &&& before.ctx.encoder_fault.active
            &&& !before.ctx.encoder_fault.mode_switched_daily
            &&& before.ctx.switchboard.runtime.encoder_recovery.enabled
            &&& before.ctx.encoder_fault.next_probe_at is None
                || before.ctx.encoder_fault.next_probe_at->0 <= input->Mode_now
        },
        r matches TrackingRequest::Probe { steps } ==> steps
            == before.ctx.switchboard.runtime.encoder_recovery.probe_steps && after.ctx
            == before.ctx,
{
}

/// A fault stops a tower whose recovery is switched off, and says so.
pub proof fn a_fault_stops_a_tower_without_recovery(
    before: PassState,
    messages: Seq<Message>,
    stored: Option<u8>,
    now: u64,
    topics: MotionTopics,
    after: PassState,
    r: TrackingRequest,
)
    requires
        pass_leads(
            before,
            messages,
            TrackingInput::Mode { stored, now },
            topics,
            after,
            r,
        ),
        before.ctx.encoder_fault.active,
        !before.ctx.encoder_fault.mode_switched_daily,
        !before.ctx.switchboard.runtime.encoder_recovery.enabled,
    ensures
        r matches TrackingRequest::Finished(StateResult::Running(MotionState::ErrorLoop(fault)))
            && fault.component == Component::System && fault.message@
            == "Encoder fault recovery disabled in switchboard"@,
        after.ctx == before.ctx,
{
}

/// A tower without a fault, or whose encoder is given up for the day, goes on with its
/// pass.
pub proof fn a_sound_tower_goes_on(
    before: PassState,
    messages: Seq<Message>,
    stored: Option<u8>,
    now: u64,
    topics: MotionTopics,
    after: PassState,
    r: TrackingRequest,
)
    requires
        pass_leads(
            before,
            messages,
            TrackingInput::Mode { stored, now },
            topics,
            after,
            r,
        ),
    ensures
        r is ReadModeAgain <==> !before.ctx.encoder_fault.active
            || before.ctx.encoder_fault.mode_switched_daily,
        after.ctx == before.ctx,
{
}

/// Reading the mode makes the driver follow flash, where anything but the code of
/// stepper-only stands for the guarded mode. A change to stepper-only asks for homing,
/// and nothing else does; the motor hears of a change and of nothing else. A mode that
/// was never stored is stored as guarded.
pub proof fn the_driver_follows_the_stored_mode(
    before: PassState,
    messages: Seq<Message>,
    input: TrackingInput,
    stored: Option<u8>,
    topics: MotionTopics,
    after: PassState,
    r: TrackingRequest,
)
    requires
        pass_leads(before, messages, input, topics, after, r),
        (input is Mode && input->Mode_stored == stored) || input == (TrackingInput::ModeAgain {
            stored,
        }),
    ensures
        after.driver.motion_mode == MotionMode::StepperOnly <==> stored == Some(1u8),
        after.driver.need_rehome <==> before.driver.need_rehome || (stored == Some(1u8)
            && before.driver.motion_mode == MotionMode::EncoderGuarded),
        after.ctx == before.ctx,
        after.driver.motion_mode == before.driver.motion_mode ==> after.fx.motor
            == before.fx.motor,
        after.driver.motion_mode != before.driver.motion_mode ==> after.fx.motor
            == before.fx.motor.push(MotorCommand::SetMode(after.driver.motion_mode)),
        stored is Some ==> after.fx.writes == before.fx.writes,
        forall|image: NvsImage|
            stored is None ==> (#[trigger] image.replayed(after.fx.writes)).u8_at(
                NVS_KEY_TRACKING_MODE@,
            ) == Some(2u8),
{
    assert forall|image: NvsImage| stored is None implies (#[trigger] image.replayed(
        after.fx.writes,
    )).u8_at(NVS_KEY_TRACKING_MODE@) == Some(2u8) by {
        replay_appended(image, before.fx.writes, after.fx.writes);
    }
}

/// A probe that the encoder follows ends the fault, forgets the failures and leads to
/// the comparison of headings.
pub proof fn a_good_probe_ends_the_fault(
    before: PassState,
    messages: Seq<Message>,
    input: TrackingInput,
    topics: MotionTopics,
    after: PassState,
    r: TrackingRequest,
)
    requires
        pass_leads(before, messages, input, topics, after, r),
        input is Probed,
    ensures
        r is CompareHeading <==> input->ok,
        input->ok ==> {
            &&& !after.ctx.encoder_fault.active
            &&& after.ctx.encoder_fault.next_probe_at is None
            &&& after.ctx.encoder_fault.probe_failure_count == 0
            &&& after.ctx.encoder_fault.mode_switched_daily
                == before.ctx.encoder_fault.mode_switched_daily
            &&& after.driver == before.driver && after.fx == before.fx
        },
        after.ctx.actual_heading == before.ctx.actual_heading,
        after.ctx.switchboard == before.ctx.switchboard,
{
}

/// A first or second probe that fails counts, plans the next one an interval later and
/// ends the pass; the fault stays, and neither the driver nor flash hears of it.
pub proof fn a_bad_probe_is_repeated(
    before: PassState,
    messages: Seq<Message>,
    input: TrackingInput,
    topics: MotionTopics,
    after: PassState,
    r: TrackingRequest,
)
    requires
        pass_leads(before, messages, input, topics, after, r),
        input is Probed,
        !input->ok,
        before.ctx.encoder_fault.probe_failure_count < 2,
        input->Probed_now
            + before.ctx.switchboard.runtime.encoder_recovery.probe_interval_secs * NANOS_PER_SEC
            <= u64::MAX,
    ensures
        r == TrackingRequest::Finished(StateResult::Hold),
        after.ctx.encoder_fault.probe_failure_count
            == before.ctx.encoder_fault.probe_failure_count + 1,
        after.ctx.encoder_fault.active == before.ctx.encoder_fault.active,
        after.ctx.encoder_fault.mode_switched_daily
            == before.ctx.encoder_fault.mode_switched_daily,
        after.ctx.encoder_fault.next_probe_at is Some,
        after.ctx.encoder_fault.next_probe_at->0 - input->Probed_now
            == before.ctx.switchboard.runtime.encoder_recovery.probe_interval_secs
            * 1_000_000_000,
        after.driver == before.driver && after.fx == before.fx,
{
}

/// The third probe in a row that fails gives the encoder up for the day: the fault is
/// over, the driver goes by steps alone, flash holds that mode, the flag and the day,
/// and the pass goes on.
pub proof fn the_third_bad_probe_gives_the_encoder_up(
    before: PassState,
    messages: Seq<Message>,
    input: TrackingInput,
    topics: MotionTopics,
    after: PassState,
    r: TrackingRequest,
    image: NvsImage,
)
    requires
        pass_leads(before, messages, input, topics, after, r),
        input is Probed,
        !input->ok,
        before.ctx.encoder_fault.probe_failure_count >= 2,
    ensures
        r is ReadModeAgain,
        !after.ctx.encoder_fault.active,
        after.ctx.encoder_fault.mode_switched_daily,
        after.ctx.encoder_fault.probe_failure_count == 0,
        after.driver.motion_mode == MotionMode::StepperOnly,
        after.driver.need_rehome == before.driver.need_rehome,
        after.fx.motor == before.fx.motor.push(MotorCommand::SetMode(MotionMode::StepperOnly)),
        ({
            let flash = image.replayed(after.fx.writes);
            &&& flash.u8_at(NVS_KEY_TRACKING_MODE@) == Some(1u8)
            &&& flash.u8_at(NVS_KEY_ENCODER_DAILY_MODE@) == Some(1u8)
            &&& flash.str_at(NVS_KEY_ENCODER_MODE_RESET_DATE@) == Some(
                input->Probed_today.text(),
            )
        }),
{
    replay_appended(image, before.fx.writes, after.fx.writes);
    crate::storage::laws::keys_differ();
}

/// A heading that lies at most the permitted drift away is adopted, told to the motor
/// and stored, and the pass goes on. One that lies further away, or whose drift is not
/// a number, sends the tower home and changes nothing.
pub proof fn a_drifted_heading_is_not_adopted(
    before: PassState,
    messages: Seq<Message>,
    input: TrackingInput,
    topics: MotionTopics,
    after: PassState,
    r: TrackingRequest,
    image: NvsImage,
)
    requires
        pass_leads(before, messages, input, topics, after, r),
        input is Compared,
    ensures
        ({
            let limit = before.ctx.switchboard.runtime.encoder_recovery.max_drift_deg;
            let drift = input->drift;
            let close = !drift.nan() && !limit.nan() && drift.rank() <= limit.rank();
            &&& close ==> {
                &&& r is ReadModeAgain
                &&& after.ctx.actual_heading == input->candidate
                &&& after.fx.motor == before.fx.motor.push(
                    MotorCommand::UpdatePosition(input->candidate),
                )
                &&& image.replayed(after.fx.writes).u32_at(NVS_KEY_HEADING@) == Some(
                    input->candidate.bits,
                )
                &&& before.driver.motion_mode == MotionMode::EncoderGuarded ==> image.replayed(
                    after.fx.writes,
                ).i32_at(NVS_KEY_ENC_TICKS_ADJ@) == Some(input->Compared_encoder_ticks)
            }
            &&& !close ==> {
                &&& r == TrackingRequest::Finished(
                    StateResult::Running(MotionState::BeginHoming),
                )
                &&& after.ctx == before.ctx && after.fx == before.fx
            }
        }),
        after.driver == before.driver,
        after.ctx.encoder_fault == before.ctx.encoder_fault,
{
    replay_appended(image, before.fx.writes, after.fx.writes);
    crate::storage::laws::keys_differ();
}

/// The tower believes a new heading after a pass exactly where the pass completed a
/// move, and then the one that the driver reports; flash holds it where the tower
/// persists, and else nothing is written.
pub proof fn only_a_completed_move_changes_the_heading(
    before: PassState,
    messages: Seq<Message>,
    input: TrackingInput,
    topics: MotionTopics,
    after: PassState,
    r: TrackingRequest,
    image: NvsImage,
)
    requires
        pass_leads(before, messages, input, topics, after, r),
        input is Positioned,
    ensures
        ({
            let report = input->report;
            let completed = report.last_outcome matches Some(MoveOutcome::Completed);
            let persist = before.ctx.switchboard.effects.persist_nvs;
            &&& after.ctx.actual_heading == (if completed {
                report.location
            } else {
                before.ctx.actual_heading
            })
            &&& completed && persist ==> image.replayed(after.fx.writes).u32_at(
                NVS_KEY_HEADING@,
            ) == Some(report.location.bits)
            &&& completed && persist && report.mode == MotionMode::EncoderGuarded
                ==> image.replayed(after.fx.writes).i32_at(NVS_KEY_ENC_TICKS_ADJ@) == Some(
                report.encoder_ticks,
            )
            &&& !completed || !persist ==> after.fx.writes == before.fx.writes
        }),
        after.fx.motor == before.fx.motor,
        report_is_silent(input) ==> after.fx.mail == before.fx.mail,
{
    replay_appended(image, before.fx.writes, after.fx.writes);
    crate::storage::laws::keys_differ();
}

/// A pass that made a move, or has nothing to report.
pub open spec fn report_is_silent(input: TrackingInput) -> bool {
    input matches TrackingInput::Positioned { res, report, .. } && (report.last_outcome is Some
        || res.message is None)
}

/// How a pass ends: with homing where positioning asks for it and no fault stops the
/// tower, stopped where a fault does, and else where it is. The driver remembers
/// exactly whether homing was asked for.
pub proof fn a_pass_ends_as_positioning_went(
    before: PassState,
    messages: Seq<Message>,
    input: TrackingInput,
    topics: MotionTopics,
    after: PassState,
    r: TrackingRequest,
)
    requires
        pass_leads(before, messages, input, topics, after, r),
        input is Positioned,
    ensures
        ({
            let res = input->res;
            let last = input->report.last_outcome;
            let unmoved_fault = last is None && (res.message matches Some(
                MotionEvent::ErrorLoop(_),
            ));
            let moved_fault = last matches Some(MoveOutcome::AbortedErrorLoop(_));
            let homes = res.should_rehome && !unmoved_fault;
            &&& after.driver.need_rehome == homes
            &&& after.driver.motion_mode == before.driver.motion_mode
            &&& homes <==> r == TrackingRequest::Finished(
                StateResult::Running(MotionState::BeginHoming),
            )
            &&& !homes && (unmoved_fault || moved_fault) <==> (r matches
                TrackingRequest::Finished(StateResult::Running(MotionState::ErrorLoop(_))))
            &&& !homes && !unmoved_fault && !moved_fault <==> r == TrackingRequest::Finished(
                StateResult::Hold,
            )
        }),
{
}

/// A stall or an overshoot starts a recovery, whose first probe is due an interval
/// later, unless the encoder is given up; no other end of a pass touches the recovery.
pub proof fn a_stalled_pass_starts_a_recovery(
    before: PassState,
    messages: Seq<Message>,
    input: TrackingInput,
    topics: MotionTopics,
    after: PassState,
    r: TrackingRequest,
)
    requires
        pass_leads(before, messages, input, topics, after, r),
        input is Positioned,
        input->Positioned_now
            + before.ctx.switchboard.runtime.encoder_recovery.probe_interval_secs * NANOS_PER_SEC
            <= u64::MAX,
    ensures
        ({
            let last = input->report.last_outcome;
            let slipped = (last matches Some(MoveOutcome::AbortedStall)) || (last matches Some(
                MoveOutcome::AbortedOvershoot,
            ));
            let starts = slipped && !before.ctx.encoder_fault.mode_switched_daily;
            &&& starts ==> {
                &&& after.ctx.encoder_fault.active
                &&& after.ctx.encoder_fault.next_probe_at is Some
                &&& after.ctx.encoder_fault.next_probe_at->0 - input->Positioned_now
                    == before.ctx.switchboard.runtime.encoder_recovery.probe_interval_secs
                    * 1_000_000_000
                &&& after.ctx.encoder_fault.probe_failure_count
                    == before.ctx.encoder_fault.probe_failure_count
                &&& !after.ctx.encoder_fault.mode_switched_daily
            }
            &&& !starts ==> after.ctx.encoder_fault == before.ctx.encoder_fault
        }),
{
}

/// A button pressed before a pass begins sends the tower into maintenance, from which
/// it comes back to tracking; nothing else keeps a pass from beginning. Either way the
/// network machine is told the mode and the heading, once.
pub proof fn buttons_go_before_tracking(
    before: PassState,
    messages: Seq<Message>,
    topics: MotionTopics,
    after: PassState,
    r: TrackingRequest,
)
    requires
        pass_leads(before, messages, TrackingInput::Start, topics, after, r),
    ensures
        ({
            let pressed = messages.len() > 0 && (messages.last() is CWPressed || messages.last()
                is CCWPressed || messages.last() is MaintenancePressed);
            &&& r is ReadDaily <==> !pressed
            &&& pressed ==> {
                &&& r matches TrackingRequest::Finished(
                    StateResult::Running(MotionState::Maintenance(m)),
                )
                &&& m.return_to matches Some(state) && *state == MotionState::Tracking
                &&& m.action == (if messages.last() is CWPressed {
                    MaintenanceAction::Moving(Direction::Cw)
                } else if messages.last() is CCWPressed {
                    MaintenanceAction::Moving(Direction::Ccw)
                } else {
                    MaintenanceAction::Idle
                })
            }
        }),
        after.ctx == before.ctx && after.driver == before.driver,
        after.fx.mail == before.fx.mail.push(
            MailView {
                to: FSMAddress::Network,
                message: Message::UpdateNetworkMotionContext(
                    before.driver.motion_mode,
                    before.ctx.actual_heading,
                ),
            },
        ),
        after.fx.motor == before.fx.motor && after.fx.writes == before.fx.writes,
{
}

/// The daily check asks for the mode again exactly where the encoder was given up on
/// another day than today, and goes on to the first gate otherwise.
pub proof fn another_day_is_noticed(
    before: PassState,
    messages: Seq<Message>,
    input: TrackingInput,
    topics: MotionTopics,
    after: PassState,
    r: TrackingRequest,
    image: NvsImage,
)
    requires
        pass_leads(before, messages, input, topics, after, r),
        input is Daily,
    ensures
        ({
            let other_day = input->daily_mode == Some(1u8) && input->stored_date is Some
                && input->stored_date->0@ != input->Daily_today.text();
            &&& other_day <==> r is ReadModeAfterReset
            &&& !other_day <==> r is AskRehomePending
            &&& other_day ==> {
                let flash = image.replayed(after.fx.writes);
                &&& flash.u8_at(NVS_KEY_TRACKING_MODE@) == Some(2u8)
                &&& flash.u8_at(NVS_KEY_ENCODER_DAILY_MODE@) == Some(0u8)
                &&& flash.str_at(NVS_KEY_ENCODER_MODE_RESET_DATE@) == Some(
                    input->Daily_today.text(),
                )
            }
            &&& !other_day && !(input->daily_mode == Some(1u8) && input->stored_date is None)
                ==> after.fx.writes == before.fx.writes
        }),
        after.ctx == before.ctx && after.driver == before.driver,
        after.fx.motor == before.fx.motor && after.fx.mail == before.fx.mail,
{
    replay_appended(image, before.fx.writes, after.fx.writes);
    crate::storage::laws::keys_differ();
}

/// A daily reset gives the encoder another chance: it is no longer given up, and the
/// driver and the motor take the mode that flash now holds.
pub proof fn a_reset_gives_another_chance(
    before: PassState,
    messages: Seq<Message>,
    stored: Option<u8>,
    topics: MotionTopics,
    after: PassState,
    r: TrackingRequest,
)
    requires
        pass_leads(
            before,
            messages,
            TrackingInput::ModeAfterReset { stored },
            topics,
            after,
            r,
        ),
    ensures
        r is AskRehomePending,
        !after.ctx.encoder_fault.mode_switched_daily,
        after.ctx.encoder_fault.active == before.ctx.encoder_fault.active,
        after.ctx.actual_heading == before.ctx.actual_heading,
        after.driver.motion_mode == MotionMode::StepperOnly <==> stored == Some(1u8),
        after.driver.need_rehome == before.driver.need_rehome,
        after.fx.motor == before.fx.motor.push(MotorCommand::SetMode(after.driver.motion_mode)),
{
}

} // verus!
