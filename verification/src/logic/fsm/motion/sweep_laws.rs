//! What a pass of a tower that sweeps for its switch may and may not do.

use vstd::prelude::*;

use crate::logic::encoder_fault::NANOS_PER_SEC;
use crate::logic::fsm::mail::Message;
use crate::logic::fsm::motion::context::{
    MotionState, MotionTrackingWait, MotorCommand, StateResult,
};
use crate::logic::fsm::motion::homing_laws::{button_pressed, pressed_action};
use crate::logic::fsm::motion::position::MotionTopics;
use crate::logic::fsm::motion::sweep::{
    sweep_pass_leads, SweepInput, SweepRequest, SweepState,
};
use crate::logic::types::{Component, MotionEvent, MotionMode, MoveOutcome};
use crate::storage::laws::{keys_differ, replay_appended};
use crate::storage::snapshot_store::{
    NvsImage, NVS_KEY_ENCODER_DAILY_MODE, NVS_KEY_ENCODER_MODE_RESET_DATE, NVS_KEY_ENC_TICKS_ADJ,
    NVS_KEY_HEADING, NVS_KEY_TRACKING_MODE,
};

verus! {

/// A pass that is over for now: the next one begins after a wait from `now`.
pub open spec fn rests(r: SweepRequest, now: u64) -> bool {
    r matches SweepRequest::Finished(
        StateResult::Running(MotionState::TrackingWait(MotionTrackingWait { begin })),
    ) && begin == now
}

/// A sweeping pass homes before it tracks: at either gate, a tower that is pending to
/// home and drives by steps alone is swept for its switch, and only one that is not is
/// positioned, where tracking is on at all.
pub proof fn a_sweeping_tower_homes_before_it_tracks(
    before: SweepState,
    messages: Seq<Message>,
    input: SweepInput,
    now: u64,
    topics: MotionTopics,
    after: SweepState,
    r: SweepRequest,
)
    requires
        sweep_pass_leads(before, messages, input, now, topics, after, r),
    ensures
        ({
            let pending = after.ctx.need_rehome && after.ctx.motion_mode
                == MotionMode::StepperOnly;
            let tracks = before.ctx.switchboard.runtime.tracking.enabled;
            &&& r is SweepAgain <==> input is ModeAgain && pending
            &&& r is Position <==> input is ModeAgain && !pending && tracks
            &&& input is ModeAgain && !pending && !tracks ==> rests(r, now)
            &&& r is Sweep ==> (input is Daily || input is ModeAfterReset) && pending
            &&& r is ReadMode ==> (input is Daily || input is ModeAfterReset) && !pending
            &&& input is ModeAfterReset ==> r is Sweep || r is ReadMode
            &&& input is Daily ==> r is Sweep || r is ReadMode || r is ReadModeAfterReset
        }),
{
}

/// A change to stepper-only makes a tower pending to home, by way of flash or by its own
/// doing, and nothing else does; reading the mode makes it follow flash, where anything
/// but the code of stepper-only stands for the guarded mode.
pub proof fn a_sweeping_tower_follows_the_stored_mode(
    before: SweepState,
    messages: Seq<Message>,
    input: SweepInput,
    stored: Option<u8>,
    now: u64,
    topics: MotionTopics,
    after: SweepState,
    r: SweepRequest,
)
    requires
        sweep_pass_leads(before, messages, input, now, topics, after, r),
        input == (SweepInput::Mode { stored }) || input == (SweepInput::ModeAgain { stored }),
    ensures
        after.ctx.motion_mode == MotionMode::StepperOnly <==> stored == Some(1u8),
        after.ctx.need_rehome <==> before.ctx.need_rehome || (stored == Some(1u8)
            && before.ctx.motion_mode == MotionMode::EncoderGuarded),
        after.ctx.motion_mode == before.ctx.motion_mode ==> after.fx.motor == before.fx.motor,
        after.ctx.motion_mode != before.ctx.motion_mode ==> after.fx.motor
            == before.fx.motor.push(MotorCommand::SetMode(after.ctx.motion_mode)),
        after.ctx.actual_heading == before.ctx.actual_heading,
        after.ctx.encoder_fault == before.ctx.encoder_fault,
        stored is Some ==> after.fx.writes == before.fx.writes,
{
}

/// The first gate notices a change to stepper-only since the last look, and the look is
/// then the last.
pub proof fn the_gate_notices_a_change_of_mode(
    before: SweepState,
    messages: Seq<Message>,
    input: SweepInput,
    now: u64,
    topics: MotionTopics,
    after: SweepState,
    r: SweepRequest,
)
    requires
        sweep_pass_leads(before, messages, input, now, topics, after, r),
        input is Daily,
        r is Sweep || r is ReadMode,
    ensures
        after.ctx.need_rehome <==> before.ctx.need_rehome || (before.ctx.motion_mode
            == MotionMode::StepperOnly && before.ctx.previous_motion_mode
            == MotionMode::EncoderGuarded),
        after.ctx.previous_motion_mode == before.ctx.motion_mode,
        after.ctx.motion_mode == before.ctx.motion_mode,
        after.ctx.actual_heading == before.ctx.actual_heading,
        after.ctx.encoder_fault == before.ctx.encoder_fault,
{
}

/// A sweep that found the switch makes the tower believe and store home and no longer
/// pending; before tracking it begins with homing, after the recovery it rests. One that
/// did not find it stops the tower and changes nothing.
pub proof fn a_sweep_within_a_pass_ends_it(
    before: SweepState,
    messages: Seq<Message>,
    input: SweepInput,
    found: bool,
    now: u64,
    topics: MotionTopics,
    after: SweepState,
    r: SweepRequest,
    image: NvsImage,
)
    requires
        sweep_pass_leads(before, messages, input, now, topics, after, r),
        input == (SweepInput::Swept { found }) || input == (SweepInput::SweptAgain { found }),
    ensures
        found ==> {
            let home = before.ctx.switchboard.home_heading_deg;
            &&& after.ctx.actual_heading == home
            &&& !after.ctx.need_rehome
            &&& after.fx.motor == before.fx.motor.push(MotorCommand::UpdatePosition(home))
            &&& image.replayed(after.fx.writes).u32_at(NVS_KEY_HEADING@) == Some(home.bits)
            &&& input is Swept ==> r == SweepRequest::Finished(
                StateResult::Running(MotionState::BeginHoming),
            )
            &&& input is SweptAgain ==> rests(r, now)
        },
        !found ==> {
            &&& r matches SweepRequest::Finished(
                StateResult::Running(MotionState::ErrorLoop(fault)),
            ) && fault.component == Component::LimitSwitch
            &&& after.ctx == before.ctx && after.fx == before.fx
        },
        after.ctx.encoder_fault == before.ctx.encoder_fault,
        after.ctx.motion_mode == before.ctx.motion_mode,
{
    replay_appended(image, before.fx.writes, after.fx.writes);
}

/// While a fault is active, the encoder is not given up, recovery is on and its probe is
/// not due, the pass rests; once it is due the tower probes by the configured steps. A
/// fault without recovery stops the tower, and without a fault, or with the encoder
/// given up, the pass goes on.
pub proof fn a_sweeping_tower_stands_still_until_its_probe(
    before: SweepState,
    messages: Seq<Message>,
    stored: Option<u8>,
    now: u64,
    topics: MotionTopics,
    after: SweepState,
    r: SweepRequest,
)
    requires
        sweep_pass_leads(before, messages, SweepInput::Mode { stored }, now, topics, after, r),
    ensures
        ({
            let fault = before.ctx.encoder_fault.active
                && !before.ctx.encoder_fault.mode_switched_daily;
            let cfg = before.ctx.switchboard.runtime.encoder_recovery;
            let early = before.ctx.encoder_fault.next_probe_at is Some && now
                < before.ctx.encoder_fault.next_probe_at->0;
            &&& fault && cfg.enabled && early <==> rests(r, now)
            &&& fault && cfg.enabled && !early <==> r == (SweepRequest::Probe {
                steps: cfg.probe_steps,
            })
            &&& fault && !cfg.enabled <==> (r matches SweepRequest::Finished(
                StateResult::Running(MotionState::ErrorLoop(_)),
            ))
            &&& !fault <==> r is ReadModeAgain
        }),
{
}

/// A probe ends the fault where the encoder follows, gives the encoder up for the day
/// where it is the third in a row that fails, and is else repeated an interval later.
pub proof fn a_sweeping_tower_takes_three_bad_probes(
    before: SweepState,
    messages: Seq<Message>,
    input: SweepInput,
    now: u64,
    topics: MotionTopics,
    after: SweepState,
    r: SweepRequest,
    image: NvsImage,
)
    requires
        sweep_pass_leads(before, messages, input, now, topics, after, r),
        input is Probed,
        now + before.ctx.switchboard.runtime.encoder_recovery.probe_interval_secs * NANOS_PER_SEC
            <= u64::MAX,
    ensures
        ({
            let failures = before.ctx.encoder_fault.probe_failure_count;
            let fault = after.ctx.encoder_fault;
            let flash = image.replayed(after.fx.writes);
            &&& input->ok ==> {
                &&& r is CompareHeading
                &&& !fault.active && fault.next_probe_at is None && fault.probe_failure_count == 0
                &&& fault.mode_switched_daily == before.ctx.encoder_fault.mode_switched_daily
                &&& after.fx == before.fx
            }
            &&& !input->ok && failures < 2 ==> {
                &&& rests(r, now)
                &&& fault.probe_failure_count == failures + 1
                &&& fault.active == before.ctx.encoder_fault.active
                &&& fault.mode_switched_daily == before.ctx.encoder_fault.mode_switched_daily
                &&& fault.next_probe_at is Some
                &&& fault.next_probe_at->0 - now
                    == before.ctx.switchboard.runtime.encoder_recovery.probe_interval_secs
                    * 1_000_000_000
                &&& after.fx == before.fx
            }
            &&& !input->ok && failures >= 2 ==> {
                &&& r is ReadModeAgain
                &&& !fault.active && fault.mode_switched_daily && fault.probe_failure_count == 0
                &&& after.fx.motor == before.fx.motor.push(
                    MotorCommand::SetMode(MotionMode::StepperOnly),
                )
                &&& flash.u8_at(NVS_KEY_TRACKING_MODE@) == Some(1u8)
                &&& flash.u8_at(NVS_KEY_ENCODER_DAILY_MODE@) == Some(1u8)
                &&& flash.str_at(NVS_KEY_ENCODER_MODE_RESET_DATE@) == Some(
                    input->Probed_today.text(),
                )
            }
        }),
        after.ctx.actual_heading == before.ctx.actual_heading,
        after.ctx.need_rehome == before.ctx.need_rehome,
{
    replay_appended(image, before.fx.writes, after.fx.writes);
    keys_differ();
}

/// A heading that lies at most the permitted drift away is adopted and stored; any other
/// sends the tower home and changes nothing.
pub proof fn a_sweeping_tower_adopts_no_drifted_heading(
    before: SweepState,
    messages: Seq<Message>,
    input: SweepInput,
    now: u64,
    topics: MotionTopics,
    after: SweepState,
    r: SweepRequest,
    image: NvsImage,
)
    requires
        sweep_pass_leads(before, messages, input, now, topics, after, r),
        input is Compared,
    ensures
        ({
            let limit = before.ctx.switchboard.runtime.encoder_recovery.max_drift_deg;
            let drift = input->drift;
            let close = !drift.nan() && !limit.nan() && drift.rank() <= limit.rank();
            &&& close ==> {
                &&& r is ReadModeAgain
                &&& after.ctx.actual_heading == input->candidate
                &&& after.fx.motor == before.fx.motor.push(
                    MotorCommand::UpdatePosition(input->candidate),
                )
                &&& image.replayed(after.fx.writes).u32_at(NVS_KEY_HEADING@) == Some(
                    input->candidate.bits,
                )
                &&& before.ctx.motion_mode == MotionMode::EncoderGuarded ==> image.replayed(
                    after.fx.writes,
                ).i32_at(NVS_KEY_ENC_TICKS_ADJ@) == Some(input->encoder_ticks)
            }
            &&& !close ==> {
                &&& r == SweepRequest::Finished(StateResult::Running(MotionState::BeginHoming))
                &&& after.ctx == before.ctx && after.fx == before.fx
            }
        }),
        after.ctx.encoder_fault == before.ctx.encoder_fault,
{
    replay_appended(image, before.fx.writes, after.fx.writes);
    keys_differ();
}

/// The tower believes a new heading exactly after a completed move, and stores it where
/// it persists. A stall or an overshoot starts a recovery unless the encoder is given
/// up; nothing else touches the recovery.
pub proof fn a_sweeping_pass_ends_as_its_move_went(
    before: SweepState,
    messages: Seq<Message>,
    input: SweepInput,
    now: u64,
    topics: MotionTopics,
    after: SweepState,
    r: SweepRequest,
    image: NvsImage,
)
    requires
        sweep_pass_leads(before, messages, input, now, topics, after, r),
        input is Positioned,
        now + before.ctx.switchboard.runtime.encoder_recovery.probe_interval_secs * NANOS_PER_SEC
            <= u64::MAX,
    ensures
        ({
            let last = input->report.last_outcome;
            let completed = last matches Some(MoveOutcome::Completed);
            let slipped = (last matches Some(MoveOutcome::AbortedStall)) || (last matches Some(
                MoveOutcome::AbortedOvershoot,
            ));
            let starts = slipped && !before.ctx.encoder_fault.mode_switched_daily;
            let persist = before.ctx.switchboard.effects.persist_nvs;
            &&& after.ctx.actual_heading == (if completed {
                input->report.location
            } else {
                before.ctx.actual_heading
            })
            &&& completed && persist ==> image.replayed(after.fx.writes).u32_at(
                NVS_KEY_HEADING@,
            ) == Some(input->report.location.bits)
            &&& !completed || !persist ==> after.fx.writes == before.fx.writes
            &&& starts ==> {
                &&& after.ctx.encoder_fault.active
                &&& after.ctx.encoder_fault.next_probe_at is Some
                &&& after.ctx.encoder_fault.next_probe_at->0 - now
                    == before.ctx.switchboard.runtime.encoder_recovery.probe_interval_secs
                    * 1_000_000_000
            }
            &&& !starts ==> after.ctx.encoder_fault == before.ctx.encoder_fault
            &&& last matches Some(MoveOutcome::AbortedErrorLoop(_)) ==> (r matches
                SweepRequest::Finished(StateResult::Running(MotionState::ErrorLoop(_))))
            &&& last is Some && !(last->0 is AbortedErrorLoop) ==> rests(r, now)
            &&& last is None && input->events@.len() == 0 ==> rests(r, now) && after.fx.mail
                == before.fx.mail
        }),
        after.ctx.need_rehome == before.ctx.need_rehome,
        after.ctx.motion_mode == before.ctx.motion_mode,
        after.fx.motor == before.fx.motor,
{
    replay_appended(image, before.fx.writes, after.fx.writes);
    keys_differ();
}

/// Where a pass made no move, its first event that is a fault stops the tower, and
/// without one the tower rests.
pub proof fn a_fault_among_the_events_stops_the_tower(
    before: SweepState,
    messages: Seq<Message>,
    input: SweepInput,
    now: u64,
    topics: MotionTopics,
    after: SweepState,
    r: SweepRequest,
)
    requires
        sweep_pass_leads(before, messages, input, now, topics, after, r),
        input is Positioned,
        input->report.last_outcome is None,
    ensures
        (exists|i: int|
            0 <= i < input->events@.len() && (#[trigger] input->events@[i]) is ErrorLoop) <==> (r
            matches SweepRequest::Finished(StateResult::Running(MotionState::ErrorLoop(_)))),
        (forall|i: int|
            0 <= i < input->events@.len() ==> !((#[trigger] input->events@[i]) is ErrorLoop))
            <==> rests(r, now),
{
    faults_among(input->events@);
}

proof fn faults_among(events: Seq<MotionEvent>)
    ensures
        (exists|i: int| 0 <= i < events.len() && (#[trigger] events[i]) is ErrorLoop)
            <==> crate::logic::fsm::motion::sweep::stopping_event(
            crate::logic::fsm::motion::sweep::event_views(events),
        ) is Some,
    decreases events.len(),
{
    let views = crate::logic::fsm::motion::sweep::event_views(events);
    if events.len() > 0 {
        let rest = events.drop_first();
        assert(crate::logic::fsm::motion::sweep::event_views(rest) =~= views.drop_first());
        assert(views.first() == events[0]@);
        faults_among(rest);
        if exists|i: int| 0 <= i < events.len() && (#[trigger] events[i]) is ErrorLoop {
            let i = choose|i: int| 0 <= i < events.len() && (#[trigger] events[i]) is ErrorLoop;
            if i > 0 {
                assert(rest[i - 1] is ErrorLoop);
            }
        }
        if exists|i: int| 0 <= i < rest.len() && (#[trigger] rest[i]) is ErrorLoop {
            let i = choose|i: int| 0 <= i < rest.len() && (#[trigger] rest[i]) is ErrorLoop;
            assert(events[i + 1] is ErrorLoop);
        }
    }
}

/// A button before a pass sends the tower into maintenance, from which it comes back to
/// tracking; nothing else keeps a pass from beginning, and nothing else happens.
pub proof fn buttons_go_before_a_sweeping_pass(
    before: SweepState,
    messages: Seq<Message>,
    now: u64,
    topics: MotionTopics,
    after: SweepState,
    r: SweepRequest,
)
    requires
        sweep_pass_leads(before, messages, SweepInput::Start, now, topics, after, r),
    ensures
        r is ReadDaily <==> !button_pressed(messages),
        button_pressed(messages) ==> (r matches SweepRequest::Finished(
            StateResult::Running(MotionState::Maintenance(m)),
        ) && m.action == pressed_action(messages.last()) && (m.return_to matches Some(state)
            && *state == MotionState::Tracking)),
        after == before,
{
}

/// The daily check asks for the mode again exactly where the encoder was given up on
/// another day than today; that reset makes flash hold the guarded mode and no flag, and
/// the encoder is then no longer given up.
pub proof fn another_day_resets_a_sweeping_tower(
    before: SweepState,
    messages: Seq<Message>,
    input: SweepInput,
    now: u64,
    topics: MotionTopics,
    after: SweepState,
    r: SweepRequest,
    image: NvsImage,
)
    requires
        sweep_pass_leads(before, messages, input, now, topics, after, r),
    ensures
        input is Daily ==> {
            let other_day = input->daily_mode == Some(1u8) && input->stored_date is Some
                && input->stored_date->0@ != input->Daily_today.text();
            &&& other_day <==> r is ReadModeAfterReset
            &&& other_day ==> {
                let flash = image.replayed(after.fx.writes);
                &&& flash.u8_at(NVS_KEY_TRACKING_MODE@) == Some(2u8)
                &&& flash.u8_at(NVS_KEY_ENCODER_DAILY_MODE@) == Some(0u8)
            }
            &&& input->daily_mode != Some(1u8) ==> after.fx.writes == before.fx.writes
            &&& after.fx.motor == before.fx.motor
        },
        input is ModeAfterReset ==> {
            &&& !after.ctx.encoder_fault.mode_switched_daily
            &&& after.ctx.motion_mode == MotionMode::StepperOnly
                <==> input->ModeAfterReset_stored == Some(1u8)
            &&& after.fx.motor == before.fx.motor.push(
                MotorCommand::SetMode(after.ctx.motion_mode),
            )
        },
{
    if input is Daily {
        replay_appended(image, before.fx.writes, after.fx.writes);
        keys_differ();
    }
}

} // verus!
