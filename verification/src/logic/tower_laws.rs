//! What a tower that runs in one loop may and may not do.

use vstd::prelude::*;

use crate::ieee::Single;
use crate::logic::encoder_fault::NANOS_PER_SEC;
use crate::logic::fsm::motion::context::{EffectsView, MotionContext, MotorCommand};
use crate::logic::fsm::motion::init::StoredBearings;
use crate::logic::tower::{
    boot_homing_leads, boot_swept_leads, restore_leads, tower_pass_leads, BootHoming, TowerInput,
    TowerRequest, TowerState,
};
use crate::logic::types::{Component, Direction, FaultReport, MotionMode, MoveOutcome};
use crate::storage::laws::{keys_differ, replay_appended};
use crate::storage::snapshot_store::{
    NvsImage, NvsWriteView, NVS_KEY_ENCODER_DAILY_MODE, NVS_KEY_ENCODER_MODE_RESET_DATE,
    NVS_KEY_ENC_TICKS_ADJ, NVS_KEY_HEADING, NVS_KEY_TRACKING_MODE,
};

verus! {

/// At boot a tower is swept home exactly where it may home and is not sure of its
/// heading, counter-clockwise; it is stopped exactly where it is not sure, may not home
/// and does not trust what it restored; and else it goes on.
pub proof fn a_boot_homes_unless_it_is_sure(
    ctx: MotionContext,
    home_distance: Single,
    switch_pressed: bool,
    r: BootHoming,
)
    requires
        boot_homing_leads(ctx, home_distance, switch_pressed, r),
    ensures
        ({
            let claims = home_distance.magnitude() < 0x3C23_D70A;
            let sure = ctx.motion_mode == MotionMode::EncoderGuarded
                && ctx.restored_from_snapshot && ctx.trust_nvs_state && (!claims
                || switch_pressed);
            let may = ctx.switchboard.boot.homing.enabled;
            &&& r == (BootHoming::Sweep { dir: Direction::Ccw }) <==> !sure && may
            &&& r is Stop <==> !sure && !may && !ctx.trust_nvs_state
            &&& r is Skip <==> sure || (!may && ctx.trust_nvs_state)
            &&& r matches BootHoming::Stop(fault) ==> fault.component == Component::System
        }),
{
}

/// A sweep at boot that found the switch makes the tower believe and store home; one
/// that did not stops it and changes nothing.
pub proof fn a_boot_sweep_ends_at_the_switch_or_stops(
    before: MotionContext,
    begun: Seq<NvsWriteView>,
    found: bool,
    encoder_ticks: i32,
    after: MotionContext,
    written: Seq<NvsWriteView>,
    r: Option<FaultReport>,
    image: NvsImage,
)
    requires
        boot_swept_leads(before, begun, found, encoder_ticks, after, written, r),
    ensures
        r is None <==> found,
        found ==> {
            let home = before.switchboard.home_heading_deg;
            &&& after.actual_heading == home
            &&& image.replayed(written).u32_at(NVS_KEY_HEADING@) == Some(home.bits)
            &&& before.motion_mode == MotionMode::EncoderGuarded ==> image.replayed(
                written,
            ).i32_at(NVS_KEY_ENC_TICKS_ADJ@) == Some(encoder_ticks)
        },
        !found ==> after == before && written == begun && r->0.component
            == Component::LimitSwitch,
{
    replay_appended(image, begun, written);
    keys_differ();
}

/// A tower starts without a fault, with the heading that flash holds exactly where it
/// trusts flash, and else at home. The encoder is given up exactly where flash says so,
/// and set back to its snapshot exactly where flash is trusted, the encoder guards the
/// moves and the snapshot is of this version; it then reads what was saved.
pub proof fn a_tower_starts_from_what_it_trusts(
    before: MotionContext,
    stored: StoredBearings,
    encoder_raw: i32,
    daily_mode: Option<u8>,
    begun: EffectsView,
    after: MotionContext,
    done: EffectsView,
)
    requires
        restore_leads(before, stored, encoder_raw, daily_mode, begun, after, done),
        stored.snapshot_ticks matches Some(ticks) ==> i32::MIN <= encoder_raw - ticks
            <= i32::MAX,
    ensures
        ({
            let trusted = before.trust_nvs_state;
            let guarded = stored.tracking_mode != Some(1u8);
            let resets = trusted && guarded && stored.snapshot_version == Some(1u32)
                && stored.snapshot_ticks is Some;
            let n = begun.motor.len() as int;
            &&& after.actual_heading.bits == (if trusted && stored.heading is Some {
                stored.heading->0
            } else {
                before.switchboard.home_heading_deg.bits
            })
            &&& guarded <==> after.motion_mode == MotionMode::EncoderGuarded
            &&& after.previous_motion_mode == after.motion_mode
            &&& after.switchboard == before.switchboard
            &&& after.trust_nvs_state == before.trust_nvs_state
            &&& after.restored_from_snapshot == resets
            &&& !after.need_rehome && !after.encoder_fault.active
            &&& after.encoder_fault.probe_failure_count == 0
            &&& after.encoder_fault.next_probe_at is None
            &&& after.encoder_fault.mode_switched_daily <==> daily_mode == Some(1u8)
            &&& done.motor[n] == MotorCommand::SetMode(after.motion_mode)
            &&& done.motor.last() == MotorCommand::UpdatePosition(after.actual_heading)
            &&& resets ==> (done.motor[n + 2] matches MotorCommand::SetEncoderZeroOffset(zero)
                && encoder_raw - zero == stored.snapshot_ticks->0)
            &&& !resets ==> done.motor.len() == n + 3
        }),
{
}

/// A pass homes before it tracks: at either gate, a tower that is pending to home and
/// drives by steps alone is swept counter-clockwise, and only one that is not is
/// positioned, where tracking is on at all.
pub proof fn the_loop_homes_before_it_tracks(
    before: TowerState,
    input: TowerInput,
    now: u64,
    after: TowerState,
    r: TowerRequest,
)
    requires
        tower_pass_leads(before, input, now, after, r),
    ensures
        ({
            let pending = after.ctx.need_rehome && after.ctx.motion_mode
                == MotionMode::StepperOnly;
            let tracks = before.ctx.switchboard.runtime.tracking.enabled;
            &&& r is Position <==> input is ModeAgain && !pending && tracks
            &&& input is ModeAgain && pending ==> r == (TowerRequest::Sweep {
                dir: Direction::Ccw,
            })
            &&& input is ModeAgain && !pending && !tracks ==> r is KeepHouse
            &&& r is Sweep ==> pending && r->Sweep_dir == Direction::Ccw
            &&& r is ReadMode ==> (input is Daily || input is ModeAfterReset) && !pending
            &&& input is ModeAfterReset ==> r is Sweep || r is ReadMode
            &&& input is Daily ==> r is Sweep || r is ReadMode || r is ReadModeAfterReset
            &&& r matches TowerRequest::KeepHouse { secs } ==> secs == 300
        }),
{
}

/// Reading the mode makes the tower follow flash, where anything but the code of
/// stepper-only stands for the guarded mode. A change to stepper-only makes it pending
/// to home, and nothing else does.
pub proof fn the_loop_follows_the_stored_mode(
    before: TowerState,
    input: TowerInput,
    stored: Option<u8>,
    now: u64,
    after: TowerState,
    r: TowerRequest,
)
    requires
        tower_pass_leads(before, input, now, after, r),
        input == (TowerInput::Mode { stored }) || input == (TowerInput::ModeAgain { stored }),
    ensures
        after.ctx.motion_mode == MotionMode::StepperOnly <==> stored == Some(1u8),
        after.ctx.need_rehome <==> before.ctx.need_rehome || (stored == Some(1u8)
            && before.ctx.motion_mode == MotionMode::EncoderGuarded),
        after.ctx.motion_mode == before.ctx.motion_mode ==> after.fx.motor == before.fx.motor,
        after.ctx.motion_mode != before.ctx.motion_mode ==> after.fx.motor
            == before.fx.motor.push(MotorCommand::SetMode(after.ctx.motion_mode)),
        after.ctx.actual_heading == before.ctx.actual_heading,
        after.ctx.encoder_fault == before.ctx.encoder_fault,
{
}

/// The first gate notices a change to stepper-only since the last look, and the look is
/// then the last.
pub proof fn the_loop_notices_a_change_of_mode(
    before: TowerState,
    input: TowerInput,
    now: u64,
    after: TowerState,
    r: TowerRequest,
)
    requires
        tower_pass_leads(before, input, now, after, r),
        input is Daily,
        r is Sweep || r is ReadMode,
    ensures
        after.ctx.need_rehome <==> before.ctx.need_rehome || (before.ctx.motion_mode
            == MotionMode::StepperOnly && before.ctx.previous_motion_mode
            == MotionMode::EncoderGuarded),
        after.ctx.previous_motion_mode == before.ctx.motion_mode,
        after.ctx.motion_mode == before.ctx.motion_mode,
        after.ctx.actual_heading == before.ctx.actual_heading,
{
}

/// A sweep that found the switch makes the tower believe and store home and no longer
/// pending, and a new pass begins two seconds later; one that did not find it stops the
/// tower and changes nothing.
pub proof fn a_sweep_of_the_loop_ends_at_the_switch_or_stops(
    before: TowerState,
    found: bool,
    now: u64,
    after: TowerState,
    r: TowerRequest,
    image: NvsImage,
)
    requires
        tower_pass_leads(before, TowerInput::Swept { found }, now, after, r),
    ensures
        found ==> {
            let home = before.ctx.switchboard.home_heading_deg;
            &&& after.ctx.actual_heading == home && !after.ctx.need_rehome
            &&& after.fx.motor == before.fx.motor.push(MotorCommand::UpdatePosition(home))
            &&& image.replayed(after.fx.writes).u32_at(NVS_KEY_HEADING@) == Some(home.bits)
            &&& r == (TowerRequest::Again { secs: 2 })
        },
        !found ==> after.ctx == before.ctx && after.fx == before.fx && (r matches
            TowerRequest::Stop(fault) && fault.component == Component::LimitSwitch),
{
    replay_appended(image, before.fx.writes, after.fx.writes);
}

/// While a fault is active, the encoder is not given up, recovery is on and its probe is
/// not due, the tower waits; once it is due it probes by the configured steps. A fault
/// without recovery stops it, and without a fault, or with the encoder given up, the
/// pass goes on.
pub proof fn the_loop_stands_still_until_its_probe(
    before: TowerState,
    stored: Option<u8>,
    now: u64,
    after: TowerState,
    r: TowerRequest,
)
    requires
        tower_pass_leads(before, TowerInput::Mode { stored }, now, after, r),
    ensures
        ({
            let fault = before.ctx.encoder_fault.active
                && !before.ctx.encoder_fault.mode_switched_daily;
            let cfg = before.ctx.switchboard.runtime.encoder_recovery;
            let early = before.ctx.encoder_fault.next_probe_at is Some && now
                < before.ctx.encoder_fault.next_probe_at->0;
            &&& fault && cfg.enabled && early <==> r == (TowerRequest::Wait { secs: 90 })
            &&& fault && cfg.enabled && !early <==> r == (TowerRequest::Probe {
                steps: cfg.probe_steps,
            })
            &&& fault && !cfg.enabled <==> r is Stop
            &&& !fault <==> (r matches TowerRequest::ReadModeAgain { report } && report is None)
        }),
{
}

/// A probe ends the fault where the encoder follows, gives the encoder up for the day
/// where it is the third in a row that fails, and says so, and is else repeated an
/// interval later.
pub proof fn the_loop_takes_three_bad_probes(
    before: TowerState,
    input: TowerInput,
    now: u64,
    after: TowerState,
    r: TowerRequest,
    image: NvsImage,
)
    requires
        tower_pass_leads(before, input, now, after, r),
        input is Probed,
        now + before.ctx.switchboard.runtime.encoder_recovery.probe_interval_secs * NANOS_PER_SEC
            <= u64::MAX,
    ensures
        ({
            let failures = before.ctx.encoder_fault.probe_failure_count;
            let fault = after.ctx.encoder_fault;
            let flash = image.replayed(after.fx.writes);
            &&& input->ok ==> {
                &&& r is CompareHeading
                &&& !fault.active && fault.next_probe_at is None && fault.probe_failure_count == 0
                &&& fault.mode_switched_daily == before.ctx.encoder_fault.mode_switched_daily
                &&& after.fx == before.fx
            }
            &&& !input->ok && failures < 2 ==> {
                &&& r == (TowerRequest::Wait { secs: 30 })
                &&& fault.probe_failure_count == failures + 1
                &&& fault.active == before.ctx.encoder_fault.active
                &&& fault.mode_switched_daily == before.ctx.encoder_fault.mode_switched_daily
                &&& fault.next_probe_at is Some
                &&& fault.next_probe_at->0 - now
                    == before.ctx.switchboard.runtime.encoder_recovery.probe_interval_secs
                    * 1_000_000_000
                &&& after.fx == before.fx
            }
            &&& !input->ok && failures >= 2 ==> {
                &&& r matches TowerRequest::ReadModeAgain { report: Some(report) }
                    && report.component == Component::Encoder
                &&& !fault.active && fault.mode_switched_daily && fault.probe_failure_count == 0
                &&& after.fx.motor == before.fx.motor.push(
                    MotorCommand::SetMode(MotionMode::StepperOnly),
                )
                &&& flash.u8_at(NVS_KEY_TRACKING_MODE@) == Some(1u8)
                &&& flash.u8_at(NVS_KEY_ENCODER_DAILY_MODE@) == Some(1u8)
                &&& flash.str_at(NVS_KEY_ENCODER_MODE_RESET_DATE@) == Some(
                    input->Probed_today.text(),
                )
            }
        }),
        after.ctx.actual_heading == before.ctx.actual_heading,
        after.ctx.need_rehome == before.ctx.need_rehome,
{
    replay_appended(image, before.fx.writes, after.fx.writes);
    keys_differ();
}

/// A heading that lies at most the permitted drift away is adopted and stored; any other
/// makes the tower search for home the configured way, and changes nothing.
pub proof fn the_loop_adopts_no_drifted_heading(
    before: TowerState,
    input: TowerInput,
    now: u64,
    after: TowerState,
    r: TowerRequest,
    image: NvsImage,
)
    requires
        tower_pass_leads(before, input, now, after, r),
        input is Compared,
    ensures
        ({
            let cfg = before.ctx.switchboard.runtime.encoder_recovery;
            let limit = cfg.max_drift_deg;
            let drift = input->drift;
            let close = !drift.nan() && !limit.nan() && drift.rank() <= limit.rank();
            &&& close ==> {
                &&& r matches TowerRequest::ReadModeAgain { report } && report is None
                &&& after.ctx.actual_heading == input->candidate
                &&& after.fx.motor == before.fx.motor.push(
                    MotorCommand::UpdatePosition(input->candidate),
                )
                &&& image.replayed(after.fx.writes).u32_at(NVS_KEY_HEADING@) == Some(
                    input->candidate.bits,
                )
                &&& before.ctx.motion_mode == MotionMode::EncoderGuarded ==> image.replayed(
                    after.fx.writes,
                ).i32_at(NVS_KEY_ENC_TICKS_ADJ@) == Some(input->Compared_encoder_ticks)
            }
            &&& !close ==> {
                &&& r == (TowerRequest::Rehome { dir: cfg.rehome_dir })
                &&& after.ctx == before.ctx && after.fx == before.fx
            }
        }),
        after.ctx.encoder_fault == before.ctx.encoder_fault,
{
    replay_appended(image, before.fx.writes, after.fx.writes);
    keys_differ();
}

/// A search after a drift that found the switch makes the tower believe and store home
/// and goes on; one that did not stops the tower and changes nothing.
pub proof fn a_search_after_a_drift_ends_at_the_switch_or_stops(
    before: TowerState,
    found: bool,
    encoder_ticks: i32,
    now: u64,
    after: TowerState,
    r: TowerRequest,
    image: NvsImage,
)
    requires
        tower_pass_leads(before, TowerInput::Rehomed { found, encoder_ticks }, now, after, r),
    ensures
        found ==> {
            let home = before.ctx.switchboard.home_heading_deg;
            &&& r matches TowerRequest::ReadModeAgain { report } && report is None
            &&& after.ctx.actual_heading == home
            &&& after.fx.motor == before.fx.motor.push(MotorCommand::UpdatePosition(home))
            &&& image.replayed(after.fx.writes).u32_at(NVS_KEY_HEADING@) == Some(home.bits)
            &&& before.ctx.motion_mode == MotionMode::EncoderGuarded ==> image.replayed(
                after.fx.writes,
            ).i32_at(NVS_KEY_ENC_TICKS_ADJ@) == Some(encoder_ticks)
        },
        !found ==> after.ctx == before.ctx && after.fx == before.fx && (r matches
            TowerRequest::Stop(fault) && fault.component == Component::LimitSwitch),
{
    replay_appended(image, before.fx.writes, after.fx.writes);
    keys_differ();
}

/// The tower believes and stores a new heading exactly after a completed move. A stall or
/// an overshoot starts a recovery unless the encoder is given up; nothing else touches
/// the recovery. The pass ends with housekeeping either way.
pub proof fn a_pass_of_the_loop_ends_as_its_move_went(
    before: TowerState,
    input: TowerInput,
    now: u64,
    after: TowerState,
    r: TowerRequest,
    image: NvsImage,
)
    requires
        tower_pass_leads(before, input, now, after, r),
        input is Positioned,
        now + before.ctx.switchboard.runtime.encoder_recovery.probe_interval_secs * NANOS_PER_SEC
            <= u64::MAX,
    ensures
        ({
            let report = input->Positioned_report;
            let last = report.last_outcome;
            let completed = last matches Some(MoveOutcome::Completed);
            let slipped = (last matches Some(MoveOutcome::AbortedStall)) || (last matches Some(
                MoveOutcome::AbortedOvershoot,
            ));
            let starts = slipped && !before.ctx.encoder_fault.mode_switched_daily;
            &&& after.ctx.actual_heading == (if completed {
                report.location
            } else {
                before.ctx.actual_heading
            })
            &&& completed ==> image.replayed(after.fx.writes).u32_at(NVS_KEY_HEADING@) == Some(
                report.location.bits,
            )
            &&& completed && report.mode == MotionMode::EncoderGuarded ==> image.replayed(
                after.fx.writes,
            ).i32_at(NVS_KEY_ENC_TICKS_ADJ@) == Some(report.encoder_ticks)
            &&& !completed ==> after.fx.writes == before.fx.writes
            &&& starts ==> {
                &&& after.ctx.encoder_fault.active
                &&& after.ctx.encoder_fault.next_probe_at is Some
                &&& after.ctx.encoder_fault.next_probe_at->0 - now
                    == before.ctx.switchboard.runtime.encoder_recovery.probe_interval_secs
                    * 1_000_000_000
            }
            &&& !starts ==> after.ctx.encoder_fault == before.ctx.encoder_fault
        }),
        r == (TowerRequest::KeepHouse { secs: 300 }),
        after.ctx.need_rehome == before.ctx.need_rehome,
        after.fx.motor == before.fx.motor,
{
    replay_appended(image, before.fx.writes, after.fx.writes);
    keys_differ();
}

/// The daily check asks for the mode again exactly where the encoder was given up on
/// another day than today; that reset makes flash hold the guarded mode and no flag, and
/// the encoder is then no longer given up.
pub proof fn another_day_resets_the_loop(
    before: TowerState,
    input: TowerInput,
    now: u64,
    after: TowerState,
    r: TowerRequest,
    image: NvsImage,
)
    requires
        tower_pass_leads(before, input, now, after, r),
    ensures
        input is Daily ==> {
            let other_day = input->daily_mode == Some(1u8) && input->stored_date is Some
                && input->stored_date->0@ != input->Daily_today.text();
            &&& other_day <==> r is ReadModeAfterReset
            &&& other_day ==> {
                let flash = image.replayed(after.fx.writes);
                &&& flash.u8_at(NVS_KEY_TRACKING_MODE@) == Some(2u8)
                &&& flash.u8_at(NVS_KEY_ENCODER_DAILY_MODE@) == Some(0u8)
            }
            &&& input->daily_mode != Some(1u8) ==> after.fx.writes == before.fx.writes
            &&& after.fx.motor == before.fx.motor
        },
        input is ModeAfterReset ==> {
            &&& !after.ctx.encoder_fault.mode_switched_daily
            &&& after.ctx.motion_mode == MotionMode::StepperOnly
                <==> input->ModeAfterReset_stored == Some(1u8)
            &&& after.fx.motor == before.fx.motor.push(
                MotorCommand::SetMode(after.ctx.motion_mode),
            )
        },
{
    if input is Daily {
        replay_appended(image, before.fx.writes, after.fx.writes);
        keys_differ();
    }
}

} // verus!
