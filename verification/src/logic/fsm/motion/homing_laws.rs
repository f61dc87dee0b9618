//! What restoring, homing and maintenance may and may not do.

use vstd::prelude::*;

use crate::logic::fsm::mail::{FSMAddress, FSMState, MailView, Message};
use crate::logic::fsm::motion::context::{
    EffectsView, MaintenanceAction, MotionContext, MotionMaintenance, MotionState,
    MotionTrackingWait, MotorCommand, StateResult,
};
use crate::logic::fsm::motion::homing::{
    begin_leads, search_leads, HomingReadings, SearchState,
};
use crate::logic::fsm::motion::init::{init_leads, StoredBearings};
use crate::logic::fsm::motion::maintenance::{hold_leads, press_leads};
use crate::logic::fsm::motion::sweep::tracking_wait_leads;
use crate::logic::types::{Component, Direction, MotionMode};
use crate::storage::laws::{keys_differ, replay_appended};
use crate::storage::snapshot_store::{
    NvsImage, NVS_KEY_ENC_TICKS_ADJ, NVS_KEY_HEADING, NVS_KEY_LAST_RUN_NORMAL,
    NVS_KEY_TRACKING_MODE,
};

verus! {

/// Whether the newest message is a button.
pub open spec fn button_pressed(messages: Seq<Message>) -> bool {
    messages.len() > 0 && (messages.last() is CWPressed || messages.last() is CCWPressed
        || messages.last() is MaintenancePressed)
}

/// A tower goes on without homing only where it is sure of its heading: it drives by
/// its encoder, restored a snapshot and trusts it, and does not claim to be at home
/// without its switch. Any other tower homes where it may: it is at home already where
/// its switch is pressed, and else it searches with stall detection off. A tower that
/// would home and may not is stopped exactly where it does not trust what it restored.
pub proof fn a_tower_homes_unless_it_is_sure(
    ctx: MotionContext,
    messages: Seq<Message>,
    readings: HomingReadings,
    before: EffectsView,
    after: EffectsView,
    r: StateResult,
)
    requires
        begin_leads(ctx, messages, readings, before, after, r),
        !button_pressed(messages),
    ensures
        ({
            let claims = readings.home_distance.magnitude() < 0x3C23_D70A;
            let sure = ctx.motion_mode == MotionMode::EncoderGuarded
                && ctx.restored_from_snapshot && ctx.trust_nvs_state && (!claims
                || readings.switch_pressed);
            let may = ctx.switchboard.boot.homing.enabled;
            let home = ctx.switchboard.home_heading_deg;
            &&& (r matches StateResult::Running(MotionState::Homing(_))) <==> !sure && may
                && !readings.switch_pressed
            &&& r matches StateResult::Running(MotionState::Homing(search)) ==> {
                &&& search.steps_left == readings.search_steps
                &&& search.stall_prev == readings.stall_detection
                &&& after.motor == before.motor.push(MotorCommand::SetHoming(true)).push(
                    MotorCommand::SetStallDetection(false),
                )
                &&& after.writes == before.writes
            }
            &&& (r matches StateResult::Running(MotionState::ErrorLoop(_))) <==> !sure && !may
                && !ctx.trust_nvs_state
            &&& r matches StateResult::Running(MotionState::ErrorLoop(fault)) ==> after == before
                && fault.component == Component::System
            &&& (r matches StateResult::Running(MotionState::Tracking)) <==> sure || (may
                && readings.switch_pressed) || (!may && ctx.trust_nvs_state)
            &&& !sure && may && readings.switch_pressed ==> after.motor == before.motor.push(
                MotorCommand::UpdatePosition(home),
            ).push(MotorCommand::ForceZeroIfLimitSwitchPressed) && after.writes == before.writes
            &&& sure ==> after.motor == before.motor
        }),
{
}

/// A tower that goes on without homing marks its run as a normal one, so that the next
/// can trust what it stores.
pub proof fn a_run_without_homing_is_normal(
    ctx: MotionContext,
    messages: Seq<Message>,
    readings: HomingReadings,
    before: EffectsView,
    after: EffectsView,
    r: StateResult,
    image: NvsImage,
)
    requires
        begin_leads(ctx, messages, readings, before, after, r),
        !button_pressed(messages),
        ctx.trust_nvs_state,
        ctx.restored_from_snapshot,
        ctx.motion_mode == MotionMode::EncoderGuarded,
        readings.switch_pressed,
    ensures
        r == StateResult::Running(MotionState::Tracking),
        image.replayed(after.writes).u8_at(NVS_KEY_LAST_RUN_NORMAL@) == Some(1u8),
{
    replay_appended(image, before.writes, after.writes);
}

/// A button goes before homing, searching and waiting: the tower goes into maintenance
/// and comes back to where it was, and nothing else happens.
pub proof fn buttons_go_before_homing(
    ctx: MotionContext,
    messages: Seq<Message>,
    readings: HomingReadings,
    before: EffectsView,
    after: EffectsView,
    r: StateResult,
)
    requires
        begin_leads(ctx, messages, readings, before, after, r),
    ensures
        button_pressed(messages) <==> (r matches StateResult::Running(MotionState::Maintenance(
            _,
        ))),
        r matches StateResult::Running(MotionState::Maintenance(m)) ==> {
            &&& after == before
            &&& m.return_to matches Some(state) && *state == MotionState::BeginHoming
            &&& m.action == pressed_action(messages.last())
        },
{
}

/// What a button asks for.
pub open spec fn pressed_action(message: Message) -> MaintenanceAction {
    if message is CWPressed {
        MaintenanceAction::Moving(Direction::Cw)
    } else if message is CCWPressed {
        MaintenanceAction::Moving(Direction::Ccw)
    } else {
        MaintenanceAction::Idle
    }
}

/// A search moves on by a degree while travel is left and the switch is not pressed,
/// and the travel shrinks by what it moves. It ends at the switch, where the tower
/// believes and stores home and goes on to track, or with its travel used up, where it
/// is stopped for want of the switch and its heading stays. Either end puts stall
/// detection back.
pub proof fn a_search_ends_at_the_switch_or_stops(
    before: SearchState,
    messages: Seq<Message>,
    switch_pressed: bool,
    degree_steps: i64,
    encoder_ticks: i32,
    after: SearchState,
    r: StateResult,
    image: NvsImage,
)
    requires
        search_leads(
            before,
            messages,
            switch_pressed,
            degree_steps,
            encoder_ticks,
            after,
            r,
        ),
        !button_pressed(messages),
    ensures
        ({
            let home = before.ctx.switchboard.home_heading_deg;
            let left = before.homing.steps_left < 0;
            let flash = image.replayed(after.fx.writes);
            &&& (r matches StateResult::Running(MotionState::Moving(_))) <==> left
                && !switch_pressed
            &&& r matches StateResult::Running(MotionState::Moving(m)) ==> {
                &&& m.steps == degree_steps
                &&& after.homing.steps_left + degree_steps == before.homing.steps_left
                &&& after.ctx == before.ctx && after.fx == before.fx
            }
            &&& after.homing.stall_prev == before.homing.stall_prev
            &&& !left || switch_pressed ==> after.homing == before.homing
            &&& (r matches StateResult::Running(MotionState::Tracking)) <==> switch_pressed
            &&& switch_pressed ==> {
                &&& after.ctx.actual_heading == home
                &&& flash.u32_at(NVS_KEY_HEADING@) == Some(home.bits)
                &&& before.ctx.motion_mode == MotionMode::EncoderGuarded ==> flash.i32_at(
                    NVS_KEY_ENC_TICKS_ADJ@,
                ) == Some(encoder_ticks)
                &&& left ==> after.fx.motor.last() is ForceZeroIfLimitSwitchPressed
                &&& left ==> after.fx.motor[after.fx.motor.len() - 2]
                    == MotorCommand::UpdatePosition(home)
            }
            &&& (r matches StateResult::Running(MotionState::ErrorLoop(_))) <==> !left
                && !switch_pressed
            &&& r matches StateResult::Running(MotionState::ErrorLoop(fault)) ==> {
                &&& fault.component == Component::LimitSwitch
                &&& after.ctx == before.ctx && after.fx.writes == before.fx.writes
            }
            &&& !left || switch_pressed ==> {
                let n = before.fx.motor.len() as int;
                &&& after.fx.motor.len() == n + (if left {
                    4int
                } else {
                    2int
                })
                &&& after.fx.motor[n] == MotorCommand::SetStallDetection(
                    before.homing.stall_prev,
                )
                &&& after.fx.motor[n + 1] == MotorCommand::SetHoming(false)
            }
        }),
{
    replay_appended(image, before.fx.writes, after.fx.writes);
    keys_differ();
}

/// A button interrupts a search, which goes on from where it was.
pub proof fn an_interrupted_search_goes_on(
    before: SearchState,
    messages: Seq<Message>,
    switch_pressed: bool,
    degree_steps: i64,
    encoder_ticks: i32,
    after: SearchState,
    r: StateResult,
)
    requires
        search_leads(
            before,
            messages,
            switch_pressed,
            degree_steps,
            encoder_ticks,
            after,
            r,
        ),
        button_pressed(messages),
    ensures
        after == before,
        r matches StateResult::Running(MotionState::Maintenance(m)) && (m.return_to matches Some(
            state,
        ) && *state == MotionState::Homing(before.homing)) && m.action == pressed_action(
            messages.last(),
        ),
{
}

/// A tower believes what flash holds of its heading exactly where it trusts flash, and
/// else home. The encoder is set back to the snapshot exactly where flash is trusted,
/// the encoder guards the moves and the snapshot is of this version, and then reads what
/// was saved. The motor takes mode and heading either way.
pub proof fn only_a_trusted_heading_is_restored(
    before: MotionContext,
    stored: StoredBearings,
    encoder_raw: i32,
    begun: EffectsView,
    after: MotionContext,
    done: EffectsView,
)
    requires
        init_leads(before, stored, encoder_raw, begun, after, done),
        stored.snapshot_ticks matches Some(ticks) ==> i32::MIN <= encoder_raw - ticks
            <= i32::MAX,
    ensures
        ({
            let trusted = before.trust_nvs_state;
            let n = begun.motor.len() as int;
            let guarded = stored.tracking_mode != Some(1u8);
            let resets = trusted && guarded && stored.snapshot_version == Some(1u32)
                && stored.snapshot_ticks is Some;
            &&& after.actual_heading.bits == (if trusted && stored.heading is Some {
                stored.heading->0
            } else {
                before.switchboard.home_heading_deg.bits
            })
            &&& done.motor[n] == MotorCommand::SetMode(
                if guarded {
                    MotionMode::EncoderGuarded
                } else {
                    MotionMode::StepperOnly
                },
            )
            &&& done.motor[n + 1] == MotorCommand::PowerOn
            &&& done.motor[n + 2] == MotorCommand::UpdatePosition(after.actual_heading)
            &&& resets <==> done.motor.len() == n + 4
            &&& !resets <==> done.motor.len() == n + 3
            &&& resets ==> (done.motor[n + 3] matches MotorCommand::SetEncoderZeroOffset(zero)
                && encoder_raw - zero == stored.snapshot_ticks->0)
            &&& resets ==> after.restored_from_snapshot
            &&& !resets ==> after.restored_from_snapshot == before.restored_from_snapshot
        }),
        after.encoder_fault == before.encoder_fault,
        after.trust_nvs_state == before.trust_nvs_state,
        done.mail == begun.mail,
{
}

/// What was never stored is stored on the first boot: the guarded mode, and home where
/// flash is trusted. What was stored is left alone.
pub proof fn missing_bearings_are_stored(
    before: MotionContext,
    stored: StoredBearings,
    encoder_raw: i32,
    begun: EffectsView,
    after: MotionContext,
    done: EffectsView,
    image: NvsImage,
)
    requires
        init_leads(before, stored, encoder_raw, begun, after, done),
    ensures
        stored.tracking_mode is None ==> image.replayed(done.writes).u8_at(
            NVS_KEY_TRACKING_MODE@,
        ) == Some(2u8),
        stored.heading is None && before.trust_nvs_state ==> image.replayed(done.writes).u32_at(
            NVS_KEY_HEADING@,
        ) == Some(before.switchboard.home_heading_deg.bits),
        stored.tracking_mode is Some && (stored.heading is Some || !before.trust_nvs_state)
            ==> done.writes == begun.writes,
{
    replay_appended(image, begun.writes, done.writes);
}

/// The maintenance button leaves maintenance exactly where the tower stands, and leads
/// back to where it came from, or to the start where that is not known. Until then the
/// tower is in maintenance, and moves a fixed way in the direction of the button pressed
/// last, or not at all.
pub proof fn maintenance_is_left_by_its_button(
    before: MotionMaintenance,
    messages: Seq<Message>,
    after: MotionMaintenance,
    shared: FSMState,
    result: StateResult,
    steps: Option<i64>,
)
    requires
        hold_leads(before, messages, after, shared, result, steps),
    ensures
        ({
            let asked = messages.len() > 0 && messages.last() is MaintenancePressed;
            let leaves = asked && before.action is Idle;
            &&& leaves <==> result is Running
            &&& !leaves <==> result is Hold
            &&& shared.maintenance_mode == !leaves
            &&& leaves ==> steps is None && result == StateResult::Running(
                match before.return_to {
                    Some(state) => *state,
                    None => MotionState::Init,
                },
            )
            &&& !leaves ==> after.return_to == before.return_to
            &&& !leaves && button_pressed(messages) ==> after.action == pressed_action(
                messages.last(),
            )
            &&& !leaves && !button_pressed(messages) ==> after.action == before.action
            &&& !leaves ==> {
                &&& after.action == MaintenanceAction::Moving(Direction::Cw) ==> steps == Some(
                    150_000i64,
                )
                &&& after.action == MaintenanceAction::Moving(Direction::Ccw) ==> steps == Some(
                    -150_000i64,
                )
                &&& after.action is Idle ==> steps is None
            }
        }),
{
}

/// A tower that makes one move per press moves exactly when a direction is pressed, and
/// leaves maintenance as any other does.
pub proof fn a_press_makes_one_move(
    before: MotionMaintenance,
    messages: Seq<Message>,
    after: MotionMaintenance,
    result: StateResult,
    steps: Option<i64>,
)
    requires
        press_leads(before, messages, after, result, steps),
    ensures
        ({
            let last = messages.last();
            let some = messages.len() > 0;
            let leaves = some && last is MaintenancePressed && before.action is Idle;
            &&& leaves <==> result is Running
            &&& leaves ==> result == StateResult::Running(
                match before.return_to {
                    Some(state) => *state,
                    None => MotionState::Init,
                },
            )
            &&& some && last is CWPressed <==> steps == Some(150_000i64)
            &&& some && last is CCWPressed <==> steps == Some(-150_000i64)
            &&& !button_pressed(messages) ==> after == before && result is Hold
            &&& button_pressed(messages) && !leaves ==> after.action == pressed_action(last)
                && after.return_to == before.return_to
        }),
{
}

/// The next pass begins exactly five minutes after the last one ended, unless a button
/// sends the tower into maintenance before; while it waits it tells the network machine
/// where it is, and nothing else.
pub proof fn a_pass_begins_in_time(
    wait: MotionTrackingWait,
    ctx: MotionContext,
    messages: Seq<Message>,
    now: u64,
    before: EffectsView,
    after: EffectsView,
    r: StateResult,
)
    requires
        tracking_wait_leads(wait, ctx, messages, now, before, after, r),
    ensures
        !button_pressed(messages) ==> {
            &&& (r matches StateResult::Running(MotionState::Tracking)) <==> now >= wait.begin
                + 300_000_000_000
            &&& r is Hold <==> now < wait.begin + 300_000_000_000
            &&& after.mail == before.mail.push(
                MailView {
                    to: FSMAddress::Network,
                    message: Message::UpdateNetworkMotionContext(
                        ctx.motion_mode,
                        ctx.actual_heading,
                    ),
                },
            )
        },
        button_pressed(messages) ==> after == before && (r matches StateResult::Running(
            MotionState::Maintenance(m),
        ) && m.action == pressed_action(messages.last()) && (m.return_to matches Some(state)
            && *state == MotionState::Tracking)),
        after.motor == before.motor && after.writes == before.writes,
{
}

} // verus!
