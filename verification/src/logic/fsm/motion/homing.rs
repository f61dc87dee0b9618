//! Finding home.
//!
//! Homing policy: a stepper-only tower always homes. A tower guarded by its encoder
//! homes when no snapshot could be restored or it cannot be trusted, and when it
//! claims to be at home but the limit switch does not confirm it.

use std::collections::VecDeque;

use vstd::prelude::*;

use crate::ieee::Single;
use crate::logic::encoder_fault::{persist_position, position_writes};
use crate::logic::fsm::mail::{inbox_view, FSMCommand, Message};
use crate::logic::fsm::motion::context::{
    enters_maintenance, error_loop, latest_maintenance, perform_maintenance_transition, stops_with,
    Effects, EffectsView, MotionBeginHoming, MotionContext, MotionHoming, MotionMoving, MotionState,
    MotorCommand, StateResult,
};
use crate::logic::types::{Component, FaultReport, FaultView, MotionMode};
use crate::storage::snapshot_store::{saved_last_run_normal, SnapshotStore};

verus! {

/// How near to home a heading claims to be there: a hundredth of a degree, as the
/// bit pattern of a single-precision value.
pub const HOME_HEADING_VERIFY_EPS_DEG: u32 = 0x3C23_D70A;

pub open spec fn near_home(home_distance: Single) -> bool {
    home_distance.abs_spec().lt_spec(Single { bits: HOME_HEADING_VERIFY_EPS_DEG })
}

/// Whether a heading at `home_distance` degrees from home claims to be there.
pub fn claims_home(home_distance: Single) -> (r: bool)
    ensures
        r == near_home(home_distance),
{
    home_distance.abs().lt(Single { bits: HOME_HEADING_VERIFY_EPS_DEG })
}

/// Whether the policy asks for homing.
pub open spec fn homing_wanted(
    mode: MotionMode,
    restored: bool,
    trusted: bool,
    at_home: bool,
    switch_pressed: bool,
) -> bool {
    mode == MotionMode::StepperOnly || !restored || !trusted || (at_home && !switch_pressed)
}

pub open spec fn untrusted_fault() -> FaultView {
    FaultView {
        component: Component::System,
        message: "Homing disabled with untrusted NVS state"@,
        notes: "HOMING_ENABLED=false but persisted heading could not be trusted; manual intervention required."@,
    }
}

pub open spec fn not_found_fault() -> FaultView {
    FaultView {
        component: Component::LimitSwitch,
        message: "Limit switch not found during boot homing"@,
        notes: "Boot-time homing sweep completed without detecting the limit switch; tower orientation unknown"@,
    }
}

/// What the hardware says before homing.
#[derive(Debug, Clone, Copy)]
pub struct HomingReadings {
    /// How far the believed heading is from home, in degrees.
    pub home_distance: Single,
    /// The limit switch is pressed.
    pub switch_pressed: bool,
    /// Stall detection is on.
    pub stall_detection: bool,
    /// The steps of the whole search, a sweep of 350 degrees counter-clockwise.
    pub search_steps: i64,
}

/// What deciding on homing leads to.
pub open spec fn begin_leads(
    ctx: MotionContext,
    messages: Seq<Message>,
    readings: HomingReadings,
    before: EffectsView,
    after: EffectsView,
    r: StateResult,
) -> bool {
    match latest_maintenance(messages) {
        Some(action) => enters_maintenance(r, action, MotionState::BeginHoming)
            && after == before,
        None => {
            let wanted = homing_wanted(
                ctx.motion_mode,
                ctx.restored_from_snapshot,
                ctx.trust_nvs_state,
                near_home(readings.home_distance),
                readings.switch_pressed,
            );
            let enabled = ctx.switchboard.boot.homing.enabled;
            if wanted && enabled && readings.switch_pressed {
                &&& r == StateResult::Running(MotionState::Tracking)
                &&& after == before.motored(
                    seq![
                        MotorCommand::UpdatePosition(
                            ctx.switchboard.home_heading_deg,
                        ),
                        MotorCommand::ForceZeroIfLimitSwitchPressed,
                    ],
                )
            } else if wanted && enabled {
                &&& r == StateResult::Running(
                    MotionState::Homing(
                        MotionHoming {
                            stall_prev: readings.stall_detection,
                            steps_left: readings.search_steps,
                        },
                    ),
                )
                &&& after == before.motored(
                    seq![
                        MotorCommand::SetHoming(true),
                        MotorCommand::SetStallDetection(false),
                    ],
                )
            } else if wanted && !ctx.trust_nvs_state {
                stops_with(r, untrusted_fault()) && after == before
            } else {
                &&& r == StateResult::Running(MotionState::Tracking)
                &&& after == before.wrote(seq![saved_last_run_normal(true)])
            }
        },
    }
}

impl MotionBeginHoming {
    /// Decide whether to home.
    pub fn process(
        &self,
        ctx: &MotionContext,
        inbox: &mut VecDeque<FSMCommand>,
        readings: &HomingReadings,
        fx: &mut Effects,
    ) -> (r: StateResult)
        ensures
            final(inbox)@.len() == 0,
            begin_leads(
                *ctx,
                inbox_view(old(inbox)@),
                *readings,
                old(fx)@,
                final(fx)@,
                r,
            ),
    {
        match perform_maintenance_transition(inbox, MotionState::BeginHoming) {
            Some(result) => {
                return result;
            },
            None => {},
        }
        let would_skip = ctx.motion_mode == MotionMode::EncoderGuarded
            && ctx.restored_from_snapshot && ctx.trust_nvs_state;
        let needs_verify = would_skip && claims_home(readings.home_distance)
            && !readings.switch_pressed;
        let wanted = ctx.motion_mode == MotionMode::StepperOnly || !ctx.restored_from_snapshot
            || !ctx.trust_nvs_state || needs_verify;
        if wanted && ctx.switchboard.boot.homing.enabled {
            if readings.switch_pressed {
                fx.motor(MotorCommand::UpdatePosition(ctx.switchboard.home_heading_deg));
                fx.motor(MotorCommand::ForceZeroIfLimitSwitchPressed);
                assert(fx@ =~= old(fx)@.motored(
                    seq![
                        MotorCommand::UpdatePosition(ctx.switchboard.home_heading_deg),
                        MotorCommand::ForceZeroIfLimitSwitchPressed,
                    ],
                ));
                return StateResult::Running(MotionState::Tracking);
            }
            fx.motor(MotorCommand::SetHoming(true));
            fx.motor(MotorCommand::SetStallDetection(false));
            assert(fx@ =~= old(fx)@.motored(
                seq![MotorCommand::SetHoming(true), MotorCommand::SetStallDetection(false)],
            ));
            return StateResult::Running(
                MotionState::Homing(
                    MotionHoming {
                        stall_prev: readings.stall_detection,
                        steps_left: readings.search_steps,
                    },
                ),
            );
        }
        if wanted && !ctx.trust_nvs_state {
            return error_loop(
                FaultReport::new(
                    Component::System,
                    "Homing disabled with untrusted NVS state",
                    "HOMING_ENABLED=false but persisted heading could not be trusted; manual intervention required.",
                ),
            );
        }
        SnapshotStore::new(true).save_last_run_normal(true, &mut fx.journal);
        assert(fx@ =~= old(fx)@.wrote(seq![saved_last_run_normal(true)]));
        StateResult::Running(MotionState::Tracking)
    }
}

/// A search before or after a step.
#[verifier::ext_equal]
pub struct SearchState {
    pub homing: MotionHoming,
    pub ctx: MotionContext,
    pub fx: EffectsView,
}

/// What a step of a search leads to.
pub open spec fn search_leads(
    before: SearchState,
    messages: Seq<Message>,
    switch_pressed: bool,
    degree_steps: i64,
    encoder_ticks: i32,
    after: SearchState,
    r: StateResult,
) -> bool {
    &&& after.homing.stall_prev == before.homing.stall_prev
    &&& match latest_maintenance(messages) {
        Some(action) => {
            &&& enters_maintenance(r, action, MotionState::Homing(before.homing))
            &&& after.homing == before.homing
            &&& after.ctx == before.ctx
            &&& after.fx == before.fx
        },
        None => if before.homing.searching(switch_pressed) {
            &&& r == StateResult::Running(
                MotionState::Moving(MotionMoving { steps: degree_steps }),
            )
            &&& after.homing.steps_left == before.homing.steps_left - degree_steps
            &&& after.ctx == before.ctx
            &&& after.fx == before.fx
        } else {
            let home = before.ctx.switchboard.home_heading_deg;
            let stopped = before.fx.motored(
                seq![
                    MotorCommand::SetStallDetection(before.homing.stall_prev),
                    MotorCommand::SetHoming(false),
                ],
            );
            &&& after.homing == before.homing
            &&& if !switch_pressed {
                &&& stops_with(r, not_found_fault())
                &&& after.ctx == before.ctx
                &&& after.fx == stopped
            } else {
                &&& r == StateResult::Running(MotionState::Tracking)
                &&& after.ctx == (MotionContext { actual_heading: home, ..before.ctx })
                &&& after.fx == stopped.motored(
                    if before.homing.steps_left < 0 {
                        seq![
                            MotorCommand::UpdatePosition(home),
                            MotorCommand::ForceZeroIfLimitSwitchPressed,
                        ]
                    } else {
                        Seq::empty()
                    },
                ).wrote(
                    position_writes(true, home, before.ctx.motion_mode, encoder_ticks),
                )
            }
        },
    }
}

impl MotionHoming {
    /// Whether the search goes on: travel is left and the switch is not found.
    pub open spec fn searching(self, switch_pressed: bool) -> bool {
        self.steps_left < 0 && !switch_pressed
    }

    /// Search on, degree by degree, until the switch is found or the travel is used
    /// up. `degree_steps` is a move of one degree counter-clockwise.
    ///
    /// A switch that was found makes the tower believe and persist the home
    /// heading; one that was not stops it.
    pub fn process(
        &mut self,
        ctx: &mut MotionContext,
        inbox: &mut VecDeque<FSMCommand>,
        switch_pressed: bool,
        degree_steps: i64,
        encoder_ticks: i32,
        fx: &mut Effects,
    ) -> (r: StateResult)
        requires
            degree_steps < 0,
        ensures
            final(inbox)@.len() == 0,
            search_leads(
                (SearchState { homing: *old(self), ctx: *old(ctx), fx: old(fx)@ }),
                inbox_view(old(inbox)@),
                switch_pressed,
                degree_steps,
                encoder_ticks,
                (SearchState { homing: *final(self), ctx: *final(ctx), fx: final(fx)@ }),
                r,
            ),
    {
        match perform_maintenance_transition(inbox, MotionState::Homing(*self)) {
            Some(result) => {
                return result;
            },
            None => {},
        }
        if self.steps_left < 0 && !switch_pressed {
            self.steps_left = self.steps_left - degree_steps;
            return StateResult::Running(
                MotionState::Moving(MotionMoving { steps: degree_steps }),
            );
        }
        let ghost begun = fx@;
        fx.motor(MotorCommand::SetStallDetection(self.stall_prev));
        fx.motor(MotorCommand::SetHoming(false));
        let ghost stopped = begun.motored(
            seq![
                MotorCommand::SetStallDetection(self.stall_prev),
                MotorCommand::SetHoming(false),
            ],
        );
        assert(fx@ =~= stopped);
        if !switch_pressed {
            return error_loop(
                FaultReport::new(
                    Component::LimitSwitch,
                    "Limit switch not found during boot homing",
                    "Boot-time homing sweep completed without detecting the limit switch; tower orientation unknown",
                ),
            );
        }
        let home = ctx.switchboard.home_heading_deg;
        if self.steps_left < 0 {
            fx.motor(MotorCommand::UpdatePosition(home));
            fx.motor(MotorCommand::ForceZeroIfLimitSwitchPressed);
        }
        let ghost positioned = fx@;
        ctx.actual_heading = home;
        persist_position(true, home, ctx.motion_mode, encoder_ticks, &mut fx.journal);
        proof {
            let commands: Seq<MotorCommand> = if old(self).steps_left < 0 {
                seq![
                    MotorCommand::UpdatePosition(home),
                    MotorCommand::ForceZeroIfLimitSwitchPressed,
                ]
            } else {
                Seq::empty()
            };
            assert(positioned =~= stopped.motored(commands));
            assert(fx@ =~= positioned.wrote(
                position_writes(true, home, old(ctx).motion_mode, encoder_ticks),
            ));
        }
        StateResult::Running(MotionState::Tracking)
    }
}

/// The travel that is left after a run of search moves.
pub open spec fn left_after(steps_left: int, degree_steps: int, moves: nat) -> int
    decreases moves,
{
    if moves == 0 {
        steps_left
    } else {
        left_after(steps_left, degree_steps, (moves - 1) as nat) - degree_steps
    }
}

/// A search ends: after as many moves as its travel has steps none is left, however
/// small a move is, so the switch is found or the tower stops.
pub proof fn the_search_ends(steps_left: int, degree_steps: int)
    requires
        steps_left < 0,
        degree_steps < 0,
    ensures
        left_after(steps_left, degree_steps, (-steps_left) as nat) >= 0,
{
    left_at_least(steps_left, degree_steps, (-steps_left) as nat);
}

proof fn left_at_least(steps_left: int, degree_steps: int, moves: nat)
    requires
        degree_steps < 0,
    ensures
        left_after(steps_left, degree_steps, moves) >= steps_left + moves,
    decreases moves,
{
    if moves > 0 {
        left_at_least(steps_left, degree_steps, (moves - 1) as nat);
    }
}

/// A stepper-only tower homes, whatever it restored.
pub proof fn a_stepper_only_tower_homes(
    restored: bool,
    trusted: bool,
    at_home: bool,
    switch_pressed: bool,
)
    ensures
        homing_wanted(MotionMode::StepperOnly, restored, trusted, at_home, switch_pressed),
{
}

/// Homing is skipped only on a restored and trusted snapshot, and a claim to be at
/// home is believed only with the switch pressed.
pub proof fn homing_is_skipped_only_when_sure(
    mode: MotionMode,
    restored: bool,
    trusted: bool,
    at_home: bool,
    switch_pressed: bool,
)
    requires
        !homing_wanted(mode, restored, trusted, at_home, switch_pressed),
    ensures
        mode == MotionMode::EncoderGuarded,
        restored && trusted,
        at_home ==> switch_pressed,
{
}

} // verus!
