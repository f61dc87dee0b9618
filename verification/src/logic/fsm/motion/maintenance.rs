//! In maintenance: the buttons move the tower.

use std::collections::VecDeque;

use vstd::prelude::*;

use crate::logic::fsm::mail::{inbox_view, FSMCommand, FSMState, Message};
use crate::logic::fsm::motion::context::{
    check_maintenance, latest_maintenance, MaintenanceAction, MotionMaintenance, MotionState,
    StateResult,
};
use crate::logic::types::Direction;

verus! {

/// How far one press moves the tower, in steps.
pub const MAINTENANCE_STEPS: i64 = 150_000;

pub open spec fn steps_of(direction: Direction) -> i64 {
    match direction {
        Direction::Ccw => -150_000i64,
        Direction::Cw => 150_000i64,
    }
}

fn steps(direction: Direction) -> (r: i64)
    ensures
        r == steps_of(direction),
        -MAINTENANCE_STEPS <= r <= MAINTENANCE_STEPS,
{
    match direction {
        Direction::Ccw => -MAINTENANCE_STEPS,
        Direction::Cw => MAINTENANCE_STEPS,
    }
}

/// Where maintenance leads back to.
pub open spec fn way_back(return_to: Option<Box<MotionState>>) -> MotionState {
    match return_to {
        Some(state) => *state,
        None => MotionState::Init,
    }
}

fn take_way_back(return_to: &mut Option<Box<MotionState>>) -> (r: MotionState)
    ensures
        r == way_back(*old(return_to)),
        *final(return_to) is None,
{
    match return_to.take() {
        Some(state) => *state,
        None => MotionState::Init,
    }
}

/// What a step in maintenance leads to.
pub open spec fn hold_leads(
    before: MotionMaintenance,
    messages: Seq<Message>,
    after: MotionMaintenance,
    shared: FSMState,
    result: StateResult,
    steps: Option<i64>,
) -> bool {
    let asked = latest_maintenance(messages);
    if asked == Some(MaintenanceAction::Idle) && before.action
        == MaintenanceAction::Idle {
        &&& result == StateResult::Running(way_back(before.return_to))
        &&& steps is None
        &&& !shared.maintenance_mode
    } else {
        let action = match asked {
            Some(a) => a,
            None => before.action,
        };
        &&& result is Hold
        &&& after.action == action
        &&& after.return_to == before.return_to
        &&& shared.maintenance_mode
        &&& steps == (match action {
            MaintenanceAction::Moving(direction) => Some(steps_of(direction)),
            MaintenanceAction::Idle => None,
        })
    }
}

/// What a step in maintenance leads to on a tower that makes one move per press.
pub open spec fn press_leads(
    before: MotionMaintenance,
    messages: Seq<Message>,
    after: MotionMaintenance,
    result: StateResult,
    steps: Option<i64>,
) -> bool {
    match latest_maintenance(messages) {
        None => result is Hold && steps is None && after == before,
        Some(MaintenanceAction::Moving(direction)) => {
            &&& result is Hold
            &&& steps == Some(steps_of(direction))
            &&& after.action == MaintenanceAction::Moving(direction)
            &&& after.return_to == before.return_to
        },
        Some(MaintenanceAction::Idle) => if before.action == MaintenanceAction::Idle {
            &&& result == StateResult::Running(way_back(before.return_to))
            &&& steps is None
        } else {
            &&& result is Hold
            &&& steps is None
            &&& after.action == MaintenanceAction::Idle
            &&& after.return_to == before.return_to
        },
    }
}

impl MotionMaintenance {
    /// A step. A second press of the maintenance button leaves maintenance; while a
    /// direction is set, every step moves the tower that way.
    ///
    /// The result is what to do next and the steps to move; the shared state says
    /// whether the tower is in maintenance.
    pub fn process(&mut self, inbox: &mut VecDeque<FSMCommand>, shared: &mut FSMState) -> (r: (
        StateResult,
        Option<i64>,
    ))
        ensures
            final(inbox)@.len() == 0,
            hold_leads(
                *old(self),
                inbox_view(old(inbox)@),
                *final(self),
                *final(shared),
                r.0,
                r.1,
            ),
    {
        shared.maintenance_mode = true;
        match check_maintenance(inbox) {
            Some(MaintenanceAction::Idle) => {
                if matches!(self.action, MaintenanceAction::Idle) {
                    shared.maintenance_mode = false;
                    return (StateResult::Running(take_way_back(&mut self.return_to)), None);
                }
                self.action = MaintenanceAction::Idle;
            },
            Some(action) => {
                self.action = action;
            },
            None => {},
        }
        match self.action {
            MaintenanceAction::Moving(direction) => (StateResult::Hold, Some(steps(direction))),
            MaintenanceAction::Idle => (StateResult::Hold, None),
        }
    }

    /// A step of a tower that makes one move per press, and does not say on the
    /// shared state that it is in maintenance.
    pub fn process_presses(&mut self, inbox: &mut VecDeque<FSMCommand>) -> (r: (
        StateResult,
        Option<i64>,
    ))
        ensures
            final(inbox)@.len() == 0,
            press_leads(*old(self), inbox_view(old(inbox)@), *final(self), r.0, r.1),
    {
        match check_maintenance(inbox) {
            None => (StateResult::Hold, None),
            Some(MaintenanceAction::Moving(direction)) => {
                self.action = MaintenanceAction::Moving(direction);
                (StateResult::Hold, Some(steps(direction)))
            },
            Some(MaintenanceAction::Idle) => {
                if matches!(self.action, MaintenanceAction::Idle) {
                    (StateResult::Running(take_way_back(&mut self.return_to)), None)
                } else {
                    self.action = MaintenanceAction::Idle;
                    (StateResult::Hold, None)
                }
            },
        }
    }
}

} // verus!
