//! Moving the tower by hand with the buttons.

use vstd::prelude::*;

use crate::logic::fsm::buttons::ButtonLevels;
use crate::logic::fsm::mail::{FSMCommand, Message};

verus! {

pub const CCW_STEPS: i64 = 30_000;
pub const CW_STEPS: i64 = -30_000;

/// The buttons as they are and as they were at the look before.
#[derive(Debug, Clone, Copy, PartialEq, Eq, Structural)]
pub struct MaintenanceContext {
    pub now: ButtonLevels,
    pub last: ButtonLevels,
}

impl MaintenanceContext {
    pub fn new() -> (r: Self)
        ensures
            r.now == (ButtonLevels { maintenance: false, ccw: false, cw: false }),
            r.last == r.now,
    {
        let up = ButtonLevels { maintenance: false, ccw: false, cw: false };
        MaintenanceContext { now: up, last: up }
    }

    /// Look at the buttons.
    pub fn poll_buttons(&mut self, levels: ButtonLevels)
        ensures
            final(self).now == levels,
            final(self).last == old(self).now,
    {
        self.last = self.now;
        self.now = levels;
    }

    pub open spec fn maintenance_edge(self) -> bool {
        self.now.maintenance && !self.last.maintenance
    }

    pub open spec fn ccw_edge(self) -> bool {
        self.now.ccw && !self.last.ccw
    }

    pub open spec fn cw_edge(self) -> bool {
        self.now.cw && !self.last.cw
    }

    pub fn maintenance_pressed(&self) -> (r: bool)
        ensures
            r == self.maintenance_edge(),
    {
        self.now.maintenance && !self.last.maintenance
    }

    pub fn ccw_pressed(&self) -> (r: bool)
        ensures
            r == self.ccw_edge(),
    {
        self.now.ccw && !self.last.ccw
    }

    pub fn cw_pressed(&self) -> (r: bool)
        ensures
            r == self.cw_edge(),
    {
        self.now.cw && !self.last.cw
    }
}

/// The states of manual movement.
#[derive(Debug, Clone, Copy, PartialEq, Eq, Structural)]
pub enum MaintenanceState {
    Enter,
    NotMoving,
    MoveCCW,
    MoveCW,
    Exit,
}

/// Waiting for the maintenance button.
#[derive(Debug, Clone, Copy)]
pub struct MaintenanceEnter;

/// In maintenance, standing still.
#[derive(Debug, Clone, Copy)]
pub struct MaintenanceNotMoving;

/// In maintenance, turning counter-clockwise.
#[derive(Debug, Clone, Copy)]
pub struct MaintenanceMoveCCW;

/// In maintenance, turning clockwise.
#[derive(Debug, Clone, Copy)]
pub struct MaintenanceMoveCW;

/// Leaving maintenance.
#[derive(Debug, Clone, Copy)]
pub struct MaintenanceExit;

/// The state after a step, and what the step sends.
pub open spec fn step_of(state: MaintenanceState, ctx: MaintenanceContext) -> (
    MaintenanceState,
    Seq<Message>,
) {
    match state {
        MaintenanceState::Enter => if ctx.maintenance_edge() {
            (MaintenanceState::NotMoving, seq![Message::LEDMaintenance])
        } else {
            (MaintenanceState::Enter, Seq::empty())
        },
        MaintenanceState::Exit => (MaintenanceState::Enter, Seq::empty()),
        _ => if ctx.maintenance_edge() {
            (MaintenanceState::Exit, seq![Message::LEDOff])
        } else if state == MaintenanceState::NotMoving {
            if ctx.ccw_edge() {
                (MaintenanceState::MoveCCW, seq![Message::LEDMaintenanceMovingCCW])
            } else if ctx.cw_edge() {
                (MaintenanceState::MoveCW, seq![Message::LEDMaintenanceMovingCW])
            } else {
                (MaintenanceState::NotMoving, Seq::empty())
            }
        } else if state == MaintenanceState::MoveCCW {
            if ctx.cw_edge() {
                (MaintenanceState::MoveCW, seq![Message::LEDMaintenanceMovingCW])
            } else {
                (
                    MaintenanceState::MoveCCW,
                    seq![Message::LEDMaintenanceMovingCCW, Message::MotionMoveBy(CCW_STEPS)],
                )
            }
        } else {
            if ctx.ccw_edge() {
                (MaintenanceState::MoveCCW, seq![Message::LEDMaintenanceMovingCCW])
            } else {
                (
                    MaintenanceState::MoveCW,
                    seq![Message::LEDMaintenanceMovingCW, Message::MotionMoveBy(CW_STEPS)],
                )
            }
        },
    }
}

pub open spec fn sent(messages: Seq<FSMCommand>) -> Seq<Message> {
    messages.map_values(|m: FSMCommand| m@)
}

fn one(message: FSMCommand) -> (r: Vec<FSMCommand>)
    ensures
        sent(r@) == seq![message@],
{
    let mut r: Vec<FSMCommand> = Vec::new();
    r.push(message);
    assert(sent(r@) =~= seq![message@]);
    r
}

fn two(first: FSMCommand, second: FSMCommand) -> (r: Vec<FSMCommand>)
    ensures
        sent(r@) == seq![first@, second@],
{
    let mut r: Vec<FSMCommand> = Vec::new();
    r.push(first);
    r.push(second);
    assert(sent(r@) =~= seq![first@, second@]);
    r
}

fn none() -> (r: Vec<FSMCommand>)
    ensures
        sent(r@) == Seq::<Message>::empty(),
{
    let r: Vec<FSMCommand> = Vec::new();
    assert(sent(r@) =~= Seq::<Message>::empty());
    r
}

impl MaintenanceEnter {
    pub fn process(&self, ctx: &mut MaintenanceContext, levels: ButtonLevels) -> (r: (
        MaintenanceState,
        Vec<FSMCommand>,
    ))
        ensures
            *final(ctx) == (MaintenanceContext { now: levels, last: old(ctx).now }),
            (r.0, sent(r.1@)) == step_of(MaintenanceState::Enter, *final(ctx)),
    {
        ctx.poll_buttons(levels);
        if ctx.maintenance_pressed() {
            (MaintenanceState::NotMoving, one(FSMCommand::LEDMaintenance))
        } else {
            (MaintenanceState::Enter, none())
        }
    }
}

impl MaintenanceNotMoving {
    pub fn process(&self, ctx: &mut MaintenanceContext, levels: ButtonLevels) -> (r: (
        MaintenanceState,
        Vec<FSMCommand>,
    ))
        ensures
            *final(ctx) == (MaintenanceContext { now: levels, last: old(ctx).now }),
            (r.0, sent(r.1@)) == step_of(MaintenanceState::NotMoving, *final(ctx)),
    {
        ctx.poll_buttons(levels);
        if ctx.maintenance_pressed() {
            (MaintenanceState::Exit, one(FSMCommand::LEDOff))
        } else if ctx.ccw_pressed() {
            (MaintenanceState::MoveCCW, one(FSMCommand::LEDMaintenanceMovingCCW))
        } else if ctx.cw_pressed() {
            (MaintenanceState::MoveCW, one(FSMCommand::LEDMaintenanceMovingCW))
        } else {
            (MaintenanceState::NotMoving, none())
        }
    }
}

impl MaintenanceMoveCCW {
    pub fn process(&self, ctx: &mut MaintenanceContext, levels: ButtonLevels) -> (r: (
        MaintenanceState,
        Vec<FSMCommand>,
    ))
        ensures
            *final(ctx) == (MaintenanceContext { now: levels, last: old(ctx).now }),
            (r.0, sent(r.1@)) == step_of(MaintenanceState::MoveCCW, *final(ctx)),
    {
        ctx.poll_buttons(levels);
        if ctx.maintenance_pressed() {
            (MaintenanceState::Exit, one(FSMCommand::LEDOff))
        } else if ctx.cw_pressed() {
            (MaintenanceState::MoveCW, one(FSMCommand::LEDMaintenanceMovingCW))
        } else {
            (
                MaintenanceState::MoveCCW,
                two(FSMCommand::LEDMaintenanceMovingCCW, FSMCommand::MotionMoveBy(CCW_STEPS)),
            )
        }
    }
}

impl MaintenanceMoveCW {
    pub fn process(&self, ctx: &mut MaintenanceContext, levels: ButtonLevels) -> (r: (
        MaintenanceState,
        Vec<FSMCommand>,
    ))
        ensures
            *final(ctx) == (MaintenanceContext { now: levels, last: old(ctx).now }),
            (r.0, sent(r.1@)) == step_of(MaintenanceState::MoveCW, *final(ctx)),
    {
        ctx.poll_buttons(levels);
        if ctx.maintenance_pressed() {
            (MaintenanceState::Exit, one(FSMCommand::LEDOff))
        } else if ctx.ccw_pressed() {
            (MaintenanceState::MoveCCW, one(FSMCommand::LEDMaintenanceMovingCCW))
        } else {
            (
                MaintenanceState::MoveCW,
                two(FSMCommand::LEDMaintenanceMovingCW, FSMCommand::MotionMoveBy(CW_STEPS)),
            )
        }
    }
}

impl MaintenanceExit {
    pub fn process(&self) -> (r: MaintenanceState)
        ensures
            r == MaintenanceState::Enter,
    {
        MaintenanceState::Enter
    }
}

/// The tower is moved by hand only in the two moving states, and only in that
/// state's direction.
pub proof fn only_moving_states_move(state: MaintenanceState, ctx: MaintenanceContext, steps: i64)
    requires
        step_of(state, ctx).1.contains(Message::MotionMoveBy(steps)),
    ensures
        state == MaintenanceState::MoveCCW && steps == CCW_STEPS || state
            == MaintenanceState::MoveCW && steps == CW_STEPS,
        step_of(state, ctx).0 == state,
{
    let messages = step_of(state, ctx).1;
    let i = choose|i: int|
        0 <= i < messages.len() && messages[i] == Message::MotionMoveBy(steps);
    assert(messages[i] == Message::MotionMoveBy(steps));
}

/// Pressing the maintenance button leaves maintenance from every state inside it,
/// and switches the LED off.
pub proof fn the_maintenance_button_leaves(state: MaintenanceState, ctx: MaintenanceContext)
    requires
        ctx.maintenance_edge(),
        state != MaintenanceState::Enter,
        state != MaintenanceState::Exit,
    ensures
        step_of(state, ctx) == (MaintenanceState::Exit, seq![Message::LEDOff]),
{
}

} // verus!
