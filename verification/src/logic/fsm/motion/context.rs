//! What the motion machine knows, the states it has and the effects it asks for.

use std::collections::VecDeque;

use vstd::prelude::*;

use crate::config::switchboard::Switchboard;
use crate::ieee::Single;
use crate::logic::encoder_fault::EncoderFaultRecovery;
use crate::logic::fsm::mail::{
    inbox_view, outbox_view, receive_latest, send, FSMAddress, FSMCommand, Mail, MailView,
    Message,
};
use crate::logic::types::{Component, Direction, FaultReport, FaultView, MotionMode};
use crate::storage::snapshot_store::{writes, NvsWrite, NvsWriteView};

verus! {

/// What the motor driver is asked to do.
#[derive(Debug, Clone, Copy)]
pub enum MotorCommand {
    SetMode(MotionMode),
    PowerOn,
    UpdatePosition(Single),
    SetEncoderZeroOffset(i32),
    ForceZeroIfLimitSwitchPressed,
    SetHoming(bool),
    SetStallDetection(bool),
    Enable,
    Disable,
    MoveBy(i64),
}

/// What a step asks for: mail, motor commands and writes, each in order.
#[derive(Debug)]
pub struct Effects {
    pub mail: Vec<Mail>,
    pub motor: Vec<MotorCommand>,
    pub journal: Vec<NvsWrite>,
}

#[verifier::ext_equal]
pub struct EffectsView {
    pub mail: Seq<MailView>,
    pub motor: Seq<MotorCommand>,
    pub writes: Seq<NvsWriteView>,
}

impl View for Effects {
    type V = EffectsView;

    open spec fn view(&self) -> EffectsView {
        EffectsView {
            mail: outbox_view(self.mail@),
            motor: self.motor@,
            writes: writes(self.journal@),
        }
    }
}

impl EffectsView {
    /// The effects with further motor commands.
    pub open spec fn motored(self, commands: Seq<MotorCommand>) -> EffectsView {
        EffectsView { motor: self.motor + commands, ..self }
    }

    /// The effects with further writes.
    pub open spec fn wrote(self, more: Seq<NvsWriteView>) -> EffectsView {
        EffectsView { writes: self.writes + more, ..self }
    }

    /// The effects with further mail.
    pub open spec fn mailed(self, more: Seq<MailView>) -> EffectsView {
        EffectsView { mail: self.mail + more, ..self }
    }
}

impl Effects {
    pub fn new() -> (r: Self)
        ensures
            r@ == (EffectsView { mail: Seq::empty(), motor: Seq::empty(), writes: Seq::empty() }),
    {
        let r = Effects { mail: Vec::new(), motor: Vec::new(), journal: Vec::new() };
        assert(r@.mail =~= Seq::empty());
        assert(r@.writes =~= Seq::empty());
        r
    }

    pub fn motor(&mut self, command: MotorCommand)
        ensures
            final(self)@ == old(self)@.motored(seq![command]),
    {
        self.motor.push(command);
        assert(self@ =~= old(self)@.motored(seq![command]));
    }

    pub fn mail(&mut self, to: FSMAddress, message: FSMCommand)
        ensures
            final(self)@ == old(self)@.mailed(seq![MailView { to, message: message@ }]),
    {
        send(&mut self.mail, to, message);
        assert(self@ =~= old(self)@.mailed(seq![MailView { to, message: message@ }]));
    }
}

/// What the motion machine knows.
#[derive(Debug)]
pub struct MotionContext {
    pub switchboard: Switchboard,
    /// The state in flash was written by a normal run.
    pub trust_nvs_state: bool,
    pub motion_mode: MotionMode,
    pub previous_motion_mode: MotionMode,
    pub restored_from_snapshot: bool,
    pub actual_heading: Single,
    pub encoder_fault: EncoderFaultRecovery,
    pub need_rehome: bool,
}

impl MotionContext {
    pub fn new(switchboard: Switchboard, trust_nvs_state: bool) -> (r: Self)
        ensures
            r.switchboard == switchboard,
            r.trust_nvs_state == trust_nvs_state,
            r.motion_mode == MotionMode::EncoderGuarded,
            r.previous_motion_mode == MotionMode::EncoderGuarded,
            !r.restored_from_snapshot,
            r.actual_heading == (Single { bits: 0 }),
            r.encoder_fault == (EncoderFaultRecovery {
                active: false,
                next_probe_at: None,
                probe_failure_count: 0,
                mode_switched_daily: false,
            }),
            !r.need_rehome,
    {
        MotionContext {
            switchboard,
            trust_nvs_state,
            motion_mode: MotionMode::EncoderGuarded,
            previous_motion_mode: MotionMode::EncoderGuarded,
            restored_from_snapshot: false,
            actual_heading: Single { bits: 0 },
            encoder_fault: EncoderFaultRecovery::new(),
            need_rehome: false,
        }
    }
}

/// Restoring the tower's bearings.
#[derive(Debug, Clone, Copy)]
pub struct MotionInit;

/// Deciding whether to home.
#[derive(Debug, Clone, Copy)]
pub struct MotionBeginHoming;

/// Searching for the limit switch.
#[derive(Debug, Clone, Copy, PartialEq, Eq, Structural)]
pub struct MotionHoming {
    /// Whether stall detection was on before the search.
    pub stall_prev: bool,
    /// The travel that is left, negative while there is some.
    pub steps_left: i64,
}

/// Making one move for the state before.
#[derive(Debug, Clone, Copy, PartialEq, Eq, Structural)]
pub struct MotionMoving {
    pub steps: i64,
}

/// Stopped by a fault.
#[derive(Debug)]
pub struct MotionErrorLoop {
    pub component: Component,
    pub message: String,
    pub notes: String,
}

impl View for MotionErrorLoop {
    type V = FaultView;

    open spec fn view(&self) -> FaultView {
        FaultView { component: self.component, message: self.message@, notes: self.notes@ }
    }
}

/// Following the sun.
#[derive(Debug, Clone, Copy)]
pub struct MotionTracking;

/// Waiting for the next look at the sun.
#[derive(Debug, Clone, Copy, PartialEq, Eq, Structural)]
pub struct MotionTrackingWait {
    pub begin: u64,
}

/// What a tower in maintenance does.
#[derive(Debug, Clone, Copy, PartialEq, Eq, Structural)]
pub enum MaintenanceAction {
    Moving(Direction),
    Idle,
}

/// In maintenance, with the state to return to.
#[derive(Debug)]
pub struct MotionMaintenance {
    pub action: MaintenanceAction,
    pub return_to: Option<Box<MotionState>>,
}

/// The states of the motion machine.
#[derive(Debug)]
pub enum MotionState {
    Init,
    BeginHoming,
    Homing(MotionHoming),
    Moving(MotionMoving),
    ErrorLoop(MotionErrorLoop),
    Tracking,
    TrackingWait(MotionTrackingWait),
    Maintenance(MotionMaintenance),
}

/// What a step leads to.
#[derive(Debug)]
pub enum StateResult {
    Hold,
    Running(MotionState),
}

/// The result is to stop with this fault.
pub open spec fn stops_with(result: StateResult, fault: FaultView) -> bool {
    result matches StateResult::Running(MotionState::ErrorLoop(e)) && e@ == fault
}

/// Stop with a fault.
pub fn error_loop(fault: FaultReport) -> (r: StateResult)
    ensures
        stops_with(r, fault@),
{
    StateResult::Running(
        MotionState::ErrorLoop(
            MotionErrorLoop {
                component: fault.component,
                message: fault.message,
                notes: fault.notes,
            },
        ),
    )
}

/// What a message asks a machine in motion to do for maintenance.
pub open spec fn maintenance_asked(message: Message) -> Option<MaintenanceAction> {
    match message {
        Message::CCWPressed => Some(MaintenanceAction::Moving(Direction::Ccw)),
        Message::CWPressed => Some(MaintenanceAction::Moving(Direction::Cw)),
        Message::MaintenancePressed => Some(MaintenanceAction::Idle),
        _ => None,
    }
}

/// What the newest message of an inbox asks for.
pub open spec fn latest_maintenance(messages: Seq<Message>) -> Option<MaintenanceAction> {
    if messages.len() == 0 {
        None
    } else {
        maintenance_asked(messages.last())
    }
}

/// Read the inbox; only the newest message counts.
pub fn check_maintenance(inbox: &mut VecDeque<FSMCommand>) -> (r: Option<MaintenanceAction>)
    ensures
        r == latest_maintenance(inbox_view(old(inbox)@)),
        final(inbox)@.len() == 0,
{
    match receive_latest(inbox) {
        Some(FSMCommand::CCWPressed) => Some(MaintenanceAction::Moving(Direction::Ccw)),
        Some(FSMCommand::CWPressed) => Some(MaintenanceAction::Moving(Direction::Cw)),
        Some(FSMCommand::MaintenancePressed) => Some(MaintenanceAction::Idle),
        _ => None,
    }
}

/// The result is to go into maintenance and come back to `return_to`.
pub open spec fn enters_maintenance(
    result: StateResult,
    action: MaintenanceAction,
    return_to: MotionState,
) -> bool {
    result matches StateResult::Running(MotionState::Maintenance(m)) && m.action == action
        && m.return_to == Some(Box::new(return_to))
}

/// What a run of messages leads a machine in motion to.
pub open spec fn transition_leads(
    messages: Seq<Message>,
    return_to: MotionState,
    r: Option<StateResult>,
) -> bool {
    match latest_maintenance(messages) {
        Some(action) => r is Some && enters_maintenance(r->0, action, return_to),
        None => r is None,
    }
}

/// Go into maintenance if the newest message asks for it.
pub fn perform_maintenance_transition(
    inbox: &mut VecDeque<FSMCommand>,
    return_to: MotionState,
) -> (r: Option<StateResult>)
    ensures
        final(inbox)@.len() == 0,
        transition_leads(inbox_view(old(inbox)@), return_to, r),
{
    match check_maintenance(inbox) {
        Some(action) => Some(
            StateResult::Running(
                MotionState::Maintenance(
                    MotionMaintenance { action, return_to: Some(Box::new(return_to)) },
                ),
            ),
        ),
        None => None,
    }
}

/// The state after a move: the one before it, or the first if there is none.
pub open spec fn resumed(previous: Option<MotionState>) -> MotionState {
    match previous {
        Some(state) => state,
        None => MotionState::Init,
    }
}

impl MotionMoving {
    /// Go on after the move: back to the state before, or start over if there is
    /// none.
    pub fn process(&self, previous: Option<MotionState>) -> (r: StateResult)
        ensures
            r == StateResult::Running(resumed(previous)),
    {
        match previous {
            Some(state) => StateResult::Running(state),
            None => StateResult::Running(MotionState::Init),
        }
    }
}

} // verus!
