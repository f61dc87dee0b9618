//! The LED states that follow explicit commands.

use std::collections::VecDeque;

use vstd::prelude::*;

use crate::logic::fsm::mail::{inbox_view, receive_latest, FSMCommand, Message};

verus! {

/// Waiting for a command.
#[derive(Debug, Clone, Copy)]
pub struct LEDHold;

/// Dark.
#[derive(Debug, Clone, Copy)]
pub struct LEDOff;

/// The colour of a tower in maintenance.
#[derive(Debug, Clone, Copy)]
pub struct LEDMaintenance;

/// The colour of a tower turning counter-clockwise by hand.
#[derive(Debug, Clone, Copy)]
pub struct LEDMaintenanceMovingCCW;

/// The colour of a tower turning clockwise by hand.
#[derive(Debug, Clone, Copy)]
pub struct LEDMaintenanceMovingCW;

/// The LED states.
#[derive(Debug, Clone, Copy, PartialEq, Eq, Structural)]
pub enum LedState {
    Hold,
    Off,
    Maintenance,
    MaintenanceMovingCCW,
    MaintenanceMovingCW,
}

/// What the LED is asked to show.
#[derive(Debug, Clone, Copy, PartialEq, Eq, Structural)]
pub enum LedDisplay {
    Dark,
    Maintenance,
    MaintenanceMovingCCW,
    MaintenanceMovingCW,
}

/// The state that a command leads to.
pub open spec fn commanded(message: Message) -> LedState {
    match message {
        Message::LEDOff => LedState::Off,
        Message::LEDMaintenance => LedState::Maintenance,
        Message::LEDMaintenanceMovingCCW => LedState::MaintenanceMovingCCW,
        Message::LEDMaintenanceMovingCW => LedState::MaintenanceMovingCW,
        _ => LedState::Hold,
    }
}

/// The state that an inbox leads to.
pub open spec fn followed(messages: Seq<Message>) -> LedState {
    if messages.len() == 0 {
        LedState::Hold
    } else {
        commanded(messages.last())
    }
}

impl LEDHold {
    /// Follow the newest command; older ones are passed over.
    pub fn process(&self, inbox: &mut VecDeque<FSMCommand>) -> (r: LedState)
        ensures
            final(inbox)@.len() == 0,
            r == followed(inbox_view(old(inbox)@)),
    {
        match receive_latest(inbox) {
            Some(FSMCommand::LEDOff) => LedState::Off,
            Some(FSMCommand::LEDMaintenance) => LedState::Maintenance,
            Some(FSMCommand::LEDMaintenanceMovingCCW) => LedState::MaintenanceMovingCCW,
            Some(FSMCommand::LEDMaintenanceMovingCW) => LedState::MaintenanceMovingCW,
            _ => LedState::Hold,
        }
    }
}

impl LedState {
    /// What a state shows on its way back to [`LEDHold`].
    pub open spec fn display(self) -> Option<LedDisplay> {
        match self {
            LedState::Hold => None,
            LedState::Off => Some(LedDisplay::Dark),
            LedState::Maintenance => Some(LedDisplay::Maintenance),
            LedState::MaintenanceMovingCCW => Some(LedDisplay::MaintenanceMovingCCW),
            LedState::MaintenanceMovingCW => Some(LedDisplay::MaintenanceMovingCW),
        }
    }
}

impl LEDOff {
    pub fn process(&self) -> (r: (LedDisplay, LedState))
        ensures
            r.1 == LedState::Hold,
            LedState::Off.display() == Some(r.0),
    {
        (LedDisplay::Dark, LedState::Hold)
    }
}

impl LEDMaintenance {
    pub fn process(&self) -> (r: (LedDisplay, LedState))
        ensures
            r.1 == LedState::Hold,
            LedState::Maintenance.display() == Some(r.0),
    {
        (LedDisplay::Maintenance, LedState::Hold)
    }
}

impl LEDMaintenanceMovingCCW {
    pub fn process(&self) -> (r: (LedDisplay, LedState))
        ensures
            r.1 == LedState::Hold,
            LedState::MaintenanceMovingCCW.display() == Some(r.0),
    {
        (LedDisplay::MaintenanceMovingCCW, LedState::Hold)
    }
}

impl LEDMaintenanceMovingCW {
    pub fn process(&self) -> (r: (LedDisplay, LedState))
        ensures
            r.1 == LedState::Hold,
            LedState::MaintenanceMovingCW.display() == Some(r.0),
    {
        (LedDisplay::MaintenanceMovingCW, LedState::Hold)
    }
}

} // verus!
