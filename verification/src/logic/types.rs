//! Values that motion, telemetry and storage exchange.

use vstd::prelude::*;

use crate::ieee::Single;

verus! {

/// How the tower knows where it points.
#[derive(Debug, Clone, Copy, PartialEq, Eq, Structural)]
pub enum MotionMode {
    /// By counting steps alone.
    StepperOnly,
    /// By counting steps, supervised by the encoder.
    EncoderGuarded,
}

impl MotionMode {
    pub open spec fn text(self) -> Seq<char> {
        match self {
            MotionMode::StepperOnly => "StepperOnly"@,
            MotionMode::EncoderGuarded => "EncoderGuarded"@,
        }
    }

    pub fn as_str(&self) -> (r: &'static str)
        ensures
            r@ == self.text(),
    {
        match self {
            MotionMode::StepperOnly => "StepperOnly",
            MotionMode::EncoderGuarded => "EncoderGuarded",
        }
    }
}

/// Which way a sweep turns.
#[derive(Debug, Clone, Copy, PartialEq, Eq, Structural)]
pub enum Direction {
    Cw,
    Ccw,
}

impl Direction {
    pub open spec fn text(self) -> Seq<char> {
        match self {
            Direction::Cw => "CW"@,
            Direction::Ccw => "CCW"@,
        }
    }

    pub fn as_str(&self) -> (r: &'static str)
        ensures
            r@ == self.text(),
    {
        match self {
            Direction::Cw => "CW",
            Direction::Ccw => "CCW",
        }
    }

    pub open spec fn applied(self, deg: Single) -> Single {
        match self {
            Direction::Cw => deg,
            Direction::Ccw => deg.neg_spec(),
        }
    }

    /// A turn of that many degrees this way, clockwise being positive.
    pub fn apply_to_deg(&self, deg: Single) -> (r: Single)
        ensures
            r == self.applied(deg),
    {
        match self {
            Direction::Cw => deg,
            Direction::Ccw => deg.neg(),
        }
    }
}

/// The part of the tower that a report is about.
#[derive(Debug, Clone, Copy, PartialEq, Eq, Structural)]
pub enum Component {
    System,
    LimitSwitch,
    Encoder,
}

#[derive(Debug, Clone, Copy, PartialEq, Eq, Structural)]
pub enum Severity {
    Online,
    Warning,
    Fault,
}

/// A fault that stops the tower until somebody looks at it.
#[derive(Debug)]
pub struct FaultReport {
    pub component: Component,
    pub message: String,
    pub notes: String,
}

#[verifier::ext_equal]
pub struct FaultView {
    pub component: Component,
    pub message: Seq<char>,
    pub notes: Seq<char>,
}

impl View for FaultReport {
    type V = FaultView;

    open spec fn view(&self) -> FaultView {
        FaultView { component: self.component, message: self.message@, notes: self.notes@ }
    }
}

impl FaultReport {
    pub fn new(component: Component, message: &str, notes: &str) -> (r: Self)
        ensures
            r@ == (FaultView { component, message: message@, notes: notes@ }),
    {
        FaultReport { component, message: message.to_owned(), notes: notes.to_owned() }
    }
}

impl Clone for FaultReport {
    fn clone(&self) -> (r: Self)
        ensures
            r@ == self@,
    {
        FaultReport {
            component: self.component,
            message: self.message.clone(),
            notes: self.notes.clone(),
        }
    }
}

/// How a commanded move ended.
#[derive(Debug)]
pub enum MoveOutcome {
    Completed,
    AbortedPowerMissing,
    AbortedStall,
    AbortedOvershoot,
    /// The move met a fault that needs manual intervention.
    AbortedErrorLoop(FaultReport),
}

#[verifier::ext_equal]
pub enum OutcomeView {
    Completed,
    AbortedPowerMissing,
    AbortedStall,
    AbortedOvershoot,
    AbortedErrorLoop(FaultView),
}

impl View for MoveOutcome {
    type V = OutcomeView;

    open spec fn view(&self) -> OutcomeView {
        match self {
            MoveOutcome::Completed => OutcomeView::Completed,
            MoveOutcome::AbortedPowerMissing => OutcomeView::AbortedPowerMissing,
            MoveOutcome::AbortedStall => OutcomeView::AbortedStall,
            MoveOutcome::AbortedOvershoot => OutcomeView::AbortedOvershoot,
            MoveOutcome::AbortedErrorLoop(fault) => OutcomeView::AbortedErrorLoop(fault@),
        }
    }
}

impl MoveOutcome {
    pub open spec fn name(self) -> Seq<char> {
        match self {
            MoveOutcome::Completed => "Completed"@,
            MoveOutcome::AbortedPowerMissing => "AbortedPowerMissing"@,
            MoveOutcome::AbortedStall => "AbortedStall"@,
            MoveOutcome::AbortedOvershoot => "AbortedOvershoot"@,
            MoveOutcome::AbortedErrorLoop(_) => "AbortedErrorLoop"@,
        }
    }

    /// The outcome's name.
    pub fn as_str(&self) -> (r: &'static str)
        ensures
            r@ == self.name(),
    {
        match self {
            MoveOutcome::Completed => "Completed",
            MoveOutcome::AbortedPowerMissing => "AbortedPowerMissing",
            MoveOutcome::AbortedStall => "AbortedStall",
            MoveOutcome::AbortedOvershoot => "AbortedOvershoot",
            MoveOutcome::AbortedErrorLoop(_) => "AbortedErrorLoop",
        }
    }

    pub fn is_completed(&self) -> (r: bool)
        ensures
            r == (self@ is Completed),
    {
        matches!(self, MoveOutcome::Completed)
    }
}

/// What a positioning pass asks to be published.
#[derive(Debug)]
pub enum MotionEvent {
    /// The heading that was reached, rendered for telemetry.
    Angle(String),
    /// How far off the encoder was when home was found, rendered for telemetry.
    HomeErrorTicks(String),
    ErrorLoop(FaultReport),
    CheckForOTA,
}

#[verifier::ext_equal]
pub enum EventView {
    Angle(Seq<char>),
    HomeErrorTicks(Seq<char>),
    ErrorLoop(FaultView),
    CheckForOTA,
}

impl View for MotionEvent {
    type V = EventView;

    open spec fn view(&self) -> EventView {
        match self {
            MotionEvent::Angle(payload) => EventView::Angle(payload@),
            MotionEvent::HomeErrorTicks(payload) => EventView::HomeErrorTicks(payload@),
            MotionEvent::ErrorLoop(fault) => EventView::ErrorLoop(fault@),
            MotionEvent::CheckForOTA => EventView::CheckForOTA,
        }
    }
}

} // verus!
