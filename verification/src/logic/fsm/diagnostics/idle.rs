//! Waiting for a command.

use std::collections::VecDeque;

use vstd::prelude::*;

use crate::logic::fsm::diagnostics::awaiting::DiagAwaitOwner;
use crate::logic::fsm::diagnostics::serve::{Served, ServedView};
use crate::logic::fsm::mail::FSMCommand;

verus! {

/// How long to let a response reach the wire before resetting.
pub const REBOOT_FLUSH_DELAY_MS: u64 = 250;

/// The resting state of the diagnostics machine.
#[derive(Debug, Clone, Copy)]
pub struct DiagIdle;

/// What the resting state does next.
#[derive(Debug)]
pub enum IdleStep {
    Hold,
    /// Wait [`REBOOT_FLUSH_DELAY_MS`], then restart the board.
    Restart,
    /// Wait for the machine that was asked.
    Await(DiagAwaitOwner),
}

/// What a poll of the console leads to.
pub open spec fn idle_leads(served: Served, r: IdleStep) -> bool {
    match served@ {
        ServedView::Nothing => r is Hold,
        ServedView::Reboot => r is Restart,
        ServedView::Delegated { ticket, name, owner, deadline } => {
            &&& r matches IdleStep::Await(waiting)
            &&& waiting.ticket == ticket
            &&& waiting.name@ == name
            &&& waiting.owner == owner
            &&& waiting.deadline == deadline
        },
    }
}

impl DiagIdle {
    /// Discard what is addressed to a machine that waits for nothing. A reply that
    /// comes after its command timed out ends here.
    pub fn drain(&self, inbox: &mut VecDeque<FSMCommand>)
        ensures
            final(inbox)@.len() == 0,
    {
        inbox.clear();
    }

    /// Go on after a poll of the console.
    pub fn process(&self, served: Served) -> (r: IdleStep)
        ensures
            idle_leads(served, r),
    {
        match served {
            Served::Nothing => IdleStep::Hold,
            Served::Reboot => IdleStep::Restart,
            Served::Delegated { ticket, name, owner, deadline } => IdleStep::Await(
                DiagAwaitOwner { ticket, name, owner, deadline },
            ),
        }
    }
}

} // verus!
