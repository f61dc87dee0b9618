//! Settling a tracking pass on a tower whose driver publishes for itself.

use vstd::prelude::*;

use crate::ieee::Single;
use crate::logic::encoder_fault::{persist_position, position_writes};
use crate::logic::fsm::motion::position::outcome_view;
use crate::logic::fsm::motion::tracking::DriverReport;
use crate::logic::types::{MoveOutcome, OutcomeView};
use crate::storage::snapshot_store::{writes, NvsWrite, NvsWriteView};

verus! {

/// Where a tower believes to be around a pass, and what it writes down of it.
#[verifier::ext_equal]
pub struct PassResult {
    pub heading: Single,
    pub writes: Seq<NvsWriteView>,
}

/// What settling a pass leads to.
pub open spec fn tick_leads(
    report: DriverReport,
    persist: bool,
    before: PassResult,
    after: PassResult,
    r: OutcomeView,
) -> bool {
    let completed = outcome_view(report.last_outcome) == Some(OutcomeView::Completed);
    &&& r == (match outcome_view(report.last_outcome) {
        Some(outcome) => outcome,
        None => OutcomeView::Completed,
    })
    &&& after.heading == (if completed {
        report.location
    } else {
        before.heading
    })
    &&& after.writes == (if completed {
        before.writes + position_writes(
            persist,
            report.location,
            report.mode,
            report.encoder_ticks,
        )
    } else {
        before.writes
    })
}

/// Settle a pass. Only a completed move is believed and persisted; a pass that
/// needed no move counts as completed.
pub fn tick(
    report: DriverReport,
    persist: bool,
    actual_heading: &mut Single,
    journal: &mut Vec<NvsWrite>,
) -> (r: MoveOutcome)
    ensures
        tick_leads(
            report,
            persist,
            (PassResult { heading: *old(actual_heading), writes: writes(old(journal)@) }),
            (PassResult { heading: *final(actual_heading), writes: writes(final(journal)@) }),
            r@,
        ),
{
    match report.last_outcome {
        Some(MoveOutcome::Completed) => {
            *actual_heading = report.location;
            persist_position(persist, report.location, report.mode, report.encoder_ticks, journal);
            MoveOutcome::Completed
        },
        Some(outcome) => outcome,
        None => MoveOutcome::Completed,
    }
}

} // verus!
