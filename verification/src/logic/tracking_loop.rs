//! Settling a tracking pass whose driver hands over what to publish.

use vstd::prelude::*;

use crate::ieee::Single;
use crate::json::{json_quote, quoted};
use crate::logic::fsm::motion::error_loop::{fault_log, ErrorLog, ErrorLogView};
use crate::logic::fsm::motion::position::{outcome_view, MotionTopics};
use crate::logic::fsm::motion::tracking::DriverReport;
use crate::logic::types::{
    Component, FaultView, MoveOutcome, OutcomeView, Severity,
};
use crate::runtime::tracking_loop;
use crate::storage::snapshot_store::{writes, NvsWrite, NvsWriteView};
use crate::logic::encoder_fault::position_writes;
use crate::topic::logs_error;

verus! {

/// What a driver hands over to be published.
#[derive(Debug)]
pub enum TrackingEvent {
    Angle(String),
    HomeErrorTicks(String),
    Error { time: String, message: String, notes: String },
    CheckForOTA,
}

/// A publication, or the request for an update.
#[derive(Debug)]
pub enum Outgoing {
    Json { payload: String, topic: String },
    Error { time: String, log: ErrorLog },
    PerformOta,
}

#[allow(inconsistent_fields)]
#[verifier::ext_equal]
pub enum OutgoingView {
    Json { payload: Seq<char>, topic: Seq<char> },
    Error { time: Seq<char>, log: ErrorLogView },
    PerformOta,
}

impl View for Outgoing {
    type V = OutgoingView;

    open spec fn view(&self) -> OutgoingView {
        match self {
            Outgoing::Json { payload, topic } => OutgoingView::Json {
                payload: payload@,
                topic: topic@,
            },
            Outgoing::Error { time, log } => OutgoingView::Error { time: time@, log: log@ },
            Outgoing::PerformOta => OutgoingView::PerformOta,
        }
    }
}

pub open spec fn outgoing(queue: Seq<Outgoing>) -> Seq<OutgoingView> {
    queue.map_values(|o: Outgoing| o@)
}

/// What an event is published as. An error is one of the limit switch.
pub open spec fn published(
    event: TrackingEvent,
    device_id: Seq<char>,
    topics: MotionTopics,
) -> OutgoingView {
    match event {
        TrackingEvent::Angle(payload) => OutgoingView::Json {
            payload: quoted(payload@),
            topic: topics.data_angle@,
        },
        TrackingEvent::HomeErrorTicks(payload) => OutgoingView::Json {
            payload: quoted(payload@),
            topic: topics.data_encoder_error_ticks@,
        },
        TrackingEvent::Error { time, message, notes } => OutgoingView::Error {
            time: time@,
            log: fault_log(
                device_id,
                FaultView { component: Component::LimitSwitch, message: message@, notes: notes@ },
            ),
        },
        TrackingEvent::CheckForOTA => OutgoingView::PerformOta,
    }
}

fn publish(event: TrackingEvent, device_id: &str, topics: &MotionTopics) -> (r: Outgoing)
    ensures
        r@ == published(event, device_id@, *topics),
{
    match event {
        TrackingEvent::Angle(payload) => Outgoing::Json {
            payload: json_quote(payload.as_str()),
            topic: topics.data_angle.as_str().to_owned(),
        },
        TrackingEvent::HomeErrorTicks(payload) => Outgoing::Json {
            payload: json_quote(payload.as_str()),
            topic: topics.data_encoder_error_ticks.as_str().to_owned(),
        },
        TrackingEvent::Error { time, message, notes } => Outgoing::Error {
            time,
            log: ErrorLog {
                topic: logs_error(device_id),
                log_type: "error",
                message,
                component: Component::LimitSwitch,
                severity: Severity::Fault,
                notes,
            },
        },
        TrackingEvent::CheckForOTA => Outgoing::PerformOta,
    }
}

/// What a run of events is published as, in order.
pub open spec fn all_published(
    events: Seq<TrackingEvent>,
    device_id: Seq<char>,
    topics: MotionTopics,
) -> Seq<OutgoingView> {
    events.map_values(|e: TrackingEvent| published(e, device_id, topics))
}

fn publish_all(
    events: Vec<TrackingEvent>,
    device_id: &str,
    topics: &MotionTopics,
    queue: &mut Vec<Outgoing>,
)
    ensures
        outgoing(final(queue)@) == outgoing(old(queue)@) + all_published(
            events@,
            device_id@,
            *topics,
        ),
{
    let ghost begun = outgoing(queue@);
    let mut left = events;
    let ghost mut sent: int = 0;
    assert(outgoing(queue@) =~= begun + all_published(events@.take(0), device_id@, *topics));
    while left.len() > 0
        invariant
            0 <= sent <= events@.len(),
            left@ == events@.skip(sent),
            begun == outgoing(old(queue)@),
            outgoing(queue@) == begun + all_published(events@.take(sent), device_id@, *topics),
        decreases left@.len(),
    {
        let event = left.remove(0);
        let message = publish(event, device_id, topics);
        let ghost before = queue@;
        queue.push(message);
        proof {
            assert(outgoing(queue@) =~= outgoing(before).push(message@));
            assert(events@.take(sent + 1) =~= events@.take(sent).push(events@[sent]));
            assert(all_published(events@.take(sent + 1), device_id@, *topics)
                =~= all_published(events@.take(sent), device_id@, *topics).push(
                published(event, device_id@, *topics),
            ));
            sent = sent + 1;
            assert(left@ =~= events@.skip(sent));
            assert(outgoing(queue@) =~= begun + all_published(
                events@.take(sent),
                device_id@,
                *topics,
            ));
        }
    }
    assert(events@.take(sent) =~= events@);
}

/// A tower before or after a pass is settled.
#[verifier::ext_equal]
pub struct SettledState {
    pub heading: Single,
    pub writes: Seq<NvsWriteView>,
    pub queue: Seq<OutgoingView>,
}

/// What settling a pass leads to.
pub open spec fn settle_leads(
    before: SettledState,
    done: Result<bool, String>,
    events: Seq<TrackingEvent>,
    report: DriverReport,
    persist: bool,
    device_id: Seq<char>,
    topics: MotionTopics,
    after: SettledState,
    r: Result<MoveOutcome, String>,
) -> bool {
    match outcome_view(report.last_outcome) {
        Some(outcome) => {
            let completed = outcome == OutcomeView::Completed;
            &&& r matches Ok(o) && o@ == outcome
            &&& after.heading == (if completed {
                report.location
            } else {
                before.heading
            })
            &&& after.writes == (if completed {
                before.writes + position_writes(
                    persist,
                    report.location,
                    report.mode,
                    report.encoder_ticks,
                )
            } else {
                before.writes
            })
            &&& after.queue == before.queue
        },
        None => {
            &&& after.heading == before.heading
            &&& after.writes == before.writes
            &&& match done {
                Err(e) => r == Err::<MoveOutcome, String>(e) && after.queue
                    == before.queue,
                Ok(_) => {
                    &&& r matches Ok(o) && o@ == OutcomeView::Completed
                    &&& after.queue == before.queue + all_published(
                        events,
                        device_id,
                        topics,
                    )
                },
            }
        },
    }
}

/// Settle a pass. Only a completed move is believed and persisted. A pass that
/// needed no move counts as completed and publishes its events, unless positioning
/// failed, in which case that failure is handed on.
pub fn tick(
    done: Result<bool, String>,
    events: Vec<TrackingEvent>,
    report: DriverReport,
    persist: bool,
    device_id: &str,
    topics: &MotionTopics,
    actual_heading: &mut Single,
    journal: &mut Vec<NvsWrite>,
    queue: &mut Vec<Outgoing>,
) -> (r: Result<MoveOutcome, String>)
    ensures
        settle_leads(
            (SettledState {
                heading: *old(actual_heading),
                writes: writes(old(journal)@),
                queue: outgoing(old(queue)@),
            }),
            done,
            events@,
            report,
            persist,
            device_id@,
            *topics,
            (SettledState {
                heading: *final(actual_heading),
                writes: writes(final(journal)@),
                queue: outgoing(final(queue)@),
            }),
            r,
        ),
{
    if report.last_outcome.is_none() {
        match done {
            Err(e) => {
                return Err(e);
            },
            Ok(_) => {
                publish_all(events, device_id, topics, queue);
                return Ok(MoveOutcome::Completed);
            },
        }
    }
    Ok(tracking_loop::tick(report, persist, actual_heading, journal))
}

} // verus!
