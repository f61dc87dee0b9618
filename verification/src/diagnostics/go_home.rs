//! `GO_HOME`: search for the limit switch and take the tower's bearings there.

use vstd::prelude::*;

use crate::diagnostics::answer::{failed, passed, with_error, Answer, AnswerView};
use crate::diagnostics::mqtt::elapsed;
use crate::diagnostics::transcript::{one_detail, TranscriptIo};
use crate::ieee::Single;
use crate::logic::encoder_fault::{persist_position, position_writes};
use crate::logic::fsm::motion::context::MotorCommand;
use crate::logic::types::MotionMode;
use crate::storage::snapshot_store::{writes, NvsWrite, NvsWriteView};

verus! {

/// How often a search reports progress, in nanoseconds.
pub const HOMING_PROGRESS_INTERVAL: u64 = 5_000_000_000;

/// What a motion command knows of the tower.
#[derive(Debug, Clone, Copy)]
pub struct MotionContext {
    pub home_heading_deg: Single,
    pub motion_mode: MotionMode,
    pub actual_heading: Single,
    pub persist_nvs: bool,
    pub need_rehome_stepper_only: bool,
}

/// What beginning the search leads to.
pub open spec fn begin_leads(
    motion_available: bool,
    lines: Seq<Seq<char>>,
    lines_after: Seq<Seq<char>>,
    r: Result<(), Answer>,
) -> bool {
    match r {
        Ok(_) => motion_available && lines_after == lines.push("MOVING_HOME"@),
        Err(answer) => {
            &&& !motion_available
            &&& answer@ == failed("GO_HOME unavailable: motion is not initialised yet"@)
            &&& lines_after == with_error(
                lines,
                "GO_HOME unavailable: motion is not initialised yet"@,
            )
        },
    }
}

/// Begin the search, if there is a motor to search with.
pub fn go_home(motion_available: bool, io: &mut TranscriptIo) -> (r: Result<(), Answer>)
    ensures
        begin_leads(motion_available, old(io)@, final(io)@, r),
{
    if !motion_available {
        return Err(
            Answer::fail_aloud(
                "GO_HOME unavailable: motion is not initialised yet".to_owned(),
                io,
            ),
        );
    }
    io.write_line("MOVING_HOME");
    Ok(())
}

/// When a search last reported progress.
#[derive(Debug, Clone, Copy, PartialEq, Eq, Structural)]
pub struct HomingProgress {
    pub last_report: u64,
}

impl HomingProgress {
    pub fn new(now: u64) -> (r: Self)
        ensures
            r.last_report == now,
    {
        HomingProgress { last_report: now }
    }

    pub open spec fn due(self, now: u64) -> bool {
        elapsed(now, self.last_report) >= HOMING_PROGRESS_INTERVAL
    }

    /// The search after a tick at `now`.
    pub open spec fn ticked(self, now: u64) -> HomingProgress {
        if self.due(now) {
            HomingProgress { last_report: now }
        } else {
            self
        }
    }

    /// Whether a tick at `now` reports progress: at most once per interval.
    pub fn on_tick(&mut self, now: u64) -> (r: bool)
        ensures
            r == old(self).due(now),
            *final(self) == old(self).ticked(now),
    {
        let since: u64 = if now >= self.last_report {
            now - self.last_report
        } else {
            0
        };
        if since >= HOMING_PROGRESS_INTERVAL {
            self.last_report = now;
            true
        } else {
            false
        }
    }
}

/// What the search leads to.
pub open spec fn searched_leads(
    found: bool,
    before: MotionContext,
    lines: Seq<Seq<char>>,
    motor: Seq<MotorCommand>,
    after: MotionContext,
    lines_after: Seq<Seq<char>>,
    motor_after: Seq<MotorCommand>,
    r: Result<(), Answer>,
) -> bool {
    match r {
        Ok(_) => {
            &&& found
            &&& lines_after == lines
            &&& after == (MotionContext {
                actual_heading: before.home_heading_deg,
                ..before
            })
            &&& motor_after == motor.push(
                MotorCommand::UpdatePosition(before.home_heading_deg),
            )
        },
        Err(answer) => {
            let message =
                "ERROR Diagnostics go_home failed: limit switch was not found while moving ccw"@;
            &&& !found
            &&& answer@ == failed(message)
            &&& lines_after == lines.push(message)
            &&& after == before
            &&& motor_after == motor
        },
    }
}

/// Go on after the search. A tower that found home believes the home heading, and the
/// motor is told so. The encoder is read only once it was.
pub fn go_home_searched(
    found: bool,
    ctx: &mut MotionContext,
    io: &mut TranscriptIo,
    motor: &mut Vec<MotorCommand>,
) -> (r: Result<(), Answer>)
    ensures
        searched_leads(
            found,
            *old(ctx),
            old(io)@,
            old(motor)@,
            *final(ctx),
            final(io)@,
            final(motor)@,
            r,
        ),
{
    if !found {
        let message =
            "ERROR Diagnostics go_home failed: limit switch was not found while moving ccw";
        io.write_line(message);
        return Err(Answer::fail(message.to_owned()));
    }
    ctx.actual_heading = ctx.home_heading_deg;
    motor.push(MotorCommand::UpdatePosition(ctx.actual_heading));
    Ok(())
}

/// What a search says and what it writes down.
#[verifier::ext_equal]
pub struct SearchLog {
    pub lines: Seq<Seq<char>>,
    pub writes: Seq<NvsWriteView>,
}

/// What finishing a search that found home leads to.
pub open spec fn finished_leads(
    before: MotionContext,
    storage_available: bool,
    encoder_ticks: i32,
    heading: Seq<char>,
    log: SearchLog,
    after: MotionContext,
    log_after: SearchLog,
    r: AnswerView,
) -> bool {
    let warned = if before.persist_nvs && !storage_available {
        log.lines.push(
            "WARN GO_HOME found home but could not persist the heading: NVS is not available on this path"@,
        )
    } else {
        log.lines
    };
    &&& r == passed(seq![("heading"@, heading)], ""@)
    &&& log_after.lines == warned.push("LIMIT"@)
    &&& after == (MotionContext { need_rehome_stepper_only: false, ..before })
    &&& log_after.writes == log.writes + position_writes(
        before.persist_nvs && storage_available,
        before.actual_heading,
        before.motion_mode,
        encoder_ticks,
    )
}

/// Finish a search that found home: persist the heading where storage can be had;
/// where it cannot, say so.
pub fn go_home_finished(
    ctx: &mut MotionContext,
    storage_available: bool,
    encoder_ticks: i32,
    heading_text: &str,
    io: &mut TranscriptIo,
    journal: &mut Vec<NvsWrite>,
) -> (r: Answer)
    ensures
        finished_leads(
            *old(ctx),
            storage_available,
            encoder_ticks,
            heading_text@,
            (SearchLog { lines: old(io)@, writes: writes(old(journal)@) }),
            *final(ctx),
            (SearchLog { lines: final(io)@, writes: writes(final(journal)@) }),
            r@,
        ),
{
    if ctx.persist_nvs && !storage_available {
        io.write_line(
            "WARN GO_HOME found home but could not persist the heading: NVS is not available on this path",
        );
    }
    persist_position(
        ctx.persist_nvs && storage_available,
        ctx.actual_heading,
        ctx.motion_mode,
        encoder_ticks,
        journal,
    );
    ctx.need_rehome_stepper_only = false;
    io.write_line("LIMIT");
    Answer::pass(one_detail("heading", heading_text.to_owned()), "")
}

/// Two reports of one search are at least an interval apart.
pub proof fn reports_are_an_interval_apart(progress: HomingProgress, now: u64, later: u64)
    requires
        progress.due(now),
        (HomingProgress { last_report: now }).due(later),
    ensures
        later >= now + HOMING_PROGRESS_INTERVAL,
{
}

} // verus!
