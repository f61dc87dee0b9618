//! What the remote command channel and the recovery at boot may and may not do.

use vstd::prelude::*;
use vstd::utf8::{decode_utf8, valid_utf8};

use crate::config::switchboard::RecoverySwitches;
use crate::diagnostics::boot_recovery::{
    after_recovery, stall_set, AfterRecovery, EncoderReading, MoveVerdict, RecoveryRun,
};
use crate::diagnostics::commands::StatusView;
use crate::diagnostics::mqtt::{
    reserve_leads, CommandStateView, ControlCompletionDisposition, InflightView,
    PreflightDecision,
};
use crate::diagnostics::transport::{
    receive_leads, route_leads, Command, Inbound, ReplyDataView, Route,
};
use crate::logic::fsm::motion::context::MotorCommand;
use crate::topic::tower_topic;

verus! {

/// A command is turned away for its rate exactly where twelve were counted within the
/// last five seconds. Otherwise it is a duplicate exactly where its id, if it has one, was
/// answered or is in flight; a control command is turned away exactly where another is in
/// flight; and the rest is let through.
pub proof fn a_command_is_judged_by_rate_id_and_slot(
    s: CommandStateView,
    now: u64,
    id: Seq<char>,
    needs_control: bool,
)
    ensures
        ({
            let r = s.decision(now, id, needs_control);
            let limited = s.window is Some && now - s.window->0 < 5_000_000_000 && s.count >= 12;
            let seen = id.len() > 0 && (s.recent.contains(id) || (s.inflight is Some
                && s.inflight->0.request_id == id));
            &&& r == PreflightDecision::RateLimited <==> limited
            &&& r == PreflightDecision::Duplicate <==> !limited && seen
            &&& r == PreflightDecision::AllowReadOnly <==> !limited && !seen && !needs_control
            &&& r == PreflightDecision::Busy <==> !limited && !seen && needs_control
                && s.inflight is Some
            &&& r == PreflightDecision::ControlReserved <==> !limited && !seen && needs_control
                && s.inflight is None
        }),
{
}

/// Every command that is not turned away for its rate counts against the window it comes
/// in, which is a new one five seconds after the last was opened; and only a control
/// command that was admitted takes the slot.
pub proof fn a_judged_command_is_counted(
    s: CommandStateView,
    now: u64,
    id: Seq<char>,
    cmd: Seq<char>,
    needs_control: bool,
)
    requires
        s.count <= 12,
    ensures
        ({
            let after = s.preflighted(now, id, cmd, needs_control);
            let r = s.decision(now, id, needs_control);
            let runs = s.window is Some && now - s.window->0 < 5_000_000_000;
            &&& runs && r != PreflightDecision::RateLimited ==> after.count == s.count + 1
            &&& runs ==> after.window == s.window
            &&& !runs ==> after.window == Some(now) && after.count == 1
            &&& r == PreflightDecision::RateLimited ==> after.count == s.count
            &&& after.recent == s.recent
            &&& after.inflight == (if r == PreflightDecision::ControlReserved {
                Some(InflightView { request_id: id, cmd, queued_at: now })
            } else {
                s.inflight
            })
        }),
{
}

/// A control command runs out of time exactly thirty seconds after it was queued.
pub proof fn a_control_command_has_half_a_minute(s: CommandStateView, now: u64)
    ensures
        s.timed_out(now) <==> s.inflight is Some && now - s.inflight->0.queued_at
            >= 30_000_000_000,
        s.timed_out(now) ==> s.expired(now).inflight is None,
        !s.timed_out(now) ==> s.expired(now) == s,
        s.expired(now).window == s.window && s.expired(now).count == s.count,
{
}

/// Remembering an id puts it last and forgets none of the others, unless there are
/// sixty-four already: then the oldest goes. No id at all, and one that is remembered
/// already, change nothing.
pub proof fn the_oldest_id_is_forgotten(s: CommandStateView, id: Seq<char>, i: int)
    requires
        s.wf(),
    ensures
        ({
            let after = s.recorded(id);
            &&& id.len() == 0 || s.recent.contains(id) ==> after == s
            &&& id.len() > 0 && !s.recent.contains(id) ==> {
                &&& after.recent.last() == id
                &&& s.recent.len() < 64 ==> after.recent.len() == s.recent.len() + 1
                &&& s.recent.len() < 64 && 0 <= i < s.recent.len() ==> after.recent[i]
                    == s.recent[i]
                &&& s.recent.len() == 64 ==> after.recent.len() == 64
                &&& s.recent.len() == 64 && 1 <= i < 64 ==> after.recent[i - 1] == s.recent[i]
            }
            &&& after.inflight == s.inflight && after.window == s.window && after.count
                == s.count
        }),
{
}

/// A result is suppressed exactly where its request was answered before and is not the
/// one in flight; and only the request in flight frees the slot.
pub proof fn only_a_late_result_is_suppressed(s: CommandStateView, id: Seq<char>)
    ensures
        ({
            let here = s.inflight is Some && s.inflight->0.request_id == id;
            &&& s.disposition(id) == ControlCompletionDisposition::SuppressLateResult <==> !here
                && id.len() > 0 && s.recent.contains(id)
            &&& here ==> s.completed(id).inflight is None
            &&& !here ==> s.completed(id).inflight == s.inflight
            &&& id.len() > 0 ==> s.completed(id).recent.contains(id)
        }),
{
    let t = CommandStateView { inflight: None, ..s };
    if id.len() > 0 && !s.recent.contains(id) {
        assert(t.recorded(id).recent.last() == id);
        assert(s.recorded(id).recent.last() == id);
    }
}

/// The local console gets the slot exactly where it is free, and gives it up only for the
/// very command that holds it.
pub proof fn the_slot_is_taken_and_given_up_by_one(
    s: CommandStateView,
    cmd: Seq<char>,
    now: u64,
    after: CommandStateView,
    r: Result<(), String>,
    id: Seq<char>,
)
    requires
        reserve_leads(s, cmd, now, after, r),
    ensures
        r is Ok <==> s.inflight is None,
        r is Ok ==> after.inflight is Some && after.inflight->0.cmd == cmd
            && after.inflight->0.queued_at == now && after.inflight->0.request_id.len() == 0,
        r is Err ==> after == s,
        after.recent == s.recent && after.window == s.window && after.count == s.count,
        s.released(id, cmd).inflight is None <==> s.inflight is None || (
        s.inflight->0.request_id == id && s.inflight->0.cmd == cmd),
        s.released(id, cmd).inflight is Some ==> s.released(id, cmd) == s,
{
}

/// A message on the tower's own command topic is taken as text, or answered where it is
/// none; one on any other topic gets no reply.
pub proof fn a_message_for_the_tower_is_read_or_answered(
    device_id: Seq<char>,
    topic: &str,
    payload: &[u8],
    r: Inbound,
)
    requires
        receive_leads(device_id, Some((topic, payload)), r),
    ensures
        ({
            let own = topic@ == tower_topic(device_id, "/cmd/diagnostics"@);
            &&& r is Ignored <==> !own
            &&& r is Text <==> own && valid_utf8(payload@)
            &&& r is NotText <==> own && !valid_utf8(payload@)
            &&& r matches Inbound::Text(text) ==> text@ == decode_utf8(payload@)
            &&& r matches Inbound::NotText(e) ==> e@.outcome is Err && e@.topic == tower_topic(
                device_id,
                "/cmd/diagnostics/ack"@,
            )
        }),
{
}

/// Every command is answered: with the status where that is asked for, with an error
/// where it is unknown or is none, and by running it where it moves the tower and the
/// tower lends its motor. A reply bears the id and the name of its command.
pub proof fn a_command_is_answered(
    device_id: Seq<char>,
    command: Command,
    status: StatusView,
    motion_lent: bool,
    r: Route,
)
    requires
        route_leads(device_id, Some(command), status, motion_lent, r),
    ensures
        ({
            let asks = command.cmd@ == "get_status"@;
            let moves = command.cmd@ == "move_by"@ || command.cmd@ == "set_home_here"@
                || command.cmd@ == "exit_install"@;
            &&& r is Motion <==> !asks && moves && motion_lent
            &&& r matches Route::Publish(e) ==> {
                &&& e@.cmd == command.cmd@
                &&& e@.request_id == command.id()
                &&& e@.outcome is Ok <==> asks
                &&& asks ==> e@.outcome == Ok::<ReplyDataView, Seq<char>>(
                    ReplyDataView::Status(status),
                )
                &&& e@.topic == tower_topic(device_id, "/cmd/diagnostics/ack"@)
            }
        }),
{
}

/// What is no command is answered with an error.
pub proof fn a_message_that_is_no_command_is_answered(
    device_id: Seq<char>,
    status: StatusView,
    motion_lent: bool,
    r: Route,
)
    requires
        route_leads(device_id, None, status, motion_lent, r),
    ensures
        r matches Route::Publish(e) && e@.outcome is Err && e@.request_id == ""@ && e@.cmd
            == "unknown"@,
{
}

/// A move counts as missed exactly where the encoder is asked and is off by more ticks
/// than the tolerance, to either side.
pub proof fn a_move_is_missed_beyond_the_tolerance(
    cfg: RecoverySwitches,
    tol_ticks: i32,
    reading: EncoderReading,
)
    requires
        reading.fits(),
    ensures
        ({
            let r = RecoveryRun::verdict(cfg, tol_ticks, reading);
            let off = reading.end - reading.start - reading.expected_delta;
            &&& r is Unverified <==> !cfg.verify_with_encoder
            &&& r is Missed <==> cfg.verify_with_encoder && (off > tol_ticks || -off > tol_ticks)
            &&& r matches MoveVerdict::Missed { err_ticks } ==> err_ticks == off
            &&& r matches MoveVerdict::Reached { err_ticks } ==> err_ticks == off
        }),
{
}

/// A run makes its moves in order, each once, and ends after the last or after a miss
/// that is to end it; it is good as long as nothing was missed.
pub proof fn a_run_makes_its_moves_in_order(
    run: RecoveryRun,
    cfg: RecoverySwitches,
    verdict: MoveVerdict,
    prev_stall: bool,
)
    requires
        run.pending(cfg),
        cfg.moves@.len() <= usize::MAX,
    ensures
        run.due(cfg) == Some(cfg.moves@[run.next as int]),
        run.moved(cfg, verdict).next == run.next + 1,
        run.moved(cfg, verdict).all_ok <==> run.all_ok && !(verdict is Missed),
        run.moved(cfg, verdict).prev_stall == run.prev_stall,
        run.moved(cfg, verdict).due(cfg) is None <==> run.next + 1 == cfg.moves@.len() || (
        verdict is Missed && cfg.stop_on_verify_fail),
        RecoveryRun::begun(prev_stall).next == 0,
        RecoveryRun::begun(prev_stall).all_ok,
        RecoveryRun::begun(prev_stall).prev_stall == prev_stall,
        RecoveryRun::begun(prev_stall).pending(cfg),
{
}

/// A run that turns stall detection off puts it back as it was; one that does not leaves
/// it alone. The tower stays where it is exactly where it is told to stop after a run.
pub proof fn a_run_puts_stall_detection_back(
    cfg: RecoverySwitches,
    motor: Seq<MotorCommand>,
    on: bool,
)
    ensures
        cfg.disable_stall_detection ==> stall_set(cfg, motor, on) == motor.push(
            MotorCommand::SetStallDetection(on),
        ),
        !cfg.disable_stall_detection ==> stall_set(cfg, motor, on) == motor,
        after_recovery(cfg) == AfterRecovery::Idle <==> cfg.stop_after,
{
}

} // verus!
