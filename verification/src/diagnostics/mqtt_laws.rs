//! What holds of the remote command channel over any number of commands.

use vstd::prelude::*;

use crate::diagnostics::executor::{
    remote_control, remote_control_commands_are_control_commands,
};
use crate::diagnostics::listener::{judged_handling, HandlingView, SnapshotView};
use crate::diagnostics::mqtt::{
    elapsed, CommandStateView, ControlCompletionDisposition, InflightView, PreflightDecision,
    CONTROL_COMMAND_TIMEOUT, MAX_RECENT_REQUEST_IDS, RATE_LIMIT_MAX_COMMANDS, RATE_LIMIT_WINDOW,
};

verus! {

/// One command as it arrives at the channel.
pub struct Arrival {
    pub now: u64,
    pub id: Seq<char>,
    pub cmd: Seq<char>,
    pub needs_control: bool,
}

/// The state after a run of arrivals was judged.
pub open spec fn after_arrivals(s: CommandStateView, arrivals: Seq<Arrival>) -> CommandStateView
    decreases arrivals.len(),
{
    if arrivals.len() == 0 {
        s
    } else {
        let a = arrivals.last();
        after_arrivals(s, arrivals.drop_last()).preflighted(a.now, a.id, a.cmd, a.needs_control)
    }
}

/// How many of a run of arrivals were not turned away by the rate limit.
pub open spec fn admitted(s: CommandStateView, arrivals: Seq<Arrival>) -> nat
    decreases arrivals.len(),
{
    if arrivals.len() == 0 {
        0
    } else {
        let a = arrivals.last();
        let before = after_arrivals(s, arrivals.drop_last());
        let here: nat = if before.decision(a.now, a.id, a.needs_control)
            == PreflightDecision::RateLimited {
            0
        } else {
            1
        };
        admitted(s, arrivals.drop_last()) + here
    }
}

/// The state after a run of request ids was completed.
pub open spec fn after_completions(s: CommandStateView, ids: Seq<Seq<char>>) -> CommandStateView
    decreases ids.len(),
{
    if ids.len() == 0 {
        s
    } else {
        after_completions(s, ids.drop_last()).recorded(ids.last())
    }
}

/// However many commands arrive while one rate window runs, the window admits
/// [`RATE_LIMIT_MAX_COMMANDS`] in all, those counted before included.
pub proof fn a_window_admits_at_most_the_limit(s: CommandStateView, arrivals: Seq<Arrival>)
    requires
        s.window is Some,
        s.count <= RATE_LIMIT_MAX_COMMANDS,
        forall|i: int|
            0 <= i < arrivals.len() ==> elapsed((#[trigger] arrivals[i]).now, s.window->0)
                < RATE_LIMIT_WINDOW,
    ensures
        s.count + admitted(s, arrivals) <= RATE_LIMIT_MAX_COMMANDS,
        after_arrivals(s, arrivals).window == s.window,
        after_arrivals(s, arrivals).count == s.count + admitted(s, arrivals),
    decreases arrivals.len(),
{
    if arrivals.len() > 0 {
        let rest = arrivals.drop_last();
        assert forall|i: int| 0 <= i < rest.len() implies elapsed(
            (#[trigger] rest[i]).now,
            s.window->0,
        ) < RATE_LIMIT_WINDOW by {
            assert(rest[i] == arrivals[i]);
        }
        a_window_admits_at_most_the_limit(s, rest);
        assert(elapsed(arrivals[arrivals.len() - 1].now, s.window->0) < RATE_LIMIT_WINDOW);
    }
}

/// A command that comes when the window is used up is turned away, and turning it
/// away changes nothing but the window.
pub proof fn a_full_window_turns_commands_away(
    s: CommandStateView,
    now: u64,
    id: Seq<char>,
    cmd: Seq<char>,
    needs_control: bool,
)
    requires
        s.window_open(now),
        s.count >= RATE_LIMIT_MAX_COMMANDS,
    ensures
        s.decision(now, id, needs_control) == PreflightDecision::RateLimited,
        s.preflighted(now, id, cmd, needs_control) == s,
{
}

/// While a control command is in flight no second one is reserved, and the one in
/// flight stays as it is.
pub proof fn one_control_command_at_a_time(
    s: CommandStateView,
    now: u64,
    id: Seq<char>,
    cmd: Seq<char>,
    needs_control: bool,
)
    requires
        s.inflight is Some,
    ensures
        s.decision(now, id, needs_control) != PreflightDecision::ControlReserved,
        s.preflighted(now, id, cmd, needs_control).inflight == s.inflight,
        needs_control ==> s.decision(now, id, needs_control)
            != PreflightDecision::AllowReadOnly,
{
}

/// Over any run of arrivals the control command in flight is not replaced.
pub proof fn arrivals_keep_the_command_in_flight(s: CommandStateView, arrivals: Seq<Arrival>)
    requires
        s.inflight is Some,
    ensures
        after_arrivals(s, arrivals).inflight == s.inflight,
    decreases arrivals.len(),
{
    if arrivals.len() > 0 {
        arrivals_keep_the_command_in_flight(s, arrivals.drop_last());
    }
}

/// Judging commands forgets no completed request.
pub proof fn arrivals_keep_the_memory(s: CommandStateView, arrivals: Seq<Arrival>)
    ensures
        after_arrivals(s, arrivals).recent == s.recent,
    decreases arrivals.len(),
{
    if arrivals.len() > 0 {
        arrivals_keep_the_memory(s, arrivals.drop_last());
    }
}

/// A completed request that comes again is a duplicate until
/// [`MAX_RECENT_REQUEST_IDS`] further requests have completed, whatever arrived in
/// between, unless the rate limit turns it away first. Nothing is reserved for it.
pub proof fn a_completed_request_is_not_run_again(
    s: CommandStateView,
    id: Seq<char>,
    later: Seq<Seq<char>>,
    arrivals: Seq<Arrival>,
    now: u64,
    needs_control: bool,
)
    requires
        s.wf(),
        id.len() > 0,
        later.len() < MAX_RECENT_REQUEST_IDS,
        !s.recent.contains(id),
    ensures
        ({
            let t = after_arrivals(after_completions(s.recorded(id), later), arrivals);
            &&& t.recent.contains(id)
            &&& t.decision(now, id, needs_control) == PreflightDecision::Duplicate
                || t.decision(now, id, needs_control) == PreflightDecision::RateLimited
        }),
{
    let t = s.recorded(id);
    assert(t.recent.last() == id);
    assert(t.recent.len() <= MAX_RECENT_REQUEST_IDS);
    let k = place_from_the_back(t, id, later);
    let u = after_completions(t, later);
    assert(u.recent[k] == id);
    arrivals_keep_the_memory(u, arrivals);
}

/// An id that is last in the memory moves towards the front by at most one place
/// with every completion.
proof fn place_from_the_back(t: CommandStateView, id: Seq<char>, later: Seq<Seq<char>>) -> (k: int)
    requires
        0 < t.recent.len() <= MAX_RECENT_REQUEST_IDS,
        t.recent.last() == id,
        later.len() < MAX_RECENT_REQUEST_IDS,
    ensures
        after_completions(t, later).recent.len() <= MAX_RECENT_REQUEST_IDS,
        0 <= k < after_completions(t, later).recent.len(),
        after_completions(t, later).recent.len() - 1 - k <= later.len(),
        after_completions(t, later).recent[k] == id,
    decreases later.len(),
{
    if later.len() == 0 {
        t.recent.len() - 1
    } else {
        let rest = later.drop_last();
        let k = place_from_the_back(t, id, rest);
        place_after_recording(after_completions(t, rest), later.last(), k)
    }
}

/// Recording moves what is remembered by at most one place.
proof fn place_after_recording(v: CommandStateView, x: Seq<char>, k: int) -> (m: int)
    requires
        0 <= k < v.recent.len() <= MAX_RECENT_REQUEST_IDS,
        v.recent.len() >= MAX_RECENT_REQUEST_IDS ==> k >= 1,
    ensures
        v.recorded(x).recent.len() <= MAX_RECENT_REQUEST_IDS,
        0 <= m < v.recorded(x).recent.len(),
        v.recorded(x).recent.len() - 1 - m <= v.recent.len() - k,
        v.recorded(x).recent[m] == v.recent[k],
{
    if x.len() == 0 || v.recent.contains(x) || v.recent.len() < MAX_RECENT_REQUEST_IDS {
        k
    } else {
        k - 1
    }
}

/// A control command that waits too long is released, and its result, when it
/// comes after all, is not published.
pub proof fn a_late_result_is_suppressed(s: CommandStateView, now: u64)
    requires
        s.timed_out(now),
        s.inflight->0.request_id.len() > 0,
    ensures
        s.expired(now).inflight is None,
        s.expired(now).disposition(s.inflight->0.request_id)
            == ControlCompletionDisposition::SuppressLateResult,
        s.expired(now).completed(s.inflight->0.request_id) == s.expired(now),
{
    let id = s.inflight->0.request_id;
    recorded_contains(CommandStateView { inflight: None, ..s }, id);
}

proof fn recorded_contains(s: CommandStateView, id: Seq<char>)
    requires
        id.len() > 0,
    ensures
        s.recorded(id).recent.contains(id),
{
    let t = s.recorded(id);
    if !s.recent.contains(id) {
        assert(t.recent[t.recent.len() - 1] == id);
    }
}

/// A control command is not timed out before its time is up.
pub proof fn no_early_timeout(s: CommandStateView, now: u64)
    requires
        s.inflight is Some,
        now < s.inflight->0.queued_at + CONTROL_COMMAND_TIMEOUT,
    ensures
        !s.timed_out(now),
        s.expired(now) == s,
{
}

/// The result of a named control command is published once: it is published if the
/// command is in flight, and once a request is completed, in flight or not, a second
/// result for it is suppressed.
pub proof fn a_result_is_published_once(s: CommandStateView, id: Seq<char>)
    requires
        id.len() > 0,
    ensures
        s.inflight_is(id) ==> s.disposition(id)
            == ControlCompletionDisposition::PublishFinalResult,
        s.inflight_is(id) ==> s.completed(id).inflight is None,
        s.completed(id).disposition(id) == ControlCompletionDisposition::SuppressLateResult,
{
    recorded_contains(CommandStateView { inflight: None, ..s }, id);
    recorded_contains(s, id);
}

/// A reservation that is given up leaves the channel as if the command had only
/// been counted.
pub proof fn release_undoes_a_reservation(
    s: CommandStateView,
    now: u64,
    id: Seq<char>,
    cmd: Seq<char>,
)
    requires
        s.decision(now, id, true) == PreflightDecision::ControlReserved,
    ensures
        s.preflighted(now, id, cmd, true).inflight == Some(
            InflightView { request_id: id, cmd, queued_at: now },
        ),
        s.preflighted(now, id, cmd, true).released(id, cmd) == s.counted(now),
{
    assert(s.preflighted(now, id, cmd, true).released(id, cmd) =~= s.counted(now));
}

/// The control slot is reserved exactly for the commands that are handed to the
/// main control loop: no reservation is left without an owner, and nothing is
/// handed over without one.
pub proof fn a_reservation_goes_with_a_queued_command(
    s: CommandStateView,
    now: u64,
    device_id: Seq<char>,
    id: Seq<char>,
    cmd: Seq<char>,
    snapshot: SnapshotView,
    version_line: Seq<char>,
)
    ensures
        ({
            let needs_control = remote_control(cmd) is Some;
            let decision = s.decision(now, id, needs_control);
            let handling = judged_handling(
                decision,
                device_id,
                id,
                cmd,
                snapshot,
                version_line,
            );
            &&& handling is Queue <==> decision == PreflightDecision::ControlReserved
            &&& handling is Queue ==> handling == (HandlingView::Queue {
                request_id: id,
                cmd,
                command: remote_control(cmd)->0,
            }) && s.preflighted(now, id, cmd, needs_control).inflight == Some(
                InflightView { request_id: id, cmd, queued_at: now },
            )
        }),
{
    if remote_control(cmd) is Some {
        remote_control_commands_are_control_commands(cmd, version_line);
        reveal_strlit("ping");
        reveal_strlit("get_status");
        reveal_strlit("rtc_check");
        reveal_strlit("hdc1080_read");
        reveal_strlit("go_home");
        reveal_strlit("request_rehome");
        assert("ping"@.len() == 4);
        assert("get_status"@.len() == 10);
        assert("rtc_check"@.len() == 9);
        assert("hdc1080_read"@.len() == 12);
        assert("go_home"@.len() == 7);
        assert("request_rehome"@.len() == 14);
    }
}

} // verus!
