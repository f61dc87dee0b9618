//! The remote command channel: duplicate suppression, rate limiting, and the one
//! control command that may be in flight.
//!
//! Times are nanoseconds of a monotonic clock.

use std::collections::VecDeque;

use vstd::prelude::*;

use crate::text::{same_text, texts};

verus! {

pub const MAX_RECENT_REQUEST_IDS: usize = 64;
pub const RATE_LIMIT_MAX_COMMANDS: usize = 12;
pub const RATE_LIMIT_WINDOW: u64 = 5_000_000_000;
pub const CONTROL_COMMAND_TIMEOUT: u64 = 30_000_000_000;

/// A control command handed to the main loop whose result is outstanding.
#[derive(Debug)]
pub struct InflightControl {
    pub request_id: String,
    pub cmd: String,
    pub queued_at: u64,
}

/// What the channel remembers between commands.
#[derive(Debug)]
pub struct CommandState {
    /// Completed request ids, oldest first.
    pub recent_request_ids: VecDeque<String>,
    pub inflight_control: Option<InflightControl>,
    pub rate_limit_window_started_at: Option<u64>,
    pub rate_limit_count: usize,
}

#[derive(Debug, Clone, Copy, PartialEq, Eq, Structural)]
pub enum PreflightDecision {
    AllowReadOnly,
    ControlReserved,
    Duplicate,
    Busy,
    RateLimited,
}

#[derive(Debug, Clone, Copy, PartialEq, Eq, Structural)]
pub enum ControlCompletionDisposition {
    PublishFinalResult,
    SuppressLateResult,
}

#[verifier::ext_equal]
pub struct InflightView {
    pub request_id: Seq<char>,
    pub cmd: Seq<char>,
    pub queued_at: u64,
}

#[verifier::ext_equal]
pub struct CommandStateView {
    pub recent: Seq<Seq<char>>,
    pub inflight: Option<InflightView>,
    pub window: Option<u64>,
    pub count: usize,
}

impl View for InflightControl {
    type V = InflightView;

    open spec fn view(&self) -> InflightView {
        InflightView { request_id: self.request_id@, cmd: self.cmd@, queued_at: self.queued_at }
    }
}

pub open spec fn inflight_view(inflight: Option<InflightControl>) -> Option<InflightView> {
    match inflight {
        Some(i) => Some(i@),
        None => None,
    }
}

impl View for CommandState {
    type V = CommandStateView;

    open spec fn view(&self) -> CommandStateView {
        CommandStateView {
            recent: texts(self.recent_request_ids@),
            inflight: inflight_view(self.inflight_control),
            window: self.rate_limit_window_started_at,
            count: self.rate_limit_count,
        }
    }
}

/// Time since `earlier`, zero when `earlier` lies in the future.
pub open spec fn elapsed(now: u64, earlier: u64) -> int {
    if now >= earlier {
        now - earlier
    } else {
        0
    }
}

impl CommandStateView {
    /// The ids remembered are distinct, not empty and at most
    /// [`MAX_RECENT_REQUEST_IDS`]; no more commands were counted than a window admits.
    pub open spec fn wf(self) -> bool {
        &&& self.recent.len() <= MAX_RECENT_REQUEST_IDS
        &&& self.recent.no_duplicates()
        &&& forall|i: int| 0 <= i < self.recent.len() ==> (#[trigger] self.recent[i]).len() > 0
        &&& self.count <= RATE_LIMIT_MAX_COMMANDS
    }

    pub open spec fn empty() -> CommandStateView {
        CommandStateView { recent: Seq::empty(), inflight: None, window: None, count: 0 }
    }

    /// Whether the window that was opened at `self.window` still runs at `now`.
    pub open spec fn window_open(self, now: u64) -> bool {
        self.window is Some && elapsed(now, self.window->0) < RATE_LIMIT_WINDOW
    }

    /// The state with the rate window that holds at `now`.
    pub open spec fn advanced(self, now: u64) -> CommandStateView {
        if self.window_open(now) {
            self
        } else {
            CommandStateView { window: Some(now), count: 0, ..self }
        }
    }

    /// The state after the completion of request `id` is remembered.
    pub open spec fn recorded(self, id: Seq<char>) -> CommandStateView {
        if id.len() == 0 || self.recent.contains(id) {
            self
        } else if self.recent.len() >= MAX_RECENT_REQUEST_IDS {
            CommandStateView {
                recent: self.recent.subrange(1, self.recent.len() as int).push(id),
                ..self
            }
        } else {
            CommandStateView { recent: self.recent.push(id), ..self }
        }
    }

    pub open spec fn inflight_is(self, id: Seq<char>) -> bool {
        self.inflight is Some && self.inflight->0.request_id == id
    }

    /// The request was answered before, or is being worked on now.
    pub open spec fn known(self, id: Seq<char>) -> bool {
        id.len() > 0 && (self.recent.contains(id) || self.inflight_is(id))
    }

    /// The state with one more command counted in the window that holds at `now`.
    pub open spec fn counted(self, now: u64) -> CommandStateView {
        let a = self.advanced(now);
        CommandStateView { count: (a.count + 1) as usize, ..a }
    }

    /// The verdict on a command that arrives at `now`.
    pub open spec fn decision(self, now: u64, id: Seq<char>, needs_control: bool)
        -> PreflightDecision {
        if self.advanced(now).count >= RATE_LIMIT_MAX_COMMANDS {
            PreflightDecision::RateLimited
        } else if self.known(id) {
            PreflightDecision::Duplicate
        } else if !needs_control {
            PreflightDecision::AllowReadOnly
        } else if self.inflight is Some {
            PreflightDecision::Busy
        } else {
            PreflightDecision::ControlReserved
        }
    }

    /// The state after a command that arrives at `now` was judged.
    pub open spec fn preflighted(
        self,
        now: u64,
        id: Seq<char>,
        cmd: Seq<char>,
        needs_control: bool,
    ) -> CommandStateView {
        match self.decision(now, id, needs_control) {
            PreflightDecision::RateLimited => self.advanced(now),
            PreflightDecision::ControlReserved => CommandStateView {
                inflight: Some(InflightView { request_id: id, cmd, queued_at: now }),
                ..self.counted(now)
            },
            _ => self.counted(now),
        }
    }

    /// Whether the control command in flight has waited too long at `now`.
    pub open spec fn timed_out(self, now: u64) -> bool {
        self.inflight is Some && elapsed(now, self.inflight->0.queued_at)
            >= CONTROL_COMMAND_TIMEOUT
    }

    /// The state after a timeout check at `now`.
    pub open spec fn expired(self, now: u64) -> CommandStateView {
        if self.timed_out(now) {
            CommandStateView { inflight: None, ..self }.recorded(self.inflight->0.request_id)
        } else {
            self
        }
    }

    /// What becomes of a final result for request `id`.
    pub open spec fn disposition(self, id: Seq<char>) -> ControlCompletionDisposition {
        if !self.inflight_is(id) && id.len() > 0 && self.recent.contains(id) {
            ControlCompletionDisposition::SuppressLateResult
        } else {
            ControlCompletionDisposition::PublishFinalResult
        }
    }

    /// The state after the final result for request `id` came in.
    pub open spec fn completed(self, id: Seq<char>) -> CommandStateView {
        if self.inflight_is(id) {
            CommandStateView { inflight: None, ..self }.recorded(id)
        } else {
            self.recorded(id)
        }
    }

    /// The state after the reservation for `id` and `cmd`, if it is held, is given up.
    pub open spec fn released(self, id: Seq<char>, cmd: Seq<char>) -> CommandStateView {
        if self.inflight_is(id) && self.inflight->0.cmd == cmd {
            CommandStateView { inflight: None, ..self }
        } else {
            self
        }
    }
}

/// The state of a channel that has seen no command.
pub fn new_shared_command_state() -> (r: CommandState)
    ensures
        r@ == CommandStateView::empty(),
        r@.wf(),
{
    let r = CommandState {
        recent_request_ids: VecDeque::with_capacity(MAX_RECENT_REQUEST_IDS),
        inflight_control: None,
        rate_limit_window_started_at: None,
        rate_limit_count: 0,
    };
    assert(r@ =~= CommandStateView::empty());
    r
}

fn saturating_elapsed(now: u64, earlier: u64) -> (r: u64)
    ensures
        r == elapsed(now, earlier),
{
    if now >= earlier {
        now - earlier
    } else {
        0
    }
}

impl CommandState {
    fn remembers(&self, request_id: &str) -> (r: bool)
        ensures
            r == self@.recent.contains(request_id@),
    {
        let mut i: usize = 0;
        while i < self.recent_request_ids.len()
            invariant
                0 <= i <= self.recent_request_ids@.len(),
                forall|j: int| 0 <= j < i ==> #[trigger] self@.recent[j] != request_id@,
            decreases self.recent_request_ids@.len() - i,
        {
            if same_text(self.recent_request_ids[i].as_str(), request_id) {
                assert(self@.recent[i as int] == request_id@);
                return true;
            }
            assert(self@.recent[i as int] != request_id@);
            i = i + 1;
        }
        false
    }

    fn holds_request(&self, request_id: &str) -> (r: bool)
        ensures
            r == self@.inflight_is(request_id@),
    {
        match &self.inflight_control {
            Some(inflight) => same_text(inflight.request_id.as_str(), request_id),
            None => false,
        }
    }

    /// Open a new rate window at `now` unless one still runs.
    pub fn advance_rate_window(&mut self, now: u64)
        ensures
            final(self)@ == old(self)@.advanced(now),
            old(self)@.wf() ==> final(self)@.wf(),
    {
        let open = match self.rate_limit_window_started_at {
            Some(started_at) => saturating_elapsed(now, started_at) < RATE_LIMIT_WINDOW,
            None => false,
        };
        if !open {
            self.rate_limit_window_started_at = Some(now);
            self.rate_limit_count = 0;
        }
    }

    /// Remember that `request_id` was answered, forgetting the oldest id when full.
    pub fn record_recent_request_id(&mut self, request_id: &str)
        ensures
            final(self)@ == old(self)@.recorded(request_id@),
            old(self)@.wf() ==> final(self)@.wf(),
    {
        proof {
            if self@.wf() {
                recorded_keeps_wf(self@, request_id@);
            }
        }
        if request_id.is_empty() {
            return;
        }
        if self.remembers(request_id) {
            return;
        }
        if self.recent_request_ids.len() >= MAX_RECENT_REQUEST_IDS {
            let _ = self.recent_request_ids.pop_front();
        }
        self.recent_request_ids.push_back(request_id.to_owned());
        assert(self@ =~= old(self)@.recorded(request_id@));
    }

    /// Take the control command in flight if it has waited too long at `now`.
    pub fn take_timed_out_control(&mut self, now: u64) -> (r: Option<InflightControl>)
        ensures
            final(self)@ == old(self)@.expired(now),
            old(self)@.wf() ==> final(self)@.wf(),
            r is Some <==> old(self)@.timed_out(now),
            r is Some ==> r->0@ == old(self)@.inflight->0,
    {
        let expired = match &self.inflight_control {
            Some(inflight) => saturating_elapsed(now, inflight.queued_at)
                >= CONTROL_COMMAND_TIMEOUT,
            None => false,
        };
        if !expired {
            return None;
        }
        let timed_out = self.inflight_control.take();
        match &timed_out {
            Some(inflight) => self.record_recent_request_id(inflight.request_id.as_str()),
            None => {},
        }
        timed_out
    }
}

/// Judge a command that arrives at `now`, reserving the control slot if it is
/// admitted and needs it.
pub fn preflight_command(
    state: &mut CommandState,
    now: u64,
    request_id: &str,
    cmd: &str,
    needs_control: bool,
) -> (r: PreflightDecision)
    ensures
        r == old(state)@.decision(now, request_id@, needs_control),
        final(state)@ == old(state)@.preflighted(now, request_id@, cmd@, needs_control),
        old(state)@.wf() ==> final(state)@.wf(),
{
    state.advance_rate_window(now);
    if state.rate_limit_count >= RATE_LIMIT_MAX_COMMANDS {
        return PreflightDecision::RateLimited;
    }
    state.rate_limit_count = state.rate_limit_count + 1;

    if !request_id.is_empty() && state.remembers(request_id) {
        return PreflightDecision::Duplicate;
    }
    if state.inflight_control.is_some() {
        if !request_id.is_empty() && state.holds_request(request_id) {
            return PreflightDecision::Duplicate;
        }
        if needs_control {
            return PreflightDecision::Busy;
        }
    }
    if needs_control {
        state.inflight_control = Some(
            InflightControl {
                request_id: request_id.to_owned(),
                cmd: cmd.to_owned(),
                queued_at: now,
            },
        );
        PreflightDecision::ControlReserved
    } else {
        PreflightDecision::AllowReadOnly
    }
}

/// Remember that a read-only request was answered.
pub fn mark_read_only_request_complete(state: &mut CommandState, request_id: &str)
    ensures
        final(state)@ == old(state)@.recorded(request_id@),
        old(state)@.wf() ==> final(state)@.wf(),
{
    state.record_recent_request_id(request_id);
}

/// Decide whether the final result for `request_id` is still wanted.
pub fn complete_control_command(state: &mut CommandState, request_id: &str) -> (r:
    ControlCompletionDisposition)
    ensures
        r == old(state)@.disposition(request_id@),
        final(state)@ == old(state)@.completed(request_id@),
        old(state)@.wf() ==> final(state)@.wf(),
{
    if state.holds_request(request_id) {
        state.inflight_control = None;
        state.record_recent_request_id(request_id);
        ControlCompletionDisposition::PublishFinalResult
    } else if !request_id.is_empty() && state.remembers(request_id) {
        ControlCompletionDisposition::SuppressLateResult
    } else {
        state.record_recent_request_id(request_id);
        ControlCompletionDisposition::PublishFinalResult
    }
}

/// What reserving the control slot for the local console leads to.
pub open spec fn reserve_leads(
    before: CommandStateView,
    cmd: Seq<char>,
    now: u64,
    after: CommandStateView,
    r: Result<(), String>,
) -> bool {
    &&& r is Ok <==> before.inflight is None
    &&& r matches Err(message) ==> message@
        == "ERROR BUSY another diagnostics control command is already in progress"@ && after
        == before
    &&& r is Ok ==> after == (CommandStateView {
        inflight: Some(InflightView { request_id: Seq::empty(), cmd, queued_at: now }),
        ..before
    })
}

/// Reserve the control slot for a command from the local console.
pub fn reserve_local_control_command(state: &mut CommandState, cmd: &str, now: u64) -> (r: Result<
    (),
    String,
>)
    ensures
        reserve_leads(old(state)@, cmd@, now, final(state)@, r),
        old(state)@.wf() ==> final(state)@.wf(),
{
    if state.inflight_control.is_some() {
        return Err(
            "ERROR BUSY another diagnostics control command is already in progress".to_owned(),
        );
    }
    state.inflight_control = Some(
        InflightControl { request_id: String::new(), cmd: cmd.to_owned(), queued_at: now },
    );
    Ok(())
}

/// Give up the control slot if it is held for this very command.
pub fn release_reserved_control_command(state: &mut CommandState, request_id: &str, cmd: &str)
    ensures
        final(state)@ == old(state)@.released(request_id@, cmd@),
        old(state)@.wf() ==> final(state)@.wf(),
{
    let held = match &state.inflight_control {
        Some(inflight) => same_text(inflight.request_id.as_str(), request_id) && same_text(
            inflight.cmd.as_str(),
            cmd,
        ),
        None => false,
    };
    if held {
        state.inflight_control = None;
    }
}

/// Remembering an id keeps the memory well formed.
proof fn recorded_keeps_wf(s: CommandStateView, id: Seq<char>)
    requires
        s.wf(),
    ensures
        s.recorded(id).wf(),
{
    let t = s.recorded(id);
    if t != s {
        assert forall|i: int, j: int|
            0 <= i < t.recent.len() && 0 <= j < t.recent.len() && i != j implies t.recent[i]
            != t.recent[j] by {}
    }
}

} // verus!
