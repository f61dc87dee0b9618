//! Answering the remote command channel: what each message leads to.

use vstd::prelude::*;
use vstd::utf8::{decode_utf8, valid_utf8};

use crate::diagnostics::command::{CommandView, DiagnosticCommand};
use crate::diagnostics::executor::{
    direct_first_wave_lines, direct_lines, mqtt_control_command, remote_control,
};
use crate::diagnostics::mqtt::{
    preflight_command, release_reserved_control_command, CommandState, CommandStateView,
    PreflightDecision,
};
use crate::diagnostics::transcript::{DiagnosticsTranscript, TranscriptView};
use crate::ieee::{Double, Single};
use crate::std_text::utf8_text;
use crate::text::{concat2, opt_text, same_text, texts};
use crate::topic::{diagnostics_ack, diagnostics_cmd, tower_topic};

verus! {

/// A command as it arrives: `{ "cmd": .., "request_id": .., "message": .. }`.
#[derive(Debug)]
pub struct DiagnosticsCommand {
    pub cmd: String,
    pub request_id: Option<String>,
    pub message: Option<String>,
}

impl DiagnosticsCommand {
    pub open spec fn id(self) -> Seq<char> {
        match self.request_id {
            Some(id) => id@,
            None => Seq::empty(),
        }
    }

    fn request_id_text(&self) -> (r: String)
        ensures
            r@ == self.id(),
    {
        match &self.request_id {
            Some(id) => id.as_str().to_owned(),
            None => String::new(),
        }
    }
}

/// What a message's payload turned out to be.
#[derive(Debug)]
pub enum CommandPayload {
    NotUtf8,
    NotJson,
    Command(DiagnosticsCommand),
}

/// The text of a payload, `None` where its bytes are not UTF-8.
pub fn payload_text(payload: &[u8]) -> (r: Option<String>)
    ensures
        r is Some <==> valid_utf8(payload@),
        r is Some ==> r->0@ == decode_utf8(payload@),
{
    match utf8_text(payload) {
        Some(text) => Some(text.to_owned()),
        None => None,
    }
}

/// The tower's state at a glance, borrowed.
#[derive(Debug, Clone, Copy)]
pub struct StatusSnapshot<'a> {
    pub device_id: &'a str,
    pub firmware_version: &'a str,
    pub mqtt_connected: bool,
    pub wifi_connected: bool,
    pub motion_mode: &'a str,
    pub current_heading: Single,
    pub activity: &'a str,
    pub activity_reason: &'a str,
    pub sun_angle: Option<Double>,
    pub target_heading: Option<Double>,
    pub angle_offset: Option<Double>,
    pub last_move_outcome: Option<&'a str>,
}

/// The tower's state at a glance.
#[derive(Debug)]
pub struct OwnedStatusSnapshot {
    pub device_id: String,
    pub firmware_version: String,
    pub mqtt_connected: bool,
    pub wifi_connected: bool,
    pub motion_mode: String,
    pub current_heading: Single,
    pub activity: String,
    pub activity_reason: String,
    pub sun_angle: Option<Double>,
    pub target_heading: Option<Double>,
    pub angle_offset: Option<Double>,
    pub last_move_outcome: Option<String>,
}

#[verifier::ext_equal]
pub struct SnapshotView {
    pub device_id: Seq<char>,
    pub firmware_version: Seq<char>,
    pub mqtt_connected: bool,
    pub wifi_connected: bool,
    pub motion_mode: Seq<char>,
    pub current_heading: Single,
    pub activity: Seq<char>,
    pub activity_reason: Seq<char>,
    pub sun_angle: Option<Double>,
    pub target_heading: Option<Double>,
    pub angle_offset: Option<Double>,
    pub last_move_outcome: Option<Seq<char>>,
}

impl<'a> View for StatusSnapshot<'a> {
    type V = SnapshotView;

    open spec fn view(&self) -> SnapshotView {
        SnapshotView {
            device_id: self.device_id@,
            firmware_version: self.firmware_version@,
            mqtt_connected: self.mqtt_connected,
            wifi_connected: self.wifi_connected,
            motion_mode: self.motion_mode@,
            current_heading: self.current_heading,
            activity: self.activity@,
            activity_reason: self.activity_reason@,
            sun_angle: self.sun_angle,
            target_heading: self.target_heading,
            angle_offset: self.angle_offset,
            last_move_outcome: match self.last_move_outcome {
                Some(outcome) => Some(outcome@),
                None => None,
            },
        }
    }
}

impl View for OwnedStatusSnapshot {
    type V = SnapshotView;

    open spec fn view(&self) -> SnapshotView {
        SnapshotView {
            device_id: self.device_id@,
            firmware_version: self.firmware_version@,
            mqtt_connected: self.mqtt_connected,
            wifi_connected: self.wifi_connected,
            motion_mode: self.motion_mode@,
            current_heading: self.current_heading,
            activity: self.activity@,
            activity_reason: self.activity_reason@,
            sun_angle: self.sun_angle,
            target_heading: self.target_heading,
            angle_offset: self.angle_offset,
            last_move_outcome: opt_text(self.last_move_outcome),
        }
    }
}

impl OwnedStatusSnapshot {
    pub fn as_borrowed(&self) -> (r: StatusSnapshot<'_>)
        ensures
            r@ == self@,
    {
        StatusSnapshot {
            device_id: self.device_id.as_str(),
            firmware_version: self.firmware_version.as_str(),
            mqtt_connected: self.mqtt_connected,
            wifi_connected: self.wifi_connected,
            motion_mode: self.motion_mode.as_str(),
            current_heading: self.current_heading,
            activity: self.activity.as_str(),
            activity_reason: self.activity_reason.as_str(),
            sun_angle: self.sun_angle,
            target_heading: self.target_heading,
            angle_offset: self.angle_offset,
            last_move_outcome: match &self.last_move_outcome {
                Some(outcome) => Some(outcome.as_str()),
                None => None,
            },
        }
    }
}

impl<'a> StatusSnapshot<'a> {
    fn to_owned_snapshot(&self) -> (r: OwnedStatusSnapshot)
        ensures
            r@ == self@,
    {
        OwnedStatusSnapshot {
            device_id: self.device_id.to_owned(),
            firmware_version: self.firmware_version.to_owned(),
            mqtt_connected: self.mqtt_connected,
            wifi_connected: self.wifi_connected,
            motion_mode: self.motion_mode.to_owned(),
            current_heading: self.current_heading,
            activity: self.activity.to_owned(),
            activity_reason: self.activity_reason.to_owned(),
            sun_angle: self.sun_angle,
            target_heading: self.target_heading,
            angle_offset: self.angle_offset,
            last_move_outcome: match self.last_move_outcome {
                Some(outcome) => Some(outcome.to_owned()),
                None => None,
            },
        }
    }
}

/// Replace the snapshot with the latest complete one.
pub fn update_snapshot(snapshot: &mut OwnedStatusSnapshot, next: OwnedStatusSnapshot)
    ensures
        *final(snapshot) == next,
{
    *snapshot = next;
}

/// A reply, without the time stamp that publishing adds.
#[derive(Debug)]
pub struct Reply {
    pub topic: String,
    pub request_id: String,
    pub cmd: String,
    pub status: &'static str,
    pub message: String,
    pub body: ReplyBody,
}

/// What a reply carries besides its status.
#[derive(Debug)]
pub enum ReplyBody {
    Ack,
    Status(OwnedStatusSnapshot),
    Transcript { lines: Vec<String> },
}

#[verifier::ext_equal]
pub enum BodyView {
    Ack,
    Status(SnapshotView),
    Transcript(Seq<Seq<char>>),
}

#[verifier::ext_equal]
pub struct ReplyView {
    pub topic: Seq<char>,
    pub request_id: Seq<char>,
    pub cmd: Seq<char>,
    pub status: Seq<char>,
    pub message: Seq<char>,
    pub body: BodyView,
}

impl View for ReplyBody {
    type V = BodyView;

    open spec fn view(&self) -> BodyView {
        match self {
            ReplyBody::Ack => BodyView::Ack,
            ReplyBody::Status(snapshot) => BodyView::Status(snapshot@),
            ReplyBody::Transcript { lines } => BodyView::Transcript(texts(lines@)),
        }
    }
}

impl View for Reply {
    type V = ReplyView;

    open spec fn view(&self) -> ReplyView {
        ReplyView {
            topic: self.topic@,
            request_id: self.request_id@,
            cmd: self.cmd@,
            status: self.status@,
            message: self.message@,
            body: self.body@,
        }
    }
}

pub open spec fn ack_topic(device_id: Seq<char>) -> Seq<char> {
    tower_topic(device_id, "/cmd/diagnostics/ack"@)
}

pub open spec fn ack_view(
    device_id: Seq<char>,
    request_id: Seq<char>,
    cmd: Seq<char>,
    status: Seq<char>,
    message: Seq<char>,
) -> ReplyView {
    ReplyView {
        topic: ack_topic(device_id),
        request_id,
        cmd,
        status,
        message,
        body: BodyView::Ack,
    }
}

/// An acknowledgement.
pub fn publish_ack_message(
    device_id: &str,
    request_id: &str,
    cmd: &str,
    status: &'static str,
    message: &str,
) -> (r: Reply)
    ensures
        r@ == ack_view(device_id@, request_id@, cmd@, status@, message@),
{
    Reply {
        topic: diagnostics_ack(device_id),
        request_id: request_id.to_owned(),
        cmd: cmd.to_owned(),
        status,
        message: message.to_owned(),
        body: ReplyBody::Ack,
    }
}

pub open spec fn status_view(
    device_id: Seq<char>,
    request_id: Seq<char>,
    cmd: Seq<char>,
    snapshot: SnapshotView,
) -> ReplyView {
    ReplyView {
        topic: ack_topic(device_id),
        request_id,
        cmd,
        status: "ok"@,
        message: "Tower status snapshot"@,
        body: BodyView::Status(snapshot),
    }
}

/// A report of the tower's state.
pub fn publish_status(
    device_id: &str,
    request_id: &str,
    cmd: &str,
    snapshot: &StatusSnapshot<'_>,
) -> (r: Reply)
    ensures
        r@ == status_view(device_id@, request_id@, cmd@, snapshot@),
{
    Reply {
        topic: diagnostics_ack(device_id),
        request_id: request_id.to_owned(),
        cmd: cmd.to_owned(),
        status: "ok",
        message: "Tower status snapshot".to_owned(),
        body: ReplyBody::Status(snapshot.to_owned_snapshot()),
    }
}

pub open spec fn transcript_reply_view(
    device_id: Seq<char>,
    request_id: Seq<char>,
    cmd: Seq<char>,
    transcript: TranscriptView,
) -> ReplyView {
    ReplyView {
        topic: ack_topic(device_id),
        request_id,
        cmd,
        status: transcript.status,
        message: transcript.message,
        body: BodyView::Transcript(transcript.lines),
    }
}

/// A report of what a command wrote.
pub fn publish_transcript(
    device_id: &str,
    request_id: &str,
    cmd: &str,
    transcript: DiagnosticsTranscript,
) -> (r: Reply)
    ensures
        r@ == transcript_reply_view(device_id@, request_id@, cmd@, transcript@),
{
    Reply {
        topic: diagnostics_ack(device_id),
        request_id: request_id.to_owned(),
        cmd: cmd.to_owned(),
        status: transcript.status,
        message: transcript.message,
        body: ReplyBody::Transcript { lines: transcript.lines },
    }
}

/// The topic to subscribe to once the connection stands.
pub fn subscribe(device_id: &str) -> (r: String)
    ensures
        r@ == tower_topic(device_id@, "/cmd/diagnostics"@),
{
    diagnostics_cmd(device_id)
}

/// A command for the main control loop.
#[derive(Debug)]
pub enum ControlCommand {
    ExecuteFirstWave { request_id: String, cmd: String, command: DiagnosticCommand },
}

/// What a message leads to.
#[derive(Debug)]
pub enum Handling {
    /// Nothing: the message is not for this channel.
    Ignored,
    /// Publish the reply.
    Publish(Reply),
    /// Publish the reply and, once that has succeeded, remember the request as
    /// answered.
    PublishThenComplete(Reply),
    /// Hand the command to the main control loop, and answer as
    /// [`queue_control_command`] says.
    Queue(ControlCommand),
}

#[verifier::ext_equal]
pub enum HandlingView {
    Ignored,
    Publish(ReplyView),
    PublishThenComplete(ReplyView),
    Queue { request_id: Seq<char>, cmd: Seq<char>, command: CommandView },
}

impl View for Handling {
    type V = HandlingView;

    open spec fn view(&self) -> HandlingView {
        match self {
            Handling::Ignored => HandlingView::Ignored,
            Handling::Publish(reply) => HandlingView::Publish(reply@),
            Handling::PublishThenComplete(reply) => HandlingView::PublishThenComplete(reply@),
            Handling::Queue(ControlCommand::ExecuteFirstWave { request_id, cmd, command }) =>
                HandlingView::Queue { request_id: request_id@, cmd: cmd@, command: command@ },
        }
    }
}

/// What an admitted command leads to.
pub open spec fn admitted_handling(
    device_id: Seq<char>,
    request_id: Seq<char>,
    cmd: Seq<char>,
    snapshot: SnapshotView,
    version_line: Seq<char>,
) -> HandlingView {
    if cmd == "ping"@ {
        HandlingView::PublishThenComplete(
            ack_view(
                device_id,
                request_id,
                cmd,
                "received"@,
                "Tower received diagnostics command"@,
            ),
        )
    } else if cmd == "get_status"@ {
        HandlingView::PublishThenComplete(status_view(device_id, request_id, cmd, snapshot))
    } else if direct_lines(cmd, version_line) is Some {
        HandlingView::PublishThenComplete(
            transcript_reply_view(
                device_id,
                request_id,
                cmd,
                TranscriptView {
                    status: "completed"@,
                    message: cmd + " reported successfully"@,
                    lines: direct_lines(cmd, version_line)->0,
                    reboot_requested: false,
                    details: Seq::empty(),
                },
            ),
        )
    } else if remote_control(cmd) is Some {
        HandlingView::Queue { request_id, cmd, command: remote_control(cmd)->0 }
    } else {
        HandlingView::PublishThenComplete(
            ack_view(device_id, request_id, cmd, "error"@, "Unsupported diagnostics command"@),
        )
    }
}

/// What a judged command leads to.
pub open spec fn judged_handling(
    decision: PreflightDecision,
    device_id: Seq<char>,
    request_id: Seq<char>,
    cmd: Seq<char>,
    snapshot: SnapshotView,
    version_line: Seq<char>,
) -> HandlingView {
    match decision {
        PreflightDecision::Duplicate => HandlingView::Publish(
            ack_view(
                device_id,
                request_id,
                cmd,
                "duplicate"@,
                "Duplicate request_id ignored for this boot"@,
            ),
        ),
        PreflightDecision::Busy => HandlingView::Publish(
            ack_view(
                device_id,
                request_id,
                cmd,
                "busy"@,
                "A diagnostics control command is already in progress"@,
            ),
        ),
        PreflightDecision::RateLimited => HandlingView::Publish(
            ack_view(
                device_id,
                request_id,
                cmd,
                "rate_limited"@,
                "Diagnostics command rate limit exceeded; try again shortly"@,
            ),
        ),
        _ => admitted_handling(device_id, request_id, cmd, snapshot, version_line),
    }
}

fn handle_admitted(
    device_id: &str,
    request_id: String,
    cmd: &str,
    snapshot: &StatusSnapshot<'_>,
    version_line: &str,
) -> (r: Handling)
    ensures
        r@ == admitted_handling(device_id@, request_id@, cmd@, snapshot@, version_line@),
{
    if same_text(cmd, "ping") {
        return Handling::PublishThenComplete(
            publish_ack_message(
                device_id,
                request_id.as_str(),
                cmd,
                "received",
                "Tower received diagnostics command",
            ),
        );
    }
    if same_text(cmd, "get_status") {
        return Handling::PublishThenComplete(
            publish_status(device_id, request_id.as_str(), cmd, snapshot),
        );
    }
    match direct_first_wave_lines(cmd, version_line) {
        Some(lines) => {
            let transcript = DiagnosticsTranscript {
                status: "completed",
                message: concat2(cmd, " reported successfully"),
                lines,
                reboot_requested: false,
                details: Vec::new(),
            };
            return Handling::PublishThenComplete(
                publish_transcript(device_id, request_id.as_str(), cmd, transcript),
            );
        },
        None => {},
    }
    match mqtt_control_command(cmd) {
        Some(command) => Handling::Queue(
            ControlCommand::ExecuteFirstWave { request_id, cmd: cmd.to_owned(), command },
        ),
        None => Handling::PublishThenComplete(
            publish_ack_message(
                device_id,
                request_id.as_str(),
                cmd,
                "error",
                "Unsupported diagnostics command",
            ),
        ),
    }
}

/// What a message leads to, and what it leaves of the channel's state.
pub open spec fn one_leads(
    before: CommandStateView,
    now: u64,
    device_id: Seq<char>,
    topic: Seq<char>,
    payload: CommandPayload,
    snapshot: SnapshotView,
    version_line: Seq<char>,
    after: CommandStateView,
    r: HandlingView,
) -> bool {
    &&& topic != tower_topic(device_id, "/cmd/diagnostics"@) ==> r is Ignored
        && after == before
    &&& topic == tower_topic(device_id, "/cmd/diagnostics"@) ==> match payload {
        CommandPayload::NotUtf8 => after == before && r
            == HandlingView::Publish(
            ack_view(
                device_id,
                ""@,
                "unknown"@,
                "error"@,
                "Command payload must be UTF-8"@,
            ),
        ),
        CommandPayload::NotJson => after == before && r
            == HandlingView::Publish(
            ack_view(
                device_id,
                ""@,
                "unknown"@,
                "error"@,
                "Command payload must be valid JSON"@,
            ),
        ),
        CommandPayload::Command(command) => {
            let needs_control = remote_control(command.cmd@) is Some;
            &&& after == before.preflighted(
                now,
                command.id(),
                command.cmd@,
                needs_control,
            )
            &&& r == judged_handling(
                before.decision(now, command.id(), needs_control),
                device_id,
                command.id(),
                command.cmd@,
                snapshot,
                version_line,
            )
        },
    }
}

/// Answer one message that arrived on `incoming_topic` at `now`.
///
/// A message on any other topic than the command topic is ignored. A payload that
/// is not a command is answered with an error. A command passes the channel's
/// judgement first, which may reserve the control slot for it.
pub fn process_one(
    state: &mut CommandState,
    now: u64,
    device_id: &str,
    incoming_topic: &str,
    payload: &CommandPayload,
    snapshot: &StatusSnapshot<'_>,
    version_line: &str,
) -> (r: Handling)
    ensures
        old(state)@.wf() ==> final(state)@.wf(),
        one_leads(
            old(state)@,
            now,
            device_id@,
            incoming_topic@,
            *payload,
            snapshot@,
            version_line@,
            final(state)@,
            r@,
        ),
{
    let command_topic = diagnostics_cmd(device_id);
    if !same_text(incoming_topic, command_topic.as_str()) {
        return Handling::Ignored;
    }
    let command = match payload {
        CommandPayload::NotUtf8 => {
            return Handling::Publish(
                publish_ack_message(
                    device_id,
                    "",
                    "unknown",
                    "error",
                    "Command payload must be UTF-8",
                ),
            );
        },
        CommandPayload::NotJson => {
            return Handling::Publish(
                publish_ack_message(
                    device_id,
                    "",
                    "unknown",
                    "error",
                    "Command payload must be valid JSON",
                ),
            );
        },
        CommandPayload::Command(command) => command,
    };

    let request_id = command.request_id_text();
    let cmd = command.cmd.as_str();
    let needs_control = mqtt_control_command(cmd).is_some();
    match preflight_command(state, now, request_id.as_str(), cmd, needs_control) {
        PreflightDecision::Duplicate => Handling::Publish(
            publish_ack_message(
                device_id,
                request_id.as_str(),
                cmd,
                "duplicate",
                "Duplicate request_id ignored for this boot",
            ),
        ),
        PreflightDecision::Busy => Handling::Publish(
            publish_ack_message(
                device_id,
                request_id.as_str(),
                cmd,
                "busy",
                "A diagnostics control command is already in progress",
            ),
        ),
        PreflightDecision::RateLimited => Handling::Publish(
            publish_ack_message(
                device_id,
                request_id.as_str(),
                cmd,
                "rate_limited",
                "Diagnostics command rate limit exceeded; try again shortly",
            ),
        ),
        _ => handle_admitted(device_id, request_id, cmd, snapshot, version_line),
    }
}

/// What became of handing a command to the main control loop.
#[derive(Debug, Clone, Copy, PartialEq, Eq, Structural)]
pub enum QueueOutcome {
    Queued,
    Full,
    Disconnected,
}

/// What offering a control command to the main control loop leads to.
pub open spec fn queue_leads(
    before: CommandStateView,
    device_id: Seq<char>,
    request_id: Seq<char>,
    cmd: Seq<char>,
    outcome: QueueOutcome,
    after: CommandStateView,
    r: ReplyView,
) -> bool {
    &&& after == (if outcome == QueueOutcome::Queued {
        before
    } else {
        before.released(request_id, cmd)
    })
    &&& r == (match outcome {
        QueueOutcome::Queued => ack_view(
            device_id,
            request_id,
            cmd,
            "queued"@,
            "Diagnostics command accepted by the main control loop"@,
        ),
        QueueOutcome::Full => ack_view(
            device_id,
            request_id,
            cmd,
            "busy"@,
            "Diagnostics control queue is full; try again shortly"@,
        ),
        QueueOutcome::Disconnected => ack_view(
            device_id,
            request_id,
            cmd,
            "error"@,
            "Main control loop is unavailable"@,
        ),
    })
}

/// Answer a control command that was offered to the main control loop. Where the
/// loop did not take it, its reservation is given up.
pub fn queue_control_command(
    state: &mut CommandState,
    device_id: &str,
    request_id: &str,
    cmd: &str,
    outcome: QueueOutcome,
) -> (r: Reply)
    ensures
        old(state)@.wf() ==> final(state)@.wf(),
        queue_leads(
            old(state)@,
            device_id@,
            request_id@,
            cmd@,
            outcome,
            final(state)@,
            r@,
        ),
{
    match outcome {
        QueueOutcome::Queued => publish_ack_message(
            device_id,
            request_id,
            cmd,
            "queued",
            "Diagnostics command accepted by the main control loop",
        ),
        QueueOutcome::Full => {
            release_reserved_control_command(state, request_id, cmd);
            publish_ack_message(
                device_id,
                request_id,
                cmd,
                "busy",
                "Diagnostics control queue is full; try again shortly",
            )
        },
        QueueOutcome::Disconnected => {
            release_reserved_control_command(state, request_id, cmd);
            publish_ack_message(
                device_id,
                request_id,
                cmd,
                "error",
                "Main control loop is unavailable",
            )
        },
    }
}

/// What is said of a control command that has waited too long, if one has.
pub open spec fn timeout_leads(
    before: CommandStateView,
    now: u64,
    device_id: Seq<char>,
    r: Option<Reply>,
) -> bool {
    &&& r is Some <==> before.timed_out(now)
    &&& r is Some ==> r->0@ == ack_view(
        device_id,
        before.inflight->0.request_id,
        before.inflight->0.cmd,
        "timeout"@,
        "Diagnostics control command timed out waiting for main loop completion"@,
    )
}

/// Release a control command that has waited too long at `now`, and say so.
pub fn publish_timed_out_control_if_needed(
    state: &mut CommandState,
    now: u64,
    device_id: &str,
) -> (r: Option<Reply>)
    ensures
        old(state)@.wf() ==> final(state)@.wf(),
        final(state)@ == old(state)@.expired(now),
        timeout_leads(old(state)@, now, device_id@, r),
{
    match state.take_timed_out_control(now) {
        Some(timed_out) => Some(
            publish_ack_message(
                device_id,
                timed_out.request_id.as_str(),
                timed_out.cmd.as_str(),
                "timeout",
                "Diagnostics control command timed out waiting for main loop completion",
            ),
        ),
        None => None,
    }
}

pub const MAX_BATCH: u32 = 8;
pub const DISCONNECTED_SLEEP_MS: u64 = 250;
pub const SUBSCRIBE_RETRY_SLEEP_MS: u64 = 1000;
pub const IDLE_SLEEP_MS: u64 = 100;

/// Whether the listener holds a subscription.
#[derive(Debug, Clone, Copy, PartialEq, Eq, Structural)]
pub struct DiagnosticsListener {
    pub subscribed: bool,
}

/// What the listener does next.
#[derive(Debug, Clone, Copy, PartialEq, Eq, Structural)]
pub enum ListenerStep {
    SleepMs(u64),
    Subscribe,
    /// Check for a timed-out control command, then serve a batch.
    Serve,
}

/// What became of serving one message.
#[derive(Debug, Clone, Copy, PartialEq, Eq, Structural)]
pub enum ServeOutcome {
    /// A message was consumed.
    Handled,
    /// There was none, or it was not for this channel.
    Nothing,
    Failed,
}

impl DiagnosticsListener {
    pub fn new() -> (r: Self)
        ensures
            !r.subscribed,
    {
        DiagnosticsListener { subscribed: false }
    }

    /// What beginning a round leads to.
    pub open spec fn begin_leads(
        self,
        connected: bool,
        after: DiagnosticsListener,
        r: ListenerStep,
    ) -> bool {
        &&& after.subscribed == (connected && self.subscribed)
        &&& r == (if !connected {
            ListenerStep::SleepMs(DISCONNECTED_SLEEP_MS)
        } else if !self.subscribed {
            ListenerStep::Subscribe
        } else {
            ListenerStep::Serve
        })
    }

    /// What an attempt to subscribe leads to.
    pub open spec fn subscribe_leads(
        self,
        ok: bool,
        after: DiagnosticsListener,
        r: ListenerStep,
    ) -> bool {
        &&& after.subscribed == (ok || self.subscribed)
        &&& r == (if ok {
            ListenerStep::Serve
        } else {
            ListenerStep::SleepMs(SUBSCRIBE_RETRY_SLEEP_MS)
        })
    }

    /// Begin a round of the listener's loop.
    pub fn begin(&mut self, connected: bool) -> (r: ListenerStep)
        ensures
            old(self).begin_leads(connected, *final(self), r),
    {
        if !connected {
            self.subscribed = false;
            return ListenerStep::SleepMs(DISCONNECTED_SLEEP_MS);
        }
        if !self.subscribed {
            return ListenerStep::Subscribe;
        }
        ListenerStep::Serve
    }

    /// Go on after an attempt to subscribe.
    pub fn after_subscribe(&mut self, ok: bool) -> (r: ListenerStep)
        ensures
            old(self).subscribe_leads(ok, *final(self), r),
    {
        if ok {
            self.subscribed = true;
            ListenerStep::Serve
        } else {
            ListenerStep::SleepMs(SUBSCRIBE_RETRY_SLEEP_MS)
        }
    }
}

/// The messages served in one round.
#[derive(Debug, Clone, Copy, PartialEq, Eq, Structural)]
pub struct Batch {
    pub processed: u32,
}

impl Batch {
    pub open spec fn wf(self) -> bool {
        self.processed <= MAX_BATCH
    }

    pub fn new() -> (r: Self)
        ensures
            r.processed == 0,
            r.wf(),
    {
        Batch { processed: 0 }
    }

    /// What one serving leads to.
    pub open spec fn note_leads(self, outcome: ServeOutcome, after: Batch, another: bool) -> bool {
        &&& after.processed == self.processed + (if outcome == ServeOutcome::Handled {
            1int
        } else {
            0int
        })
        &&& another <==> outcome == ServeOutcome::Handled && after.processed < MAX_BATCH
    }

    /// The sleep after a round: only one that served nothing sleeps.
    pub open spec fn sleep(self) -> Option<u64> {
        if self.processed == 0 {
            Some(IDLE_SLEEP_MS)
        } else {
            None
        }
    }

    /// Take note of one serving; `true` asks for another.
    pub fn note(&mut self, outcome: ServeOutcome) -> (r: bool)
        requires
            old(self).processed < MAX_BATCH,
        ensures
            final(self).wf(),
            old(self).note_leads(outcome, *final(self), r),
    {
        match outcome {
            ServeOutcome::Handled => {
                self.processed = self.processed + 1;
                self.processed < MAX_BATCH
            },
            _ => false,
        }
    }

    /// How long to sleep after the round: only a round that served nothing sleeps.
    pub fn pause(&self) -> (r: Option<u64>)
        ensures
            r == self.sleep(),
    {
        if self.processed == 0 {
            Some(IDLE_SLEEP_MS)
        } else {
            None
        }
    }
}

} // verus!
