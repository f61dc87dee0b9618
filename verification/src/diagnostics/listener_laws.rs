//! What a remote message and a line on the serial console lead to.

use vstd::prelude::*;

use crate::diagnostics::answer::AnswerView;
use crate::diagnostics::command::{CommandView, ParsedCommand};
use crate::diagnostics::executor::remote_control;
use crate::diagnostics::listener::{
    judged_handling, one_leads, queue_leads, timeout_leads, Batch, BodyView, CommandPayload,
    DiagnosticsListener, HandlingView, ListenerStep, QueueOutcome, Reply, ReplyView, ServeOutcome,
    SnapshotView,
};
use crate::diagnostics::mqtt::{CommandStateView, PreflightDecision};
use crate::diagnostics::serial::{
    announced, begin_out, end_out, executed_poll, given_back, led_out, minimal_leads, reserved,
    serial_step, MinimalStep, SerialDiagnosticsPoll, SerialStep,
};
use crate::diagnostics::transcript::TranscriptView;
use crate::logic::fsm::diagnostics::console::OutView;
use crate::topic::tower_topic;

verus! {

/// The reply that a message leads to, if it leads to one.
pub open spec fn reply_of(r: HandlingView) -> Option<ReplyView> {
    match r {
        HandlingView::Publish(reply) => Some(reply),
        HandlingView::PublishThenComplete(reply) => Some(reply),
        _ => None,
    }
}

/// A message on any other topic than the tower's own is not answered and leaves no trace;
/// one on it always leads to something.
pub proof fn only_messages_for_the_tower_are_answered(
    before: CommandStateView,
    now: u64,
    device_id: Seq<char>,
    topic: Seq<char>,
    payload: CommandPayload,
    snapshot: SnapshotView,
    version_line: Seq<char>,
    after: CommandStateView,
    r: HandlingView,
)
    requires
        one_leads(before, now, device_id, topic, payload, snapshot, version_line, after, r),
    ensures
        r is Ignored <==> topic != tower_topic(device_id, "/cmd/diagnostics"@),
        r is Ignored ==> after == before,
        !(payload is Command) ==> after == before,
        !(payload is Command) && !(r is Ignored) ==> r is Publish,
{
}

/// A command that is judged is answered under its own id and name, on the tower's reply
/// topic; what is no command is answered as an error of an unknown one.
pub proof fn a_reply_names_its_command(
    before: CommandStateView,
    now: u64,
    device_id: Seq<char>,
    topic: Seq<char>,
    payload: CommandPayload,
    snapshot: SnapshotView,
    version_line: Seq<char>,
    after: CommandStateView,
    r: HandlingView,
)
    requires
        one_leads(before, now, device_id, topic, payload, snapshot, version_line, after, r),
        !(r is Ignored),
    ensures
        match payload {
            CommandPayload::Command(command) => {
                &&& r matches HandlingView::Publish(reply) ==> reply.cmd == command.cmd@
                    && reply.request_id == command.id() && reply.topic == tower_topic(
                    device_id,
                    "/cmd/diagnostics/ack"@,
                )
                &&& r matches HandlingView::PublishThenComplete(reply) ==> reply.cmd
                    == command.cmd@ && reply.request_id == command.id() && reply.topic
                    == tower_topic(device_id, "/cmd/diagnostics/ack"@)
                &&& r matches HandlingView::Queue { request_id, cmd, .. } ==> cmd
                    == command.cmd@ && request_id == command.id()
            },
            _ => r matches HandlingView::Publish(reply) && reply.status == "error"@ && reply.cmd
                == "unknown"@,
        },
{
}

/// A command that is turned away is told why and is not remembered as answered; one that
/// is admitted is either answered for good or handed to the main loop.
pub proof fn only_an_admitted_command_completes(
    decision: PreflightDecision,
    device_id: Seq<char>,
    id: Seq<char>,
    cmd: Seq<char>,
    snapshot: SnapshotView,
    version_line: Seq<char>,
)
    ensures
        ({
            let r = judged_handling(decision, device_id, id, cmd, snapshot, version_line);
            &&& r is Publish <==> decision == PreflightDecision::Duplicate || decision
                == PreflightDecision::Busy || decision == PreflightDecision::RateLimited
            &&& decision == PreflightDecision::Duplicate ==> r->Publish_0.status == "duplicate"@
            &&& decision == PreflightDecision::Busy ==> r->Publish_0.status == "busy"@
            &&& decision == PreflightDecision::RateLimited ==> r->Publish_0.status
                == "rate_limited"@
            &&& !(r is Ignored)
        }),
{
}

/// An admitted `ping` is acknowledged, a `get_status` answered with the snapshot, the
/// remote control commands are queued, and a word that is no command's is an error.
pub proof fn an_admitted_command_gets_its_own_answer(
    decision: PreflightDecision,
    device_id: Seq<char>,
    id: Seq<char>,
    cmd: Seq<char>,
    snapshot: SnapshotView,
    version_line: Seq<char>,
)
    requires
        decision == PreflightDecision::AllowReadOnly || decision
            == PreflightDecision::ControlReserved,
    ensures
        ({
            let r = judged_handling(decision, device_id, id, cmd, snapshot, version_line);
            let control = cmd == "rtc_check"@ || cmd == "hdc1080_read"@ || cmd == "go_home"@
                || cmd == "request_rehome"@;
            let direct = cmd == "firmware_version"@ || cmd == "get_capabilities"@;
            &&& r is Queue <==> control
            &&& cmd == "ping"@ ==> reply_of(r)->0.status == "received"@ && reply_of(r)->0.body
                is Ack
            &&& cmd == "get_status"@ ==> reply_of(r)->0.status == "ok"@ && reply_of(r)->0.body
                == BodyView::Status(snapshot)
            &&& direct ==> reply_of(r)->0.status == "completed"@ && reply_of(r)->0.body
                is Transcript
            &&& cmd == "firmware_version"@ ==> reply_of(r)->0.body == BodyView::Transcript(
                seq![version_line],
            )
            &&& !control && !direct && cmd != "ping"@ && cmd != "get_status"@ ==> reply_of(
                r,
            )->0.status == "error"@
            &&& (cmd == "go_home"@ || cmd == "request_rehome"@) ==> remote_control(cmd) == Some(
                CommandView::GoHome,
            )
            &&& cmd == "rtc_check"@ ==> remote_control(cmd) == Some(CommandView::RtcCheck)
            &&& cmd == "hdc1080_read"@ ==> remote_control(cmd) == Some(CommandView::Hdc1080Read)
        }),
{
    reveal_strlit("ping");
    reveal_strlit("get_status");
    reveal_strlit("rtc_check");
    reveal_strlit("hdc1080_read");
    reveal_strlit("go_home");
    reveal_strlit("request_rehome");
    reveal_strlit("firmware_version");
    reveal_strlit("get_capabilities");
    assert("ping"@.len() == 4);
    assert("get_status"@.len() == 10);
    assert("rtc_check"@.len() == 9);
    assert("hdc1080_read"@.len() == 12);
    assert("go_home"@.len() == 7);
    assert("request_rehome"@.len() == 14);
    assert("firmware_version"@.len() == 16);
    assert("get_capabilities"@.len() == 16);
    assert("firmware_version"@[0] == 'f');
    assert("get_capabilities"@[0] == 'g');
}

/// The control slot is kept exactly for a command that the main loop took; where it did
/// not take it, the slot held for that very command is free again.
pub proof fn the_slot_is_kept_for_a_queued_command(
    before: CommandStateView,
    device_id: Seq<char>,
    request_id: Seq<char>,
    cmd: Seq<char>,
    outcome: QueueOutcome,
    after: CommandStateView,
    r: ReplyView,
)
    requires
        queue_leads(before, device_id, request_id, cmd, outcome, after, r),
        before.inflight is Some,
        before.inflight->0.request_id == request_id,
        before.inflight->0.cmd == cmd,
    ensures
        outcome == QueueOutcome::Queued ==> after == before && r.status == "queued"@,
        outcome == QueueOutcome::Full ==> after.inflight is None && r.status == "busy"@,
        outcome == QueueOutcome::Disconnected ==> after.inflight is None && r.status
            == "error"@,
        after.recent == before.recent,
        r.request_id == request_id && r.cmd == cmd,
{
}

/// A timeout is reported exactly where a control command waited thirty seconds, under that
/// command's own id and name.
pub proof fn a_timeout_is_reported_once_it_is_due(
    before: CommandStateView,
    now: u64,
    device_id: Seq<char>,
    r: Option<Reply>,
)
    requires
        timeout_leads(before, now, device_id, r),
    ensures
        r is Some <==> before.inflight is Some && now - before.inflight->0.queued_at
            >= 30_000_000_000,
        r matches Some(reply) ==> reply@.status == "timeout"@ && reply@.request_id
            == before.inflight->0.request_id && reply@.cmd == before.inflight->0.cmd,
{
}

/// Messages are served exactly while the connection stands and the subscription with it: a
/// lost connection takes the subscription along, and without one it is asked for.
pub proof fn a_listener_serves_while_subscribed(
    listener: DiagnosticsListener,
    connected: bool,
    after: DiagnosticsListener,
    r: ListenerStep,
    ok: bool,
    subscribed: DiagnosticsListener,
    next: ListenerStep,
)
    requires
        listener.begin_leads(connected, after, r),
        after.subscribe_leads(ok, subscribed, next),
    ensures
        r == ListenerStep::Serve <==> connected && listener.subscribed,
        r == ListenerStep::Subscribe <==> connected && !listener.subscribed,
        !connected ==> r == ListenerStep::SleepMs(250),
        after.subscribed <==> connected && listener.subscribed,
        next == ListenerStep::Serve <==> ok,
        !ok ==> next == ListenerStep::SleepMs(1000),
        ok ==> subscribed.subscribed,
        !ok ==> subscribed == after,
{
}

/// A round serves on exactly after a message that it handled, up to eight; only a round
/// that handled none sleeps.
pub proof fn a_round_serves_up_to_eight(
    batch: Batch,
    outcome: ServeOutcome,
    after: Batch,
    another: bool,
)
    requires
        batch.processed < 8,
        batch.note_leads(outcome, after, another),
    ensures
        another <==> outcome == ServeOutcome::Handled && batch.processed < 7,
        outcome == ServeOutcome::Handled ==> after.processed == batch.processed + 1,
        outcome != ServeOutcome::Handled ==> after == batch,
        after.sleep() is Some <==> after.processed == 0,
        after.sleep() is Some ==> after.sleep() == Some(100u64),
{
}

/// What a line on the serial console may ask for.
pub open spec fn supported(command: CommandView) -> bool {
    !(command is MotorMove) && !(command is RelayMotor) && !(command is RelayHotspot) && !(
    command is Other)
}

/// What a line on the serial console may ask for only while nothing else runs.
pub open spec fn exclusive(command: CommandView) -> bool {
    command is RtcCheck || command is Hdc1080Read || command is I2cScan || command is LedTest
        || command is OledTest || command is GoHome || command is Reboot || command is SaveConfig
}

/// A command on the serial console is executed exactly where it is supported and, if it
/// takes the control slot, the slot is free; the slot is then its own until it is done.
pub proof fn a_serial_command_runs_where_it_can(
    parsed: ParsedCommand,
    state: CommandStateView,
    now: u64,
)
    ensures
        ({
            let busy = state.inflight is Some;
            let r = serial_step(parsed, busy);
            let control = exclusive(parsed.command@);
            &&& r is Execute <==> supported(parsed.command@) && !(control && busy)
            &&& r matches SerialStep::Execute { control: c } ==> c == control
            &&& r is Refused ==> reserved(state, parsed, now) == state
            &&& r is Execute && control ==> {
                &&& reserved(state, parsed, now).inflight is Some
                &&& reserved(state, parsed, now).inflight->0.cmd == parsed.name@
                &&& reserved(state, parsed, now).inflight->0.queued_at == now
            }
            &&& r is Execute && !control ==> reserved(state, parsed, now) == state
            &&& begin_out(parsed, busy)[0] == OutView::Line("CMD_RECEIVED"@)
            &&& r is Execute ==> begin_out(parsed, busy).len() == 1
            &&& r is Refused ==> (begin_out(parsed, busy).last() matches OutView::Result {
                command,
                passed,
                ..
            } && command == parsed.name@ && !passed)
        }),
{
}

/// An executed command passes exactly where its transcript completed, and says something
/// on the wire either way; it asks for a restart exactly where the transcript does; and it
/// leaves the slot alone exactly where it did not hold it.
pub proof fn an_executed_command_is_reported(
    parsed: ParsedCommand,
    transcript: TranscriptView,
    wrote_any: bool,
    state: CommandStateView,
)
    ensures
        end_out(parsed, transcript, wrote_any).last() == (OutView::Result {
            command: parsed.name@,
            passed: transcript.status == "completed"@,
            details: transcript.details,
            message: transcript.message,
        }),
        end_out(parsed, transcript, wrote_any).len() == (if wrote_any {
            1int
        } else {
            2int
        }),
        !wrote_any ==> end_out(parsed, transcript, wrote_any)[0] == OutView::Line(
            transcript.message,
        ),
        executed_poll(transcript) == SerialDiagnosticsPoll::RebootRequested
            <==> transcript.reboot_requested,
        given_back(state, false) == state,
{
}

/// A phase is announced exactly where it was not the last one announced.
pub proof fn a_phase_is_announced_once(
    last: Option<Seq<char>>,
    phase: Seq<char>,
    line: Seq<char>,
    out: Seq<OutView>,
)
    ensures
        last == Some(phase) ==> announced(last, phase, line, out) == out,
        last != Some(phase) ==> announced(last, phase, line, out) == out.push(
            OutView::Line(line),
        ),
{
}

/// While a move is in progress the LED is driven exactly for an `LED_TEST` and only where
/// the LED is lent; every other command is answered with what the protocol layer says.
pub proof fn only_the_led_is_driven_during_a_move(
    command: CommandView,
    led_lent: bool,
    responses: Seq<Seq<char>>,
    before: Seq<OutView>,
    after: Seq<OutView>,
    r: MinimalStep,
)
    requires
        minimal_leads(command, led_lent, responses, before, after, r),
    ensures
        r is DriveLed <==> command is LedTest && led_lent,
        r matches MinimalStep::DriveLed { color } ==> command == (CommandView::LedTest {
            color: color@,
        }),
        after[before.len() as int] == OutView::Line("CMD_RECEIVED"@),
        r is DriveLed ==> after.len() == before.len() + 1,
        r is Answered ==> after.len() == before.len() + 1 + responses.len(),
        r is Answered ==> forall|i: int|
            0 <= i < responses.len() ==> after[before.len() + 1 + i] == OutView::Line(
                #[trigger] responses[i],
            ),
{
}

/// A LED test during a move ends with its verdict, and says something either way.
pub proof fn a_led_test_ends_with_its_verdict(answer: AnswerView, wrote_any: bool)
    ensures
        led_out(answer, wrote_any).last() matches OutView::Result { command, passed, .. }
            && command == "LED_TEST"@ && passed == answer.passed,
        led_out(answer, wrote_any).len() == (if wrote_any {
            1int
        } else {
            2int
        }),
{
}

} // verus!
