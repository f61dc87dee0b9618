//! Who answers a command on the console, and how long the console waits.

use vstd::prelude::*;

use crate::diagnostics::command::{CommandNeeds, CommandView, ParsedCommand};
use crate::logic::fsm::diagnostics::awaiting::{
    before_final, is_final, progress_out, AwaitStep, DiagAwaitOwner,
};
use crate::logic::fsm::diagnostics::console::OutView;
use crate::logic::fsm::diagnostics::delegate::name_of;
use crate::logic::fsm::diagnostics::idle::{idle_leads, IdleStep};
use crate::logic::fsm::diagnostics::local::{local_answer, local_lines, LocalView, VersionLines};
use crate::logic::fsm::diagnostics::serve::{
    first_delegated, pending_leads, sent_leads, serve_leads, ServeStep, Served, ServedView,
};
use crate::logic::fsm::mail::{FSMAddress, Message, OutcomeText};

verus! {

/// A command goes to whoever has what it needs: the status LED's to the LED machine, the
/// motor's to the motion machine, and what is not enabled to nobody; the rest is answered
/// here. While one command is with another machine, no second one goes out.
pub proof fn a_command_goes_to_whoever_has_what_it_needs(
    parsed: ParsedCommand,
    pending: Option<&str>,
    ticket: u32,
    before: Seq<OutView>,
    next: u32,
    after: Seq<OutView>,
    r: ServeStep,
)
    requires
        serve_leads(parsed, pending, ticket, before, next, after, r),
    ensures
        ({
            let led = parsed.needs == CommandNeeds::StatusLed;
            let motor = parsed.needs == CommandNeeds::Motor;
            let nobody = parsed.needs == CommandNeeds::Unsupported;
            &&& r is AnswerHere <==> !led && !motor && !nobody
            &&& r is Send <==> (led || motor) && pending is None
            &&& r is Refused <==> nobody || ((led || motor) && pending is Some)
            &&& r matches ServeStep::Send { owner, request } ==> {
                &&& owner == FSMAddress::Led <==> led
                &&& owner == FSMAddress::Motion <==> motor
                &&& request.ticket == ticket
                &&& request.command@ == parsed.command@
            }
        }),
{
}

/// Every line is acknowledged before anything else is said of it. A refused one ends with
/// a failed `RESULT` under its own name; of the others nothing more is said yet.
pub proof fn a_command_is_acknowledged_first(
    parsed: ParsedCommand,
    pending: Option<&str>,
    ticket: u32,
    before: Seq<OutView>,
    next: u32,
    after: Seq<OutView>,
    r: ServeStep,
)
    requires
        serve_leads(parsed, pending, ticket, before, next, after, r),
    ensures
        after.len() == before.len() + (if r is Refused {
            3int
        } else {
            1int
        }),
        forall|i: int| 0 <= i < before.len() ==> #[trigger] after[i] == before[i],
        after[before.len() as int] == OutView::Line("CMD_RECEIVED"@),
        r is Refused ==> {
            &&& after[before.len() as int + 1] is Line
            &&& after.last() matches OutView::Result { command, passed, details, message }
            &&& command == parsed.name@
            &&& !passed
            &&& details.len() == 0
            &&& after[before.len() as int + 1] == OutView::Line("ERROR "@ + message)
            &&& parsed.needs == CommandNeeds::Unsupported ==> message == parsed.name@
                + " is not enabled in this firmware"@
            &&& parsed.needs != CommandNeeds::Unsupported ==> message == parsed.name@
                + " refused: "@ + pending->0@
                + " is still running, and one hardware command at a time is the rule"@
        },
{
}

/// A ticket is used up exactly by a request that is sent; tickets are counted up and
/// begin anew after the last.
pub proof fn a_sent_request_uses_a_ticket_up(
    parsed: ParsedCommand,
    pending: Option<&str>,
    ticket: u32,
    before: Seq<OutView>,
    next: u32,
    after: Seq<OutView>,
    r: ServeStep,
)
    requires
        serve_leads(parsed, pending, ticket, before, next, after, r),
    ensures
        next == ticket <==> !(r is Send),
        r is Send ==> next as int == (ticket + 1) % 0x1_0000_0000,
{
}

/// A delivered request is waited for, three seconds where it needs the status LED, sixty-five
/// minutes where it needs the motor, and five seconds else; one that could not be delivered is
/// refused at once and not waited for.
pub proof fn a_delivered_request_is_waited_for(
    parsed: ParsedCommand,
    owner: FSMAddress,
    ticket: u32,
    delivered: bool,
    now: u64,
    before: Seq<OutView>,
    after: Seq<OutView>,
    r: Served,
)
    requires
        now + 3_900_000_000_000 <= u64::MAX,
        sent_leads(parsed, owner, ticket, delivered, now, before, after, r),
    ensures
        r is Delegated <==> delivered,
        r is Nothing <==> !delivered,
        delivered ==> after == before,
        delivered ==> {
            &&& r@ matches ServedView::Delegated { ticket: t, name, owner: o, deadline }
            &&& t == ticket
            &&& name == parsed.name@
            &&& o == owner
            &&& parsed.needs == CommandNeeds::StatusLed ==> deadline == now + 3_000_000_000
            &&& parsed.needs == CommandNeeds::Motor ==> deadline == now + 3_900_000_000_000
            &&& parsed.needs != CommandNeeds::StatusLed && parsed.needs != CommandNeeds::Motor
                ==> deadline == now + 5_000_000_000
        },
        !delivered ==> {
            &&& after.len() == before.len() + 2
            &&& after.last() matches OutView::Result { command, passed, .. }
            &&& command == parsed.name@
            &&& !passed
        },
{
}

/// The machine rests unless a poll asks for more: it restarts exactly where a restart was
/// granted, and waits exactly for a command that was delegated.
pub proof fn a_poll_is_followed(served: Served, r: IdleStep)
    requires
        idle_leads(served, r),
    ensures
        r is Hold <==> served is Nothing,
        r is Restart <==> served is Reboot,
        r is Await <==> served is Delegated,
        r matches IdleStep::Await(waiting) ==> served matches Served::Delegated {
            ticket,
            name,
            owner,
            deadline,
        } && waiting.ticket == ticket && waiting.name@ == name@ && waiting.owner == owner
            && waiting.deadline == deadline,
{
}

/// A command that an earlier line of the same poll delegated is in flight for the later
/// lines; without one, what was in flight before still is.
pub proof fn a_poll_sees_what_it_delegated(
    delegated: Option<String>,
    before: Option<&str>,
    r: Option<&str>,
    served: Served,
)
    requires
        pending_leads(delegated, before, r),
    ensures
        r is None <==> delegated is None && before is None,
        delegated matches Some(name) ==> r->0@ == name@,
        delegated is None ==> r == before,
        first_delegated(None, served) is Some <==> served is Delegated,
        served matches Served::Delegated { name, .. } ==> first_delegated(None, served) == Some(
            name@,
        ),
        forall|name: Seq<char>| #[trigger] first_delegated(Some(name), served) == Some(name),
{
}

spec fn is_done(message: Message, ticket: u32) -> bool {
    message matches Message::DiagnosticReply { ticket: t, outcome } && t == ticket
        && outcome is Done
}

proof fn before_final_is(messages: Seq<Message>, ticket: u32)
    ensures
        before_final(messages, ticket) <= messages.len(),
        before_final(messages, ticket) < messages.len() ==> is_final(
            messages[before_final(messages, ticket) as int],
            ticket,
        ),
        forall|i: int|
            0 <= i < before_final(messages, ticket) ==> !is_final(#[trigger] messages[i], ticket),
    decreases messages.len(),
{
    if messages.len() > 0 && !is_final(messages.first(), ticket) {
        let rest = messages.drop_first();
        before_final_is(rest, ticket);
        assert forall|i: int| 0 <= i < before_final(messages, ticket) implies !is_final(
            #[trigger] messages[i],
            ticket,
        ) by {
            if i > 0 {
                assert(messages[i] == rest[i - 1]);
            }
        }
    }
}

/// A wait ends exactly with a final answer to its own ticket or with the owner's time;
/// until then it goes on.
pub proof fn a_wait_ends_with_its_answer_or_its_time(
    waiting: DiagAwaitOwner,
    messages: Seq<Message>,
    now: u64,
    before: Seq<OutView>,
    left: Seq<Message>,
    after: Seq<OutView>,
    r: AwaitStep,
)
    requires
        waiting.await_leads(messages, now, before, left, after, r),
    ensures
        r == AwaitStep::ToIdle <==> now >= waiting.deadline || exists|i: int|
            0 <= i < messages.len() && (#[trigger] messages[i] matches Message::DiagnosticReply {
                ticket,
                outcome,
            } && ticket == waiting.ticket && outcome is Done),
{
    before_final_is(messages, waiting.ticket);
    assert forall|i: int| 0 <= i < messages.len() implies is_final(
        #[trigger] messages[i],
        waiting.ticket,
    ) == is_done(messages[i], waiting.ticket) by {}
}

/// The first final answer to the ticket is reported word for word under the command's
/// name, as the last thing put out; what came after it stays in the inbox.
pub proof fn a_final_answer_is_reported(
    waiting: DiagAwaitOwner,
    messages: Seq<Message>,
    i: int,
    passed: bool,
    details: Seq<(Seq<char>, Seq<char>)>,
    text: Seq<char>,
    now: u64,
    before: Seq<OutView>,
    left: Seq<Message>,
    after: Seq<OutView>,
    r: AwaitStep,
)
    requires
        waiting.await_leads(messages, now, before, left, after, r),
        0 <= i < messages.len(),
        messages[i] == (Message::DiagnosticReply {
            ticket: waiting.ticket,
            outcome: OutcomeText::Done { passed, details, message: text },
        }),
        forall|j: int|
            0 <= j < i ==> !(#[trigger] messages[j] matches Message::DiagnosticReply {
                ticket,
                outcome,
            } && ticket == waiting.ticket && outcome is Done),
    ensures
        after.last() == (OutView::Result {
            command: waiting.name@,
            passed,
            details,
            message: text,
        }),
        left == messages.skip(i + 1),
{
    before_final_is(messages, waiting.ticket);
    let k = before_final(messages, waiting.ticket) as int;
    assert(is_final(messages[i], waiting.ticket));
    assert(k <= i);
    if k < i {
        assert(is_final(messages[k], waiting.ticket));
    }
}

/// An owner whose time ran out without a final answer is reported as a failure of the
/// command that names the owner; nothing is left in the inbox.
pub proof fn a_silent_owner_is_reported(
    waiting: DiagAwaitOwner,
    messages: Seq<Message>,
    now: u64,
    before: Seq<OutView>,
    left: Seq<Message>,
    after: Seq<OutView>,
    r: AwaitStep,
)
    requires
        waiting.await_leads(messages, now, before, left, after, r),
        now >= waiting.deadline,
        forall|j: int|
            0 <= j < messages.len() ==> !(
            #[trigger] messages[j] matches Message::DiagnosticReply { ticket, outcome } && ticket
                == waiting.ticket && outcome is Done),
    ensures
        after.last() == (OutView::Result {
            command: waiting.name@,
            passed: false,
            details: Seq::empty(),
            message: "no reply from the "@ + name_of(waiting.owner)
                + " machine within its budget"@,
        }),
        left.len() == 0,
{
    before_final_is(messages, waiting.ticket);
    let k = before_final(messages, waiting.ticket) as int;
    if k < messages.len() {
        assert(is_final(messages[k], waiting.ticket));
    }
}

proof fn progress_begins(line: Seq<char>, messages: Seq<Message>, ticket: u32)
    ensures
        progress_out(
            seq![Message::DiagnosticReply { ticket, outcome: OutcomeText::Progress(line) }]
                + messages,
            ticket,
        ) == seq![OutView::Line(line)] + progress_out(messages, ticket),
    decreases messages.len(),
{
    let first = Message::DiagnosticReply { ticket, outcome: OutcomeText::Progress(line) };
    let all = seq![first] + messages;
    if messages.len() == 0 {
        assert(all.drop_last() =~= Seq::empty());
        assert(progress_out(all.drop_last(), ticket) =~= Seq::empty());
        assert(all.last() == first);
        assert(progress_out(all, ticket) =~= seq![OutView::Line(line)] + progress_out(
            messages,
            ticket,
        ));
    } else {
        assert(all.drop_last() =~= seq![first] + messages.drop_last());
        assert(all.last() == messages.last());
        progress_begins(line, messages.drop_last(), ticket);
        assert(progress_out(all, ticket) =~= seq![OutView::Line(line)] + progress_out(
            messages,
            ticket,
        ));
    }
}

/// Progress on the ticket goes out line by line, in the order in which it came, before
/// whatever else the wait puts out; it does not end the wait.
pub proof fn progress_goes_out_as_it_comes(
    waiting: DiagAwaitOwner,
    line: Seq<char>,
    later: Seq<Message>,
    now: u64,
)
    ensures
        ({
            let messages = seq![
                Message::DiagnosticReply {
                    ticket: waiting.ticket,
                    outcome: OutcomeText::Progress(line),
                },
            ] + later;
            &&& waiting.step_out(messages, now) == seq![OutView::Line(line)] + waiting.step_out(
                later,
                now,
            )
            &&& waiting.answered_by(messages) == waiting.answered_by(later)
        }),
{
    let first = Message::DiagnosticReply {
        ticket: waiting.ticket,
        outcome: OutcomeText::Progress(line),
    };
    let messages = seq![first] + later;
    let k = before_final(later, waiting.ticket);
    before_final_is(later, waiting.ticket);
    assert(messages.drop_first() =~= later);
    assert(before_final(messages, waiting.ticket) == k + 1);
    assert(messages.take((k + 1) as int) =~= seq![first] + later.take(k as int));
    progress_begins(line, later.take(k as int), waiting.ticket);
    if k < later.len() {
        assert(messages[(k + 1) as int] == later[k as int]);
    }
    assert(waiting.step_out(messages, now) =~= seq![OutView::Line(line)] + waiting.step_out(
        later,
        now,
    ));
}

/// Of the commands answered here only a restart restarts the board, and it passes.
pub proof fn only_a_restart_restarts(
    command: CommandView,
    name: Seq<char>,
    firmware_version: Seq<char>,
)
    ensures
        (local_answer(command, name, firmware_version) matches LocalView::Given(answer)
            && answer.reboot_requested) <==> command is Reboot,
        (local_answer(command, name, firmware_version) matches LocalView::Given(answer)
            && answer.passed) <==> command is Reboot || command is Ping
            || command is FirmwareVersion || command is GetCapabilities,
{
}

/// A command that takes a look at hardware or storage says which, with the arguments it
/// came with, and writes nothing before the look.
pub proof fn a_look_is_the_commands_own(
    command: CommandView,
    name: Seq<char>,
    firmware_version: Seq<char>,
    versions: VersionLines,
)
    ensures
        ({
            let r = local_answer(command, name, firmware_version);
            &&& r is ScanBus <==> command is I2cScan
            &&& r is DriveDisplay <==> command is OledTest
            &&& r is ReadSensor <==> command is Hdc1080Read
            &&& r is ReadClock <==> command is RtcCheck
            &&& r is SetEnv <==> command is SetEnv
            &&& r is GetEnv <==> command is GetEnv
            &&& r is SaveConfig <==> command is SaveConfig
            &&& r is GetConfig <==> command is GetConfig
            &&& r is ConfigMode <==> command is ConfigMode
            &&& command matches CommandView::OledTest { payload } ==> r
                == (LocalView::DriveDisplay { payload })
            &&& command matches CommandView::SetEnv { key, value } ==> r == (LocalView::SetEnv {
                key,
                value,
            })
            &&& command matches CommandView::GetEnv { key } ==> r == (LocalView::GetEnv { key })
            &&& local_lines(command, name, versions).len() == 0 <==> !(r is Given)
        }),
{
}

/// Who asks for the version is told the version, in the details and on the wire.
pub proof fn the_version_is_told(
    name: Seq<char>,
    firmware_version: Seq<char>,
    versions: VersionLines,
)
    ensures
        ({
            let r = local_answer(CommandView::FirmwareVersion, name, firmware_version);
            let lines = local_lines(CommandView::FirmwareVersion, name, versions);
            &&& r matches LocalView::Given(answer)
            &&& answer.details.len() == 1
            &&& answer.details[0] == ("version"@, firmware_version)
            &&& lines.len() == 2
            &&& lines[0] == versions.protocol@
            &&& lines[1] == versions.firmware@
        }),
{
}

} // verus!
