//! Addresses, messages and the shared state of the machines.

use std::collections::VecDeque;

use vstd::prelude::*;

use crate::diagnostics::command::{CommandView, DiagnosticCommand};
use crate::ieee::Single;
use crate::logic::types::MotionMode;
use crate::text::text_pairs;

verus! {

/// The machines.
#[derive(Debug, Clone, Copy, PartialEq, Eq, Structural)]
pub enum FSMAddress {
    Motion,
    Network,
    Buttons,
    Led,
    Diagnostics,
}

impl FSMAddress {
    pub open spec fn spec_index(self) -> nat {
        match self {
            FSMAddress::Motion => 0,
            FSMAddress::Network => 1,
            FSMAddress::Buttons => 2,
            FSMAddress::Led => 3,
            FSMAddress::Diagnostics => 4,
        }
    }

    /// The machine's place in a table of machines.
    pub fn index(self) -> (r: usize)
        ensures
            r == self.spec_index(),
            r < 5,
    {
        match self {
            FSMAddress::Motion => 0,
            FSMAddress::Network => 1,
            FSMAddress::Buttons => 2,
            FSMAddress::Led => 3,
            FSMAddress::Diagnostics => 4,
        }
    }

    /// How many machines there are.
    pub fn count() -> (r: usize)
        ensures
            r == 5,
    {
        5
    }
}

/// No two machines share a place, and every place below the count is taken.
pub proof fn addresses_fill_the_table(a: FSMAddress, b: FSMAddress, place: nat)
    ensures
        a.spec_index() == b.spec_index() <==> a == b,
        a.spec_index() < 5,
        place < 5 ==> exists|c: FSMAddress| #[trigger] c.spec_index() == place,
{
    if place == 0 {
        assert(FSMAddress::Motion.spec_index() == place);
    } else if place == 1 {
        assert(FSMAddress::Network.spec_index() == place);
    } else if place == 2 {
        assert(FSMAddress::Buttons.spec_index() == place);
    } else if place == 3 {
        assert(FSMAddress::Led.spec_index() == place);
    } else if place == 4 {
        assert(FSMAddress::Diagnostics.spec_index() == place);
    }
}

/// What every machine can see.
#[derive(Debug, Clone, Copy, PartialEq, Eq, Structural)]
pub struct FSMState {
    pub maintenance_mode: bool,
}

impl Default for FSMState {
    fn default() -> (r: Self)
        ensures
            !r.maintenance_mode,
    {
        FSMState { maintenance_mode: false }
    }
}

/// A diagnostics command for the machine that owns the hardware.
#[derive(Debug)]
pub struct DiagRequest {
    /// Correlates the reply with the request.
    pub ticket: u32,
    pub command: DiagnosticCommand,
}

/// An answer on its way back to the diagnostics machine.
#[derive(Debug)]
pub struct DiagReply {
    pub ticket: u32,
    pub outcome: DiagOutcome,
}

#[derive(Debug)]
pub enum DiagOutcome {
    /// A line to put on the wire while the command is still running.
    Progress(String),
    /// The command finished. Renders as the terminal `RESULT` line.
    Done { passed: bool, details: Vec<(String, String)>, message: String },
}

#[verifier::ext_equal]
pub enum OutcomeText {
    Progress(Seq<char>),
    Done { passed: bool, details: Seq<(Seq<char>, Seq<char>)>, message: Seq<char> },
}

impl View for DiagOutcome {
    type V = OutcomeText;

    open spec fn view(&self) -> OutcomeText {
        match self {
            DiagOutcome::Progress(line) => OutcomeText::Progress(line@),
            DiagOutcome::Done { passed, details, message } => OutcomeText::Done {
                passed: *passed,
                details: text_pairs(details@),
                message: message@,
            },
        }
    }
}

/// A message between machines.
#[derive(Debug)]
pub enum FSMCommand {
    /// A payload and the topic to publish it on.
    MqttPublishJson(String, String),
    UpdateNetworkMotionContext(MotionMode, Single),
    PerformOTA,
    MaintenancePressed,
    CCWPressed,
    CWPressed,
    DiagnosticRequest(DiagRequest),
    DiagnosticReply(DiagReply),
    LEDOff,
    LEDMaintenance,
    LEDMaintenanceMovingCCW,
    LEDMaintenanceMovingCW,
    MotionMoveBy(i64),
}

#[verifier::ext_equal]
pub enum Message {
    MqttPublishJson(Seq<char>, Seq<char>),
    UpdateNetworkMotionContext(MotionMode, Single),
    PerformOTA,
    MaintenancePressed,
    CCWPressed,
    CWPressed,
    DiagnosticRequest { ticket: u32, command: CommandView },
    DiagnosticReply { ticket: u32, outcome: OutcomeText },
    LEDOff,
    LEDMaintenance,
    LEDMaintenanceMovingCCW,
    LEDMaintenanceMovingCW,
    MotionMoveBy(i64),
}

impl View for FSMCommand {
    type V = Message;

    open spec fn view(&self) -> Message {
        match self {
            FSMCommand::MqttPublishJson(payload, topic) => Message::MqttPublishJson(
                payload@,
                topic@,
            ),
            FSMCommand::UpdateNetworkMotionContext(mode, heading) =>
                Message::UpdateNetworkMotionContext(*mode, *heading),
            FSMCommand::PerformOTA => Message::PerformOTA,
            FSMCommand::MaintenancePressed => Message::MaintenancePressed,
            FSMCommand::CCWPressed => Message::CCWPressed,
            FSMCommand::CWPressed => Message::CWPressed,
            FSMCommand::DiagnosticRequest(request) => Message::DiagnosticRequest {
                ticket: request.ticket,
                command: request.command@,
            },
            FSMCommand::DiagnosticReply(reply) => Message::DiagnosticReply {
                ticket: reply.ticket,
                outcome: reply.outcome@,
            },
            FSMCommand::LEDOff => Message::LEDOff,
            FSMCommand::LEDMaintenance => Message::LEDMaintenance,
            FSMCommand::LEDMaintenanceMovingCCW => Message::LEDMaintenanceMovingCCW,
            FSMCommand::LEDMaintenanceMovingCW => Message::LEDMaintenanceMovingCW,
            FSMCommand::MotionMoveBy(steps) => Message::MotionMoveBy(*steps),
        }
    }
}

/// A message and the machine it goes to.
#[derive(Debug)]
pub struct Mail {
    pub to: FSMAddress,
    pub message: FSMCommand,
}

#[verifier::ext_equal]
pub struct MailView {
    pub to: FSMAddress,
    pub message: Message,
}

impl View for Mail {
    type V = MailView;

    open spec fn view(&self) -> MailView {
        MailView { to: self.to, message: self.message@ }
    }
}

/// The mail that an outbox holds, in the order in which it is sent.
pub open spec fn outbox_view(outbox: Seq<Mail>) -> Seq<MailView> {
    outbox.map_values(|m: Mail| m@)
}

/// The messages that an inbox holds, oldest first.
pub open spec fn inbox_view(inbox: Seq<FSMCommand>) -> Seq<Message> {
    inbox.map_values(|m: FSMCommand| m@)
}

/// Send one message.
pub fn send(outbox: &mut Vec<Mail>, to: FSMAddress, message: FSMCommand)
    ensures
        outbox_view(final(outbox)@) == outbox_view(old(outbox)@).push(
            MailView { to, message: message@ },
        ),
{
    outbox.push(Mail { to, message });
    assert(outbox_view(outbox@) =~= outbox_view(old(outbox)@).push(
        MailView { to, message: message@ },
    ));
}

/// Take the oldest message.
pub fn receive(inbox: &mut VecDeque<FSMCommand>) -> (r: Option<FSMCommand>)
    ensures
        match r {
            Some(message) => {
                &&& inbox_view(old(inbox)@).len() > 0
                &&& message@ == inbox_view(old(inbox)@).first()
                &&& inbox_view(final(inbox)@) == inbox_view(old(inbox)@).drop_first()
            },
            None => inbox_view(old(inbox)@).len() == 0 && final(inbox)@ == old(inbox)@,
        },
{
    let r = inbox.pop_front();
    proof {
        if r is Some {
            assert(inbox_view(inbox@) =~= inbox_view(old(inbox)@).drop_first());
        }
    }
    r
}

/// Take every message and keep the newest.
pub fn receive_latest(inbox: &mut VecDeque<FSMCommand>) -> (r: Option<FSMCommand>)
    ensures
        final(inbox)@.len() == 0,
        match r {
            Some(message) => inbox_view(old(inbox)@).len() > 0 && message@ == inbox_view(
                old(inbox)@,
            ).last(),
            None => inbox_view(old(inbox)@).len() == 0,
        },
{
    let ghost before = inbox_view(inbox@);
    let mut latest: Option<FSMCommand> = None;
    while inbox.len() > 0
        invariant
            inbox@.len() <= before.len(),
            inbox@.len() > 0 ==> inbox_view(inbox@).last() == before.last(),
            inbox@.len() == 0 && before.len() > 0 ==> latest is Some && latest->0@
                == before.last(),
            before.len() == 0 ==> latest is None,
        decreases inbox@.len(),
    {
        let ghost now = inbox_view(inbox@);
        latest = receive(inbox);
        assert(now.len() == 1 ==> now.first() == now.last());
        assert(now.len() > 1 ==> now.drop_first().last() == now.last());
        assert(inbox_view(inbox@).len() == inbox@.len());
    }
    latest
}

pub open spec fn done_mail(
    ticket: u32,
    passed: bool,
    details: Seq<(Seq<char>, Seq<char>)>,
    message: Seq<char>,
) -> MailView {
    MailView {
        to: FSMAddress::Diagnostics,
        message: Message::DiagnosticReply {
            ticket,
            outcome: OutcomeText::Done { passed, details, message },
        },
    }
}

pub open spec fn progress_mail(ticket: u32, line: Seq<char>) -> MailView {
    MailView {
        to: FSMAddress::Diagnostics,
        message: Message::DiagnosticReply { ticket, outcome: OutcomeText::Progress(line) },
    }
}

/// Report progress on a diagnostics request.
pub fn reply_progress(outbox: &mut Vec<Mail>, ticket: u32, line: String)
    ensures
        outbox_view(final(outbox)@) == outbox_view(old(outbox)@).push(
            progress_mail(ticket, line@),
        ),
{
    send(
        outbox,
        FSMAddress::Diagnostics,
        FSMCommand::DiagnosticReply(DiagReply { ticket, outcome: DiagOutcome::Progress(line) }),
    );
}

/// Answer a diagnostics request.
pub fn reply_done(
    outbox: &mut Vec<Mail>,
    ticket: u32,
    passed: bool,
    details: Vec<(String, String)>,
    message: String,
)
    ensures
        outbox_view(final(outbox)@) == outbox_view(old(outbox)@).push(
            done_mail(ticket, passed, text_pairs(details@), message@),
        ),
{
    send(
        outbox,
        FSMAddress::Diagnostics,
        FSMCommand::DiagnosticReply(
            DiagReply { ticket, outcome: DiagOutcome::Done { passed, details, message } },
        ),
    );
}

} // verus!
