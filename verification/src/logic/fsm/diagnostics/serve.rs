//! Answering the console's command lines.

use vstd::prelude::*;

use crate::diagnostics::answer::{Answer, AnswerView};
use crate::diagnostics::command::{CommandNeeds, ParsedCommand};
use crate::logic::fsm::diagnostics::console::{
    console_view, finish, refusal_out, refuse, write_line, ConsoleOut, OutView,
};
use crate::logic::fsm::diagnostics::delegate::{
    budget_of, name_of, owner, owner_name, owner_of, reply_budget, MOTOR_BUDGET,
};
use crate::logic::fsm::diagnostics::local::{answers_locally, is_local};
use crate::logic::fsm::mail::{DiagRequest, FSMAddress};
use crate::text::{concat2, concat3, opt_text};

verus! {

/// What answering a batch of console input asks the machine to do next.
#[derive(Debug)]
pub enum Served {
    /// Everything was answered here and now.
    Nothing,
    /// `REBOOT` was accepted. The caller resets once the reply has cleared.
    Reboot,
    /// A command went to another machine, and its answer is outstanding.
    Delegated { ticket: u32, name: String, owner: FSMAddress, deadline: u64 },
}

#[verifier::ext_equal]
pub enum ServedView {
    Nothing,
    Reboot,
    Delegated { ticket: u32, name: Seq<char>, owner: FSMAddress, deadline: u64 },
}

impl View for Served {
    type V = ServedView;

    open spec fn view(&self) -> ServedView {
        match self {
            Served::Nothing => ServedView::Nothing,
            Served::Reboot => ServedView::Reboot,
            Served::Delegated { ticket, name, owner, deadline } => ServedView::Delegated {
                ticket: *ticket,
                name: name@,
                owner: *owner,
                deadline: *deadline,
            },
        }
    }
}

/// What a command line leads to.
#[derive(Debug)]
pub enum ServeStep {
    /// Answer it here, then report with [`serve_answered`].
    AnswerHere,
    /// It was refused; nothing is left to do.
    Refused,
    /// Send the request to its owner, then report with [`serve_sent`].
    Send { owner: FSMAddress, request: DiagRequest },
}

/// Why a command that is not answered here is refused before it is sent.
pub open spec fn serve_refusal(parsed: ParsedCommand, pending: Option<&str>) -> Option<Seq<char>> {
    if owner_of(parsed.needs) is None {
        if parsed.needs == CommandNeeds::Unsupported {
            Some(parsed.name@ + " is not enabled in this firmware"@)
        } else {
            Some(parsed.name@ + " is not answerable by this firmware yet"@)
        }
    } else {
        match pending {
            Some(busy_with) => Some(
                parsed.name@ + " refused: "@ + busy_with@
                    + " is still running, and one hardware command at a time is the rule"@,
            ),
            None => None,
        }
    }
}

/// The ticket after `ticket`.
pub open spec fn ticket_after(ticket: u32) -> u32 {
    if ticket == u32::MAX {
        0
    } else {
        (ticket + 1) as u32
    }
}

/// What taking one command line leads to.
pub open spec fn serve_leads(
    parsed: ParsedCommand,
    pending: Option<&str>,
    ticket: u32,
    before: Seq<OutView>,
    next: u32,
    after: Seq<OutView>,
    r: ServeStep,
) -> bool {
    let received = before.push(OutView::Line("CMD_RECEIVED"@));
    match r {
        ServeStep::AnswerHere => {
            &&& answers_locally(parsed.needs)
            &&& after == received
            &&& next == ticket
        },
        ServeStep::Refused => {
            &&& !answers_locally(parsed.needs)
            &&& serve_refusal(parsed, pending) is Some
            &&& after == received + refusal_out(
                parsed.name@,
                serve_refusal(parsed, pending)->0,
            )
            &&& next == ticket
        },
        ServeStep::Send { owner, request } => {
            &&& !answers_locally(parsed.needs)
            &&& serve_refusal(parsed, pending) is None
            &&& owner_of(parsed.needs) == Some(owner)
            &&& request.ticket == ticket
            &&& request.command@ == parsed.command@
            &&& after == received
            &&& next == ticket_after(ticket)
        },
    }
}

/// Take one command line. `pending` names the delegated command in flight, if there
/// is one: a second is refused, since its hardware exists once.
pub fn serve(
    parsed: &ParsedCommand,
    pending: Option<&str>,
    next_ticket: &mut u32,
    console: &mut Vec<ConsoleOut>,
) -> (r: ServeStep)
    ensures
        serve_leads(
            *parsed,
            pending,
            *old(next_ticket),
            console_view(old(console)@),
            *final(next_ticket),
            console_view(final(console)@),
            r,
        ),
{
    write_line(console, "CMD_RECEIVED");
    if is_local(parsed.needs) {
        return ServeStep::AnswerHere;
    }
    let machine = match owner(parsed.needs) {
        Some(machine) => machine,
        None => {
            let message = if parsed.needs == CommandNeeds::Unsupported {
                concat2(parsed.name.as_str(), " is not enabled in this firmware")
            } else {
                concat2(parsed.name.as_str(), " is not answerable by this firmware yet")
            };
            refuse(console, parsed.name.as_str(), message.as_str());
            return ServeStep::Refused;
        },
    };
    match pending {
        Some(busy_with) => {
            let head = concat3(parsed.name.as_str(), " refused: ", busy_with);
            let message = concat2(
                head.as_str(),
                " is still running, and one hardware command at a time is the rule",
            );
            refuse(console, parsed.name.as_str(), message.as_str());
            return ServeStep::Refused;
        },
        None => {},
    }
    let ticket: u32 = *next_ticket;
    *next_ticket = if ticket == u32::MAX {
        0
    } else {
        ticket + 1
    };
    ServeStep::Send {
        owner: machine,
        request: DiagRequest { ticket, command: parsed.command.clone() },
    }
}

/// The outputs that report an answer given here.
pub open spec fn answered_out(name: Seq<char>, answer: AnswerView, wrote_any: bool) -> Seq<
    OutView,
> {
    let result = OutView::Result {
        command: name,
        passed: answer.passed,
        details: answer.details,
        message: answer.message,
    };
    if wrote_any {
        seq![result]
    } else {
        seq![OutView::Line(answer.message), result]
    }
}

/// Report a command that was answered here. An answer that wrote nothing puts its
/// message on the wire, since silence reads like a board that has hung.
pub fn serve_answered(
    name: &str,
    answer: Answer,
    wrote_any: bool,
    console: &mut Vec<ConsoleOut>,
) -> (r: Served)
    ensures
        console_view(final(console)@) == console_view(old(console)@) + answered_out(
            name@,
            answer@,
            wrote_any,
        ),
        r == (if answer.reboot_requested {
            Served::Reboot
        } else {
            Served::Nothing
        }),
{
    let ghost before = console_view(console@);
    let reboot = answer.reboot_requested;
    if !wrote_any {
        write_line(console, answer.message.as_str());
    }
    finish(console, name, answer.passed, answer.details, answer.message.as_str());
    assert(console_view(console@) =~= before + answered_out(name@, answer@, wrote_any));
    if reboot {
        Served::Reboot
    } else {
        Served::Nothing
    }
}

pub open spec fn undelivered(name: Seq<char>, owner: FSMAddress) -> Seq<char> {
    name + " could not be delivered: the "@ + name_of(owner) + " machine is not running"@
}

/// What reporting a request that was sent, or could not be, leads to.
pub open spec fn sent_leads(
    parsed: ParsedCommand,
    owner: FSMAddress,
    ticket: u32,
    delivered: bool,
    now: u64,
    before: Seq<OutView>,
    after: Seq<OutView>,
    r: Served,
) -> bool {
    if delivered {
        &&& after == before
        &&& r@ == (ServedView::Delegated {
            ticket,
            name: parsed.name@,
            owner,
            deadline: (now + budget_of(parsed.needs)) as u64,
        })
    } else {
        &&& after == before + refusal_out(
            parsed.name@,
            undelivered(parsed.name@, owner),
        )
        &&& r is Nothing
    }
}

/// Report a request that was sent at `now`, or could not be.
pub fn serve_sent(
    parsed: &ParsedCommand,
    owner: FSMAddress,
    ticket: u32,
    delivered: bool,
    now: u64,
    console: &mut Vec<ConsoleOut>,
) -> (r: Served)
    requires
        now + MOTOR_BUDGET <= u64::MAX,
    ensures
        sent_leads(
            *parsed,
            owner,
            ticket,
            delivered,
            now,
            console_view(old(console)@),
            console_view(final(console)@),
            r,
        ),
{
    if !delivered {
        let head = concat3(
            parsed.name.as_str(),
            " could not be delivered: the ",
            owner_name(owner),
        );
        let message = concat2(head.as_str(), " machine is not running");
        refuse(console, parsed.name.as_str(), message.as_str());
        return Served::Nothing;
    }
    Served::Delegated {
        ticket,
        name: parsed.name.as_str().to_owned(),
        owner,
        deadline: now + reply_budget(parsed.needs),
    }
}

/// What a poll leads to once a line that led to `served` follows one that led to
/// `before`. A restart that was accepted is never discarded; otherwise the first
/// outcome that is not trivial stays.
pub open spec fn noted(before: Served, served: Served) -> Served {
    if served is Reboot || before is Nothing {
        served
    } else {
        before
    }
}

/// What a poll leads to whose lines led to these outcomes.
pub open spec fn poll_outcome(served: Seq<Served>) -> Served
    decreases served.len(),
{
    if served.len() == 0 {
        Served::Nothing
    } else {
        noted(poll_outcome(served.drop_last()), served.last())
    }
}

/// The delegated command that an outcome leaves outstanding.
pub open spec fn outstanding(served: Served) -> Option<Seq<char>> {
    match served@ {
        ServedView::Delegated { name, .. } => Some(name),
        _ => None,
    }
}

/// The first command that a poll delegated, once a line has led to `served`.
pub open spec fn first_delegated(before: Option<Seq<char>>, served: Served) -> Option<Seq<char>> {
    match before {
        Some(name) => Some(name),
        None => outstanding(served),
    }
}

/// Which delegated command the next line of a poll has to see.
pub open spec fn pending_leads(
    delegated: Option<String>,
    before: Option<&str>,
    r: Option<&str>,
) -> bool {
    match delegated {
        Some(name) => r is Some && r->0@ == name@,
        None => r == before,
    }
}

/// The outcome of the lines that one poll of the console brought, and the first
/// command that they delegated.
#[derive(Debug)]
pub struct Poll {
    pub outcome: Served,
    pub delegated: Option<String>,
}

impl Poll {
    pub fn new() -> (r: Self)
        ensures
            r.outcome is Nothing,
            r.delegated is None,
    {
        Poll { outcome: Served::Nothing, delegated: None }
    }

    /// The delegated command that the next line has to see: one that was started
    /// earlier in this same poll counts.
    pub fn pending<'a>(&'a self, before: Option<&'a str>) -> (r: Option<&'a str>)
        ensures
            pending_leads(self.delegated, before, r),
    {
        match &self.delegated {
            Some(name) => Some(name.as_str()),
            None => before,
        }
    }

    /// Take note of what a line led to.
    pub fn note(&mut self, served: Served)
        ensures
            final(self).outcome == noted(old(self).outcome, served),
            opt_text(final(self).delegated) == first_delegated(
                opt_text(old(self).delegated),
                served,
            ),
    {
        if self.delegated.is_none() {
            match &served {
                Served::Delegated { name, .. } => {
                    self.delegated = Some(name.as_str().to_owned());
                },
                _ => {},
            }
        }
        if matches!(served, Served::Reboot) || matches!(self.outcome, Served::Nothing) {
            self.outcome = served;
        }
    }
}

} // verus!
