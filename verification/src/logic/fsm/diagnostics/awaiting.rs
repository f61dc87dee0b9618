//! Waiting for another machine to answer.

use std::collections::VecDeque;

use vstd::prelude::*;

use crate::logic::fsm::diagnostics::console::{
    console_view, finish, refusal_out, refuse, write_line, ConsoleOut, OutView,
};
use crate::logic::fsm::diagnostics::delegate::{name_of, owner_name};
use crate::logic::fsm::mail::{
    inbox_view, receive, DiagOutcome, FSMAddress, FSMCommand, Message, OutcomeText,
};
use crate::text::concat3;

verus! {

/// A delegated command whose answer is outstanding.
#[derive(Debug)]
pub struct DiagAwaitOwner {
    pub ticket: u32,
    /// The protocol name of the outstanding command.
    pub name: String,
    pub owner: FSMAddress,
    pub deadline: u64,
}

/// What waiting leads to.
#[derive(Debug, Clone, Copy, PartialEq, Eq, Structural)]
pub enum AwaitStep {
    Hold,
    ToIdle,
}

/// The outcome that a message brings for `ticket`.
pub open spec fn outcome_for(message: Message, ticket: u32) -> Option<OutcomeText> {
    match message {
        Message::DiagnosticReply { ticket: t, outcome } => if t == ticket {
            Some(outcome)
        } else {
            None
        },
        _ => None,
    }
}

pub open spec fn is_final(message: Message, ticket: u32) -> bool {
    outcome_for(message, ticket) matches Some(outcome) && outcome is Done
}

/// How many messages come before the final answer; all of them if there is none.
pub open spec fn before_final(inbox: Seq<Message>, ticket: u32) -> nat
    decreases inbox.len(),
{
    if inbox.len() == 0 || is_final(inbox.first(), ticket) {
        0
    } else {
        1 + before_final(inbox.drop_first(), ticket)
    }
}

/// The progress that a run of messages brings for `ticket`; anything else,
/// answers to other tickets included, is discarded.
pub open spec fn progress_out(messages: Seq<Message>, ticket: u32) -> Seq<OutView>
    decreases messages.len(),
{
    if messages.len() == 0 {
        Seq::empty()
    } else {
        progress_out(messages.drop_last(), ticket) + (match outcome_for(
            messages.last(),
            ticket,
        ) {
            Some(OutcomeText::Progress(line)) => seq![OutView::Line(line)],
            _ => Seq::empty(),
        })
    }
}

proof fn before_final_at(inbox: Seq<Message>, ticket: u32, k: int)
    requires
        0 <= k <= inbox.len(),
        k < inbox.len() ==> is_final(inbox[k], ticket),
        forall|i: int| 0 <= i < k ==> !is_final(#[trigger] inbox[i], ticket),
    ensures
        before_final(inbox, ticket) == k,
    decreases inbox.len(),
{
    if k > 0 {
        assert(!is_final(inbox[0], ticket));
        let rest = inbox.drop_first();
        assert forall|i: int| 0 <= i < k - 1 implies !is_final(#[trigger] rest[i], ticket) by {
            assert(rest[i] == inbox[i + 1]);
        }
        before_final_at(rest, ticket, k - 1);
    }
}

impl DiagAwaitOwner {
    pub open spec fn no_reply(self) -> Seq<char> {
        "no reply from the "@ + name_of(self.owner) + " machine within its budget"@
    }

    /// Whether a run of messages brings the final answer.
    pub open spec fn answered_by(self, messages: Seq<Message>) -> bool {
        before_final(messages, self.ticket) < messages.len()
    }

    /// The `RESULT` that reports the final answer among a run of messages.
    pub open spec fn result_of(self, messages: Seq<Message>) -> OutView {
        match outcome_for(
            messages[before_final(messages, self.ticket) as int],
            self.ticket,
        ) {
            Some(OutcomeText::Done { passed, details, message }) => OutView::Result {
                command: self.name@,
                passed,
                details,
                message,
            },
            _ => OutView::Line(Seq::empty()),
        }
    }

    /// What a step puts out.
    pub open spec fn step_out(self, messages: Seq<Message>, now: u64) -> Seq<OutView> {
        let progress = progress_out(
            messages.take(before_final(messages, self.ticket) as int),
            self.ticket,
        );
        if self.answered_by(messages) {
            progress.push(self.result_of(messages))
        } else if now >= self.deadline {
            progress + refusal_out(self.name@, self.no_reply())
        } else {
            progress
        }
    }

    /// What reading the inbox at `now` leads to.
    pub open spec fn await_leads(
        self,
        messages: Seq<Message>,
        now: u64,
        before: Seq<OutView>,
        left: Seq<Message>,
        after: Seq<OutView>,
        r: AwaitStep,
    ) -> bool {
        let k = before_final(messages, self.ticket);
        &&& after == before
            + self.step_out(messages, now)
        &&& r == (if self.answered_by(messages) || now >= self.deadline {
            AwaitStep::ToIdle
        } else {
            AwaitStep::Hold
        })
        &&& left == (if self.answered_by(messages) {
            messages.skip((k + 1) as int)
        } else {
            Seq::empty()
        })
    }

    /// Read what came in. Progress goes out as it is; the final answer, or the end
    /// of the owner's time, ends the wait.
    pub fn process(
        &self,
        inbox: &mut VecDeque<FSMCommand>,
        now: u64,
        console: &mut Vec<ConsoleOut>,
    ) -> (r: AwaitStep)
        ensures
            self.await_leads(
                inbox_view(old(inbox)@),
                now,
                console_view(old(console)@),
                inbox_view(final(inbox)@),
                console_view(final(console)@),
                r,
            ),
    {
        let ghost messages = inbox_view(inbox@);
        let ghost before = console_view(console@);
        let ghost mut k: int = 0;
        assert(messages.skip(0) =~= messages);
        assert(console_view(console@) =~= before + progress_out(messages.take(0), self.ticket));
        while inbox.len() > 0
            invariant
                0 <= k <= messages.len(),
                messages == inbox_view(old(inbox)@),
                before == console_view(old(console)@),
                inbox_view(inbox@) == messages.skip(k),
                console_view(console@) == before + progress_out(messages.take(k), self.ticket),
                forall|i: int| 0 <= i < k ==> !is_final(#[trigger] messages[i], self.ticket),
            decreases inbox@.len(),
        {
            assert(inbox_view(inbox@).len() == inbox@.len());
            match receive(inbox) {
                Some(message) => {
                    proof {
                        assert(message@ == messages[k]);
                        assert(messages.skip(k).drop_first() =~= messages.skip(k + 1));
                        assert(inbox_view(inbox@).len() == inbox@.len());
                        assert(messages.take(k + 1).drop_last() =~= messages.take(k));
                        assert(messages.take(k + 1).last() == messages[k]);
                    }
                    match message {
                        FSMCommand::DiagnosticReply(reply) => {
                            if reply.ticket == self.ticket {
                                match reply.outcome {
                                    DiagOutcome::Progress(line) => {
                                        write_line(console, line.as_str());
                                    },
                                    DiagOutcome::Done { passed, details, message: text } => {
                                        proof {
                                            before_final_at(messages, self.ticket, k);
                                        }
                                        finish(
                                            console,
                                            self.name.as_str(),
                                            passed,
                                            details,
                                            text.as_str(),
                                        );
                                        assert(console_view(console@) =~= before + self.step_out(
                                            messages,
                                            now,
                                        ));
                                        return AwaitStep::ToIdle;
                                    },
                                }
                            }
                        },
                        _ => {},
                    }
                    assert(console_view(console@) =~= before + progress_out(
                        messages.take(k + 1),
                        self.ticket,
                    ));
                    proof {
                        k = k + 1;
                    }
                },
                None => {},
            }
        }
        proof {
            assert(inbox_view(inbox@).len() == inbox@.len());
            assert(k == messages.len());
            before_final_at(messages, self.ticket, k);
            assert(messages.skip(k) =~= Seq::empty());
        }
        if now >= self.deadline {
            let message = concat3(
                "no reply from the ",
                owner_name(self.owner),
                " machine within its budget",
            );
            refuse(console, self.name.as_str(), message.as_str());
            assert(console_view(console@) =~= before + self.step_out(messages, now));
            return AwaitStep::ToIdle;
        }
        AwaitStep::Hold
    }
}

} // verus!
