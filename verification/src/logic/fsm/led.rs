//! The status LED.
//!
//! Normally the LED follows the tower's state: the maintenance colour, or dark. A
//! test overrides that, and a second state keeps the runtime from painting over
//! the test's colour.

use std::collections::VecDeque;

use vstd::prelude::*;

use crate::diagnostics::command::{CommandView, DiagnosticCommand};
use crate::diagnostics::probes::{
    drive_status_led, led_answer, led_line, led_restores, LedTest,
};
use crate::diagnostics::transcript::TranscriptIo;
use crate::logic::fsm::mail::{
    done_mail, inbox_view, outbox_view, progress_mail, receive, reply_done, reply_progress,
    DiagRequest, FSMCommand, FSMState, Mail, MailView, Message,
};
use crate::text::same_ignoring_ascii_case;

verus! {

/// What the runtime wants the LED to show when no test is running.
#[derive(Debug, Clone, Copy, PartialEq, Eq, Structural)]
pub enum RuntimeLook {
    Maintenance,
    Idle,
}

pub open spec fn look_of(state: Option<FSMState>) -> RuntimeLook {
    if state is Some && state->0.maintenance_mode {
        RuntimeLook::Maintenance
    } else {
        RuntimeLook::Idle
    }
}

/// The look that the shared state asks for; dark where it cannot be read.
pub fn runtime_look(state: Option<FSMState>) -> (r: RuntimeLook)
    ensures
        r == look_of(state),
{
    match state {
        Some(s) => {
            if s.maintenance_mode {
                RuntimeLook::Maintenance
            } else {
                RuntimeLook::Idle
            }
        },
        None => RuntimeLook::Idle,
    }
}

/// The runtime look that is on the LED, if one is.
#[derive(Debug, Clone, Copy, PartialEq, Eq, Structural)]
pub struct LEDContext {
    pub shown: Option<RuntimeLook>,
}

impl LEDContext {
    pub fn new() -> (r: Self)
        ensures
            r.shown is None,
    {
        LEDContext { shown: None }
    }

    pub open spec fn to_paint(self, look: RuntimeLook) -> Option<RuntimeLook> {
        if self.shown == Some(look) {
            None
        } else {
            Some(look)
        }
    }

    /// What to paint so that the LED shows `look`: nothing if it does already.
    pub fn show_runtime(&self, look: RuntimeLook) -> (r: Option<RuntimeLook>)
        ensures
            r == self.to_paint(look),
    {
        match self.shown {
            Some(shown) => {
                if shown == look {
                    None
                } else {
                    Some(look)
                }
            },
            None => Some(look),
        }
    }

    /// What is shown after a painting.
    pub open spec fn after_painting(self, look: RuntimeLook, ok: bool) -> LEDContext {
        if ok {
            LEDContext { shown: Some(look) }
        } else {
            self
        }
    }

    /// Take note of a painting. One that failed is not recorded, so the next step
    /// tries again.
    pub fn painted(&mut self, look: RuntimeLook, ok: bool)
        ensures
            *final(self) == old(self).after_painting(look, ok),
    {
        if ok {
            self.shown = Some(look);
        }
    }
}

/// The colour that a message asks the LED to show, with its ticket.
pub open spec fn led_test(message: Message) -> Option<(u32, Seq<char>)> {
    match message {
        Message::DiagnosticRequest { ticket, command: CommandView::LedTest { color } } => Some(
            (ticket, color),
        ),
        _ => None,
    }
}

/// How many messages come before the first LED test; all of them if there is none.
pub open spec fn before_led_test(inbox: Seq<Message>) -> nat
    decreases inbox.len(),
{
    if inbox.len() == 0 || led_test(inbox.first()) is Some {
        0
    } else {
        1 + before_led_test(inbox.drop_first())
    }
}

/// The replies to requests that were routed here in error.
pub open spec fn misrouted_replies(messages: Seq<Message>) -> Seq<MailView>
    decreases messages.len(),
{
    if messages.len() == 0 {
        Seq::empty()
    } else {
        misrouted_replies(messages.drop_last()) + (match messages.last() {
            Message::DiagnosticRequest { ticket, .. } => seq![
                done_mail(
                    ticket,
                    false,
                    Seq::empty(),
                    "routed to the LED machine, which does not own that hardware"@,
                ),
            ],
            _ => Seq::empty(),
        })
    }
}

/// The first LED test is one, and no message before it is.
pub proof fn before_led_test_bounds(inbox: Seq<Message>)
    ensures
        before_led_test(inbox) <= inbox.len(),
        before_led_test(inbox) < inbox.len() ==> led_test(
            inbox[before_led_test(inbox) as int],
        ) is Some,
        forall|i: int|
            0 <= i < before_led_test(inbox) ==> led_test(#[trigger] inbox[i]) is None,
    decreases inbox.len(),
{
    if inbox.len() > 0 && led_test(inbox.first()) is None {
        let rest = inbox.drop_first();
        before_led_test_bounds(rest);
        assert forall|i: int| 0 <= i < before_led_test(inbox) implies led_test(
            #[trigger] inbox[i],
        ) is None by {
            if i > 0 {
                assert(rest[i - 1] == inbox[i]);
            }
        }
    }
}

proof fn before_led_test_at(inbox: Seq<Message>, k: int)
    requires
        0 <= k <= inbox.len(),
        k < inbox.len() ==> led_test(inbox[k]) is Some,
        forall|i: int| 0 <= i < k ==> led_test(#[trigger] inbox[i]) is None,
    ensures
        before_led_test(inbox) == k,
{
    before_led_test_bounds(inbox);
}

/// Take messages up to the first LED test. Requests that this machine does not own
/// are answered, so that nobody waits for them; anything else is dropped.
pub fn next_led_test(inbox: &mut VecDeque<FSMCommand>, outbox: &mut Vec<Mail>) -> (r: Option<
    (u32, String),
>)
    ensures
        ({
            let messages = inbox_view(old(inbox)@);
            let k = before_led_test(messages);
            &&& k <= messages.len()
            &&& outbox_view(final(outbox)@) == outbox_view(old(outbox)@) + misrouted_replies(
                messages.take(k as int),
            )
            &&& match r {
                Some(test) => {
                    &&& k < messages.len()
                    &&& led_test(messages[k as int]) == Some((test.0, test.1@))
                    &&& inbox_view(final(inbox)@) == messages.skip((k + 1) as int)
                },
                None => k == messages.len() && final(inbox)@.len() == 0,
            }
        }),
{
    let ghost messages = inbox_view(inbox@);
    let ghost sent = outbox_view(outbox@);
    let ghost mut k: int = 0;
    assert(messages.skip(0) =~= messages);
    assert(outbox_view(outbox@) =~= sent + misrouted_replies(messages.take(0)));
    while inbox.len() > 0
        invariant
            0 <= k <= messages.len(),
            inbox_view(inbox@) == messages.skip(k),
            outbox_view(outbox@) == sent + misrouted_replies(messages.take(k)),
            forall|i: int| 0 <= i < k ==> led_test(#[trigger] messages[i]) is None,
            messages == inbox_view(old(inbox)@),
            sent == outbox_view(old(outbox)@),
        decreases inbox@.len(),
    {
        proof {
            assert(inbox_view(inbox@).len() == inbox@.len());
        }
        match receive(inbox) {
            Some(message) => {
                proof {
                    assert(message@ == messages[k]);
                    assert(messages.skip(k).drop_first() =~= messages.skip(k + 1));
                    assert(inbox_view(inbox@).len() == inbox@.len());
                    assert(messages.take(k + 1).drop_last() =~= messages.take(k));
                    assert(messages.take(k + 1).last() == messages[k]);
                }
                match message {
                    FSMCommand::DiagnosticRequest(DiagRequest { ticket, command }) => match command {
                        DiagnosticCommand::LedTest { color } => {
                            proof {
                                before_led_test_at(messages, k);
                            }
                            return Some((ticket, color));
                        },
                        _ => {
                            reply_done(
                                outbox,
                                ticket,
                                false,
                                Vec::new(),
                                "routed to the LED machine, which does not own that hardware".to_owned(),
                            );
                            proof {
                                assert(crate::text::text_pairs(
                                    Seq::<(String, String)>::empty(),
                                ) =~= Seq::empty());
                                assert(led_test(messages[k]) is None);
                                assert(outbox_view(outbox@) =~= sent + misrouted_replies(
                                    messages.take(k + 1),
                                ));
                            }
                        },
                    },
                    _ => {
                        assert(outbox_view(outbox@) =~= sent + misrouted_replies(
                            messages.take(k + 1),
                        ));
                    },
                }
                proof {
                    k = k + 1;
                }
            },
            None => {},
        }
    }
    proof {
        assert(inbox_view(inbox@).len() == inbox@.len());
        assert(k == messages.len());
        before_led_test_at(messages, k);
    }
    None
}

/// The replies that report a test: a progress line where the colour was written or
/// put back, and one answer in any case.
pub open spec fn test_replies(ticket: u32, color: Seq<char>, test: LedTest) -> Seq<MailView> {
    let answer = led_answer(color, test);
    let done = done_mail(ticket, answer.passed, answer.details, answer.message);
    if answer.passed {
        seq![progress_mail(ticket, led_line(color, test)), done]
    } else {
        seq![done]
    }
}

fn reply_test(outbox: &mut Vec<Mail>, ticket: u32, color: &str, test: &LedTest)
    ensures
        outbox_view(final(outbox)@) == outbox_view(old(outbox)@) + test_replies(
            ticket,
            color@,
            *test,
        ),
{
    let mut io = TranscriptIo::default();
    let answer = drive_status_led(color, test, &mut io);
    let mut lines = io.into_lines();
    if answer.passed {
        assert(crate::text::texts(lines@).len() == 1);
        assert(crate::text::texts(lines@)[0] == lines@[0]@);
        let line = lines.remove(0);
        reply_progress(outbox, ticket, line);
    }
    reply_done(outbox, ticket, answer.passed, answer.details, answer.message);
    assert(outbox_view(outbox@) =~= outbox_view(old(outbox)@) + test_replies(
        ticket,
        color@,
        *test,
    ));
}

/// What driving a test colour leads to.
pub open spec fn drive_leads(
    before: LEDContext,
    begun: Seq<MailView>,
    ticket: u32,
    color: Seq<char>,
    test: LedTest,
    after: LEDContext,
    sent: Seq<MailView>,
    driven: bool,
) -> bool {
    &&& driven == led_answer(color, test).passed
    &&& after.shown == (if driven {
        None
    } else {
        before.shown
    })
    &&& sent == begun + test_replies(ticket, color, test)
}

/// Report what became of driving a test colour. A colour that was written replaces
/// whatever the runtime showed.
pub fn drive_test(
    ctx: &mut LEDContext,
    outbox: &mut Vec<Mail>,
    ticket: u32,
    color: &str,
    test: &LedTest,
) -> (driven: bool)
    requires
        !(test is Restored),
    ensures
        drive_leads(
            *old(ctx),
            outbox_view(old(outbox)@),
            ticket,
            color@,
            *test,
            *final(ctx),
            outbox_view(final(outbox)@),
            driven,
        ),
{
    reply_test(outbox, ticket, color, test);
    match test {
        LedTest::Driven { outcome: Ok(_), .. } => {
            ctx.shown = None;
            true
        },
        _ => false,
    }
}

/// What a step of the LED machine asks for.
#[derive(Debug)]
pub enum LedStep {
    /// Follow the runtime, and stay there.
    FollowRuntime,
    /// Hold the colour that is shown, and stay there.
    HoldColor,
    /// Go to [`LEDCheck`].
    ToCheck,
    /// Go to [`LEDDiagnosticHold`].
    ToDiagnosticHold,
    /// Drive this colour and report it with [`drive_test`].
    Drive { ticket: u32, color: String },
}

/// Following the runtime's look.
#[derive(Debug, Clone, Copy)]
pub struct LEDCheck;

/// Holding a colour that a technician asked for.
#[derive(Debug, Clone, Copy)]
pub struct LEDDiagnosticHold;

/// What the first LED test in the inbox leads to.
pub open spec fn requested(messages: Seq<Message>) -> Option<(u32, Seq<char>)> {
    let k = before_led_test(messages);
    if k < messages.len() {
        led_test(messages[k as int])
    } else {
        None
    }
}

/// The replies that a step sends before it drives anything.
pub open spec fn step_replies(messages: Seq<Message>) -> Seq<MailView> {
    misrouted_replies(messages.take(before_led_test(messages) as int)) + (match requested(
        messages,
    ) {
        Some(test) => if same_ignoring_ascii_case(test.1, "RESTORE"@) {
            test_replies(test.0, test.1, LedTest::Restored)
        } else {
            Seq::empty()
        },
        None => Seq::empty(),
    })
}

/// The messages that a step leaves in the inbox.
pub open spec fn step_leaves(messages: Seq<Message>) -> Seq<Message> {
    let k = before_led_test(messages);
    if k < messages.len() {
        messages.skip((k + 1) as int)
    } else {
        Seq::empty()
    }
}

fn take_request(
    inbox: &mut VecDeque<FSMCommand>,
    outbox: &mut Vec<Mail>,
) -> (r: (bool, Option<(u32, String)>))
    ensures
        inbox_view(final(inbox)@) == step_leaves(inbox_view(old(inbox)@)),
        outbox_view(final(outbox)@) == outbox_view(old(outbox)@) + step_replies(
            inbox_view(old(inbox)@),
        ),
        r.0 == (requested(inbox_view(old(inbox)@)) is Some && same_ignoring_ascii_case(
            (requested(inbox_view(old(inbox)@))->0).1,
            "RESTORE"@,
        )),
        match r.1 {
            Some(test) => !r.0 && requested(inbox_view(old(inbox)@)) == Some((test.0, test.1@)),
            None => r.0 || requested(inbox_view(old(inbox)@)) is None,
        },
{
    let ghost messages = inbox_view(inbox@);
    proof {
        before_led_test_bounds(messages);
    }
    let next = next_led_test(inbox, outbox);
    match next {
        Some((ticket, color)) => {
            if led_restores(color.as_str()) {
                reply_test(outbox, ticket, color.as_str(), &LedTest::Restored);
                assert(outbox_view(outbox@) =~= outbox_view(old(outbox)@) + step_replies(
                    messages,
                ));
                (true, None)
            } else {
                assert(outbox_view(outbox@) =~= outbox_view(old(outbox)@) + step_replies(
                    messages,
                ));
                (false, Some((ticket, color)))
            }
        },
        None => {
            assert(inbox_view(inbox@) =~= Seq::empty());
            assert(outbox_view(outbox@) =~= outbox_view(old(outbox)@) + step_replies(messages));
            (false, None)
        },
    }
}

/// What waits for the LED machine, and what it has sent.
#[verifier::ext_equal]
pub struct LedQueues {
    pub inbox: Seq<Message>,
    pub outbox: Seq<MailView>,
}

/// What a step that follows the runtime leads to.
pub open spec fn check_leads(before: LedQueues, after: LedQueues, r: LedStep) -> bool {
    &&& after.inbox == step_leaves(before.inbox)
    &&& after.outbox == before.outbox + step_replies(before.inbox)
    &&& match requested(before.inbox) {
        Some(test) => if same_ignoring_ascii_case(test.1, "RESTORE"@) {
            r is FollowRuntime
        } else {
            r matches LedStep::Drive { ticket, color } && ticket == test.0 && color@ == test.1
        },
        None => r is FollowRuntime,
    }
}

/// What a step that holds a colour leads to.
pub open spec fn hold_leads(
    state: Option<FSMState>,
    before: LedQueues,
    after: LedQueues,
    r: LedStep,
) -> bool {
    if look_of(state) == RuntimeLook::Maintenance {
        r is ToCheck && after == before
    } else {
        &&& after.inbox == step_leaves(before.inbox)
        &&& after.outbox == before.outbox + step_replies(before.inbox)
        &&& match requested(before.inbox) {
            Some(test) => if same_ignoring_ascii_case(test.1, "RESTORE"@) {
                r is ToCheck
            } else {
                r matches LedStep::Drive { ticket, color } && ticket == test.0 && color@
                    == test.1
            },
            None => r is HoldColor,
        }
    }
}

/// Where a driven colour leads, or one that could not be.
pub open spec fn after_driving(driven: bool) -> LedStep {
    if driven {
        LedStep::ToDiagnosticHold
    } else {
        LedStep::FollowRuntime
    }
}

impl LEDCheck {
    /// Begin a step. A request for the runtime's colour is answered at once, since
    /// the LED shows it already.
    pub fn process(&self, inbox: &mut VecDeque<FSMCommand>, outbox: &mut Vec<Mail>) -> (r: LedStep)
        ensures
            check_leads(
                (LedQueues { inbox: inbox_view(old(inbox)@), outbox: outbox_view(old(outbox)@) }),
                (LedQueues {
                    inbox: inbox_view(final(inbox)@),
                    outbox: outbox_view(final(outbox)@),
                }),
                r,
            ),
    {
        let (_restored, test) = take_request(inbox, outbox);
        match test {
            Some((ticket, color)) => LedStep::Drive { ticket, color },
            None => LedStep::FollowRuntime,
        }
    }

    /// Go on after a colour was driven, or could not be.
    pub fn after_drive(&self, driven: bool) -> (r: LedStep)
        ensures
            r == after_driving(driven),
    {
        if driven {
            LedStep::ToDiagnosticHold
        } else {
            LedStep::FollowRuntime
        }
    }
}

impl LEDDiagnosticHold {
    /// Begin a step. Maintenance ends the test before anything else is looked at:
    /// a test colour must never hide it.
    pub fn process(
        &self,
        state: Option<FSMState>,
        inbox: &mut VecDeque<FSMCommand>,
        outbox: &mut Vec<Mail>,
    ) -> (r: LedStep)
        ensures
            look_of(state) == RuntimeLook::Maintenance ==> r is ToCheck && final(inbox)@ == old(
                inbox,
            )@ && final(outbox)@ == old(outbox)@,
            hold_leads(
                state,
                (LedQueues { inbox: inbox_view(old(inbox)@), outbox: outbox_view(old(outbox)@) }),
                (LedQueues {
                    inbox: inbox_view(final(inbox)@),
                    outbox: outbox_view(final(outbox)@),
                }),
                r,
            ),
    {
        if runtime_look(state) == RuntimeLook::Maintenance {
            return LedStep::ToCheck;
        }
        let (restored, test) = take_request(inbox, outbox);
        match test {
            Some((ticket, color)) => LedStep::Drive { ticket, color },
            None => {
                if restored {
                    LedStep::ToCheck
                } else {
                    LedStep::HoldColor
                }
            },
        }
    }

    /// Go on after a test colour was driven, or could not be: the colour that is shown
    /// is held.
    pub fn after_drive(&self, _driven: bool) -> (r: LedStep)
        ensures
            r is HoldColor,
    {
        LedStep::HoldColor
    }
}

/// After a test colour was written, the runtime's look is painted again whatever it
/// is: in maintenance the LED shows so, however the test ended.
pub proof fn the_runtime_look_returns(ctx: LEDContext, look: RuntimeLook)
    requires
        ctx.shown is None,
    ensures
        ctx.to_paint(look) == Some(look),
{
}

/// A look that was painted successfully is not painted again while it holds.
pub proof fn a_look_is_painted_once(ctx: LEDContext, look: RuntimeLook)
    requires
        ctx.shown == Some(look),
    ensures
        ctx.to_paint(look) is None,
{
}

/// Every request in an inbox gets exactly one final answer: those before the first
/// test are answered as misrouted, and the test by the machine that runs it.
pub proof fn misrouted_requests_are_answered_once(messages: Seq<Message>, i: int)
    requires
        0 <= i < messages.len(),
        messages[i] is DiagnosticRequest,
    ensures
        misrouted_replies(messages).contains(
            done_mail(
                messages[i]->DiagnosticRequest_ticket,
                false,
                Seq::empty(),
                "routed to the LED machine, which does not own that hardware"@,
            ),
        ),
        misrouted_replies(messages).len() == request_count(messages),
    decreases messages.len(),
{
    let reply = done_mail(
        messages[i]->DiagnosticRequest_ticket,
        false,
        Seq::empty(),
        "routed to the LED machine, which does not own that hardware"@,
    );
    let rest = messages.drop_last();
    misrouted_count(messages);
    if i == messages.len() - 1 {
        assert(misrouted_replies(messages).last() == reply);
    } else {
        assert(rest[i] == messages[i]);
        misrouted_requests_are_answered_once(rest, i);
        let j = choose|j: int|
            0 <= j < misrouted_replies(rest).len() && misrouted_replies(rest)[j] == reply;
        assert(misrouted_replies(messages)[j] == reply);
    }
}

/// How many diagnostics requests a run of messages holds.
pub open spec fn request_count(messages: Seq<Message>) -> nat
    decreases messages.len(),
{
    if messages.len() == 0 {
        0
    } else {
        let here: nat = if messages.last() is DiagnosticRequest {
            1
        } else {
            0
        };
        request_count(messages.drop_last()) + here
    }
}

proof fn misrouted_count(messages: Seq<Message>)
    ensures
        misrouted_replies(messages).len() == request_count(messages),
    decreases messages.len(),
{
    if messages.len() > 0 {
        misrouted_count(messages.drop_last());
    }
}

} // verus!
