//! What a host can rely on: every command ends with exactly one `RESULT`.

use vstd::prelude::*;

use crate::diagnostics::answer::AnswerView;
use crate::diagnostics::command::ParsedCommand;
use crate::logic::fsm::diagnostics::awaiting::{
    before_final, is_final, outcome_for, progress_out, DiagAwaitOwner,
};
use crate::logic::fsm::diagnostics::console::{refusal_out, result_count, OutView};
use crate::logic::fsm::diagnostics::serve::{
    answered_out, poll_outcome, serve_refusal, ticket_after, Served,
};
use crate::logic::fsm::mail::{Message, OutcomeText};

verus! {

proof fn results_add(a: Seq<OutView>, b: Seq<OutView>)
    ensures
        result_count(a + b) == result_count(a) + result_count(b),
    decreases b.len(),
{
    if b.len() == 0 {
        assert(a + b =~= a);
    } else {
        assert((a + b).drop_last() =~= a + b.drop_last());
        results_add(a, b.drop_last());
    }
}

/// A refusal holds exactly one `RESULT`, the last thing it puts out.
pub proof fn a_refusal_ends_with_one_result(command: Seq<char>, message: Seq<char>)
    ensures
        result_count(refusal_out(command, message)) == 1,
        refusal_out(command, message).last() is Result,
{
    let out = refusal_out(command, message);
    reveal_with_fuel(result_count, 3);
    assert(out.drop_last().drop_last() =~= Seq::empty());
    assert(out.drop_last().last() is Line);
}

/// A command answered here ends with exactly one `RESULT`, whatever the answer.
pub proof fn an_answer_ends_with_one_result(
    name: Seq<char>,
    answer: AnswerView,
    wrote_any: bool,
)
    ensures
        result_count(answered_out(name, answer, wrote_any)) == 1,
        answered_out(name, answer, wrote_any).last() is Result,
{
    let out = answered_out(name, answer, wrote_any);
    reveal_with_fuel(result_count, 3);
    if wrote_any {
        assert(out.drop_last() =~= Seq::empty());
    } else {
        assert(out.drop_last().drop_last() =~= Seq::empty());
        assert(out.drop_last().last() is Line);
    }
}

proof fn progress_holds_no_result(messages: Seq<Message>, ticket: u32)
    ensures
        result_count(progress_out(messages, ticket)) == 0,
    decreases messages.len(),
{
    if messages.len() > 0 {
        let head = progress_out(messages.drop_last(), ticket);
        let tail: Seq<OutView> = match outcome_for(messages.last(), ticket) {
            Some(OutcomeText::Progress(line)) => seq![OutView::Line(line)],
            _ => Seq::empty(),
        };
        progress_holds_no_result(messages.drop_last(), ticket);
        results_add(head, tail);
        reveal_with_fuel(result_count, 2);
        if tail.len() > 0 {
            assert(tail.drop_last() =~= Seq::empty());
        }
    }
}

/// A delegated command ends with exactly one `RESULT`: a step that goes on waiting
/// puts none out, and the step that ends the wait puts out one, as its last output,
/// whether the owner answered or ran out of time.
pub proof fn a_delegated_command_ends_with_one_result(
    waiting: DiagAwaitOwner,
    messages: Seq<Message>,
    now: u64,
)
    ensures
        ({
            let ends = waiting.answered_by(messages) || now >= waiting.deadline;
            let out = waiting.step_out(messages, now);
            &&& result_count(out) == (if ends {
                1nat
            } else {
                0nat
            })
            &&& ends ==> out.last() is Result
        }),
{
    let k = before_final(messages, waiting.ticket);
    let progress = progress_out(messages.take(k as int), waiting.ticket);
    progress_holds_no_result(messages.take(k as int), waiting.ticket);
    if waiting.answered_by(messages) {
        final_is_final(messages, waiting.ticket);
        let out = progress.push(waiting.result_of(messages));
        assert(out.drop_last() =~= progress);
    } else if now >= waiting.deadline {
        let refusal = refusal_out(waiting.name@, waiting.no_reply());
        a_refusal_ends_with_one_result(waiting.name@, waiting.no_reply());
        results_add(progress, refusal);
        assert((progress + refusal).last() == refusal.last());
    }
}

proof fn final_is_final(messages: Seq<Message>, ticket: u32)
    requires
        before_final(messages, ticket) < messages.len(),
    ensures
        is_final(messages[before_final(messages, ticket) as int], ticket),
    decreases messages.len(),
{
    if !is_final(messages.first(), ticket) {
        final_is_final(messages.drop_first(), ticket);
    }
}

/// An answer to another ticket is discarded: it neither ends the wait nor appears
/// on the console.
pub proof fn a_stale_reply_is_discarded(
    waiting: DiagAwaitOwner,
    stale: Message,
    later: Seq<Message>,
    now: u64,
)
    requires
        outcome_for(stale, waiting.ticket) is None,
    ensures
        waiting.answered_by(seq![stale] + later) == waiting.answered_by(later),
        waiting.step_out(seq![stale] + later, now) == waiting.step_out(later, now),
{
    let messages = seq![stale] + later;
    let k = before_final(later, waiting.ticket);
    assert(messages.drop_first() =~= later);
    assert(before_final(messages, waiting.ticket) == k + 1);
    before_final_bound(later, waiting.ticket);
    assert(messages.take((k + 1) as int) =~= seq![stale] + later.take(k as int));
    progress_skips(stale, later.take(k as int), waiting.ticket);
    if k < later.len() {
        assert(messages[(k + 1) as int] == later[k as int]);
    }
}

proof fn before_final_bound(messages: Seq<Message>, ticket: u32)
    ensures
        before_final(messages, ticket) <= messages.len(),
    decreases messages.len(),
{
    if messages.len() > 0 && !is_final(messages.first(), ticket) {
        before_final_bound(messages.drop_first(), ticket);
    }
}

proof fn progress_skips(stale: Message, messages: Seq<Message>, ticket: u32)
    requires
        outcome_for(stale, ticket) is None,
    ensures
        progress_out(seq![stale] + messages, ticket) == progress_out(messages, ticket),
    decreases messages.len(),
{
    let all = seq![stale] + messages;
    if messages.len() == 0 {
        assert(all.drop_last() =~= Seq::empty());
        assert(progress_out(all.drop_last(), ticket) =~= Seq::empty());
        assert(all.last() == stale);
        assert(progress_out(all, ticket) =~= Seq::empty());
    } else {
        assert(all.drop_last() =~= seq![stale] + messages.drop_last());
        assert(all.last() == messages.last());
        progress_skips(stale, messages.drop_last(), ticket);
    }
}

/// Consecutive tickets differ, so a late reply to one command is stale for the next.
pub proof fn consecutive_tickets_differ(ticket: u32)
    ensures
        ticket_after(ticket) != ticket,
{
}

/// A restart that a line of a poll was granted is what the poll leads to, whatever
/// the other lines led to.
pub proof fn a_restart_is_never_discarded(served: Seq<Served>, i: int)
    requires
        0 <= i < served.len(),
        served[i] is Reboot,
    ensures
        poll_outcome(served) is Reboot,
    decreases served.len(),
{
    if i < served.len() - 1 {
        assert(served.drop_last()[i] == served[i]);
        a_restart_is_never_discarded(served.drop_last(), i);
    }
}

/// Without a restart, a poll leads to the first outcome that is not trivial.
pub proof fn the_first_outcome_stays(served: Seq<Served>, i: int)
    requires
        0 <= i < served.len(),
        served[i] !is Nothing,
        forall|j: int| 0 <= j < i ==> (#[trigger] served[j]) is Nothing,
        forall|j: int| 0 <= j < served.len() ==> (#[trigger] served[j]) !is Reboot,
    ensures
        poll_outcome(served) == served[i],
    decreases served.len(),
{
    let rest = served.drop_last();
    assert forall|j: int| 0 <= j < rest.len() implies (#[trigger] rest[j]) !is Reboot by {
        assert(rest[j] == served[j]);
    }
    if i < served.len() - 1 {
        assert(rest[i] == served[i]);
        the_first_outcome_stays(rest, i);
    } else {
        assert forall|j: int| 0 <= j < rest.len() implies (#[trigger] rest[j]) is Nothing by {
            assert(rest[j] == served[j]);
        }
        trivial_lines_lead_nowhere(rest);
    }
}

proof fn trivial_lines_lead_nowhere(served: Seq<Served>)
    requires
        forall|j: int| 0 <= j < served.len() ==> (#[trigger] served[j]) is Nothing,
    ensures
        poll_outcome(served) is Nothing,
    decreases served.len(),
{
    if served.len() > 0 {
        let rest = served.drop_last();
        assert forall|j: int| 0 <= j < rest.len() implies (#[trigger] rest[j]) is Nothing by {
            assert(rest[j] == served[j]);
        }
        trivial_lines_lead_nowhere(rest);
    }
}

/// While a hardware command is in flight no second one is sent.
pub proof fn one_hardware_command_at_a_time(parsed: ParsedCommand, busy_with: &str)
    ensures
        serve_refusal(parsed, Some(busy_with)) is Some,
{
}

} // verus!
