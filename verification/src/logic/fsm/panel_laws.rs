//! What the buttons, the LED, manual movement and the start may and may not do.

use vstd::prelude::*;

use crate::config::switchboard::{GuardrailsSwitches, Profile, SiteConstants};
use crate::diagnostics::command::CommandView;
use crate::diagnostics::probes::LedTest;
use crate::logic::fsm::buttons::{presses, seen, ButtonLevels, ButtonsContext};
use crate::logic::fsm::led::{
    after_driving, before_led_test, before_led_test_bounds, check_leads, drive_leads, hold_leads,
    led_test, look_of, misrouted_replies, test_replies, LEDContext, LedQueues, LedStep, RuntimeLook,
};
use crate::logic::fsm::led_states::{followed, LedDisplay, LedState};
use crate::logic::fsm::mail::{FSMAddress, FSMState, MailView, Message};
use crate::logic::fsm::maintenance::{step_of, MaintenanceContext, MaintenanceState};
use crate::logic::fsm::network::NVS_KEY_VERSION;
use crate::logic::fsm::startup::{startup_leads, StartupContext};
use crate::storage::laws::replay_appended;
use crate::storage::snapshot_store::{NvsImage, NvsWriteView, NVS_KEY_LAST_RUN_NORMAL};
use crate::text::same_ignoring_ascii_case;

verus! {

/// A look at the buttons sends one message for each button that is down and was up at
/// the last look, to the motion machine and in a fixed order, and no other; the look is
/// then the last, whatever was before.
pub proof fn each_press_is_sent_once(ctx: ButtonsContext, levels: ButtonLevels)
    ensures
        ({
            let sent = presses(ctx, levels);
            let m = levels.maintenance && !ctx.last_maintenance_pressed;
            let l = levels.ccw && !ctx.last_ccw_pressed;
            let r = levels.cw && !ctx.last_cw_pressed;
            &&& sent.len() == (if m { 1int } else { 0 }) + (if l { 1int } else { 0 }) + (if r {
                1int
            } else {
                0
            })
            &&& forall|i: int|
                0 <= i < sent.len() ==> (#[trigger] sent[i]).to == FSMAddress::Motion
            &&& m ==> sent[0].message == Message::MaintenancePressed
            &&& r ==> sent.last().message == Message::CWPressed
            &&& l && !m ==> sent[0].message == Message::CCWPressed
            &&& l && m ==> sent[1].message == Message::CCWPressed
        }),
        seen(levels).last_maintenance_pressed == levels.maintenance,
        seen(levels).last_ccw_pressed == levels.ccw,
        seen(levels).last_cw_pressed == levels.cw,
{
}

/// Whether a message asks for an LED test.
pub open spec fn asks_for_light(message: Message) -> bool {
    message matches Message::DiagnosticRequest { command: CommandView::LedTest { .. }, .. }
}

/// A machine that follows the runtime drives exactly the first LED test of its inbox,
/// with its ticket and colour, unless that asks for the runtime's own look; without one
/// it goes on following. What comes after the test stays in the inbox.
pub proof fn the_first_led_test_is_driven(before: LedQueues, after: LedQueues, r: LedStep, i: int)
    requires
        check_leads(before, after, r),
        0 <= i <= before.inbox.len(),
        forall|j: int| 0 <= j < i ==> !asks_for_light(#[trigger] before.inbox[j]),
        i < before.inbox.len() ==> asks_for_light(before.inbox[i]),
    ensures
        i == before.inbox.len() ==> r is FollowRuntime && after.inbox.len() == 0,
        i < before.inbox.len() ==> {
            let ticket = before.inbox[i]->DiagnosticRequest_ticket;
            let color = before.inbox[i]->command->LedTest_color;
            &&& after.inbox == before.inbox.skip(i + 1)
            &&& same_ignoring_ascii_case(color, "RESTORE"@) <==> r is FollowRuntime
            &&& !same_ignoring_ascii_case(color, "RESTORE"@) ==> r is Drive && r->ticket == ticket
                && r->color@ == color
            &&& same_ignoring_ascii_case(color, "RESTORE"@) ==> {
                &&& after.outbox.len() >= before.outbox.len() + 2
                &&& after.outbox.last().message->DiagnosticReply_ticket == ticket
                &&& after.outbox.last().message->outcome is Done
                &&& after.outbox.last().message->outcome->passed
            }
            &&& !same_ignoring_ascii_case(color, "RESTORE"@) && i == 0 ==> after.outbox
                == before.outbox
        },
{
    before_led_test_bounds(before.inbox);
    let k = before_led_test(before.inbox) as int;
    if k < i {
        assert(!asks_for_light(before.inbox[k]));
    }
    if i < k {
        assert(led_test(before.inbox[i]) is None);
    }
}

/// A request that is no LED test is answered as a failure to its own ticket; what is no
/// request is not answered.
pub proof fn a_misrouted_request_fails(messages: Seq<Message>, message: Message)
    ensures
        misrouted_replies(Seq::empty()).len() == 0,
        message is DiagnosticRequest ==> {
            let replies = misrouted_replies(messages.push(message));
            &&& replies.drop_last() == misrouted_replies(messages)
            &&& replies.last().to == FSMAddress::Diagnostics
            &&& replies.last().message is DiagnosticReply
            &&& replies.last().message->DiagnosticReply_ticket
                == message->DiagnosticRequest_ticket
            &&& replies.last().message->outcome is Done
            &&& !replies.last().message->outcome->passed
        },
        !(message is DiagnosticRequest) ==> misrouted_replies(messages.push(message))
            == misrouted_replies(messages),
{
    assert(messages.push(message).drop_last() =~= messages);
    assert(misrouted_replies(messages) + Seq::<MailView>::empty() =~= misrouted_replies(
        messages,
    ));
}

/// A test colour never hides maintenance: while the tower is in maintenance, a machine
/// that holds a colour goes back to following the runtime, whatever waits for it, and
/// loses nothing of that.
pub proof fn maintenance_ends_a_test(
    state: Option<FSMState>,
    before: LedQueues,
    after: LedQueues,
    r: LedStep,
)
    requires
        hold_leads(state, before, after, r),
        state is Some && state->0.maintenance_mode,
    ensures
        r is ToCheck,
        after == before,
{
}

/// Out of maintenance a held colour gives way exactly to the first LED test of the
/// inbox: to its colour, or to the runtime's look where it asks for that.
pub proof fn a_held_colour_gives_way_to_the_next_test(
    state: Option<FSMState>,
    before: LedQueues,
    after: LedQueues,
    r: LedStep,
    i: int,
)
    requires
        hold_leads(state, before, after, r),
        state is None || !state->0.maintenance_mode,
        0 <= i <= before.inbox.len(),
        forall|j: int| 0 <= j < i ==> !asks_for_light(#[trigger] before.inbox[j]),
        i < before.inbox.len() ==> asks_for_light(before.inbox[i]),
    ensures
        i == before.inbox.len() <==> r is HoldColor,
        i < before.inbox.len() ==> {
            let ticket = before.inbox[i]->DiagnosticRequest_ticket;
            let color = before.inbox[i]->command->LedTest_color;
            &&& after.inbox == before.inbox.skip(i + 1)
            &&& same_ignoring_ascii_case(color, "RESTORE"@) <==> r is ToCheck
            &&& !same_ignoring_ascii_case(color, "RESTORE"@) ==> r is Drive && r->ticket == ticket
                && r->color@ == color
            &&& same_ignoring_ascii_case(color, "RESTORE"@) ==> {
                &&& after.outbox.len() >= before.outbox.len() + 2
                &&& after.outbox.last().message->DiagnosticReply_ticket == ticket
                &&& after.outbox.last().message->outcome is Done
                &&& after.outbox.last().message->outcome->passed
            }
            &&& !same_ignoring_ascii_case(color, "RESTORE"@) && i == 0 ==> after.outbox
                == before.outbox
        },
{
    before_led_test_bounds(before.inbox);
    let k = before_led_test(before.inbox) as int;
    if k < i {
        assert(!asks_for_light(before.inbox[k]));
    }
    if i < k {
        assert(led_test(before.inbox[i]) is None);
    }
}

/// An LED test is answered to its ticket with exactly one final reply, the last; it
/// passes exactly where the colour was written or the runtime's was put back, and only
/// then reports progress before.
pub proof fn an_led_test_gets_one_answer(ticket: u32, color: Seq<char>, test: LedTest)
    ensures
        ({
            let replies = test_replies(ticket, color, test);
            let written = test is Restored || (test matches LedTest::Driven {
                outcome: Ok(_),
                ..
            });
            &&& replies.len() == (if written { 2int } else { 1 })
            &&& forall|i: int|
                0 <= i < replies.len() ==> (#[trigger] replies[i]).to == FSMAddress::Diagnostics
                    && replies[i].message is DiagnosticReply
                    && replies[i].message->DiagnosticReply_ticket == ticket
            &&& replies.last().message->outcome is Done
            &&& replies.last().message->outcome->passed == written
            &&& written ==> replies[0].message->outcome is Progress
        }),
{
}

/// A driven colour holds, and whatever the runtime showed is then gone; a colour that
/// could not be driven leaves the machine following the runtime and what it showed.
pub proof fn a_driven_colour_replaces_the_look(
    before: LEDContext,
    begun: Seq<MailView>,
    ticket: u32,
    color: Seq<char>,
    test: LedTest,
    after: LEDContext,
    sent: Seq<MailView>,
    driven: bool,
)
    requires
        drive_leads(before, begun, ticket, color, test, after, sent, driven),
        !(test is Restored),
    ensures
        driven <==> (test matches LedTest::Driven { outcome: Ok(_), .. }),
        driven ==> after.shown is None && after_driving(driven) is ToDiagnosticHold,
        !driven ==> after == before && after_driving(driven) is FollowRuntime,
        sent.len() > begun.len() && sent.take(begun.len() as int) == begun,
{
    assert(sent.take(begun.len() as int) =~= begun);
}

/// The LED shows maintenance exactly while the shared state says so, and is painted
/// exactly where it does not show that yet; a painting that failed is tried again.
pub proof fn the_led_follows_the_shared_state(
    state: Option<FSMState>,
    ctx: LEDContext,
    look: RuntimeLook,
    ok: bool,
)
    ensures
        look_of(state) == RuntimeLook::Maintenance <==> state is Some
            && state->0.maintenance_mode,
        ctx.to_paint(look) is None <==> ctx.shown == Some(look),
        ctx.to_paint(look) matches Some(painted) ==> painted == look,
        ok ==> ctx.after_painting(look, ok).to_paint(look) is None,
        !ok ==> ctx.after_painting(look, ok).to_paint(look) == ctx.to_paint(look),
{
}

/// The newest command decides what the LED shows, and one that is none of its commands
/// changes nothing; every state shows what its command names.
pub proof fn the_newest_command_decides(messages: Seq<Message>)
    ensures
        ({
            let shown = followed(messages).display();
            let last = messages.last();
            &&& shown is None <==> messages.len() == 0 || !(last is LEDOff || last is LEDMaintenance
                || last is LEDMaintenanceMovingCCW || last is LEDMaintenanceMovingCW)
            &&& messages.len() > 0 && last is LEDOff <==> shown == Some(LedDisplay::Dark)
            &&& messages.len() > 0 && last is LEDMaintenance <==> shown == Some(
                LedDisplay::Maintenance,
            )
            &&& messages.len() > 0 && last is LEDMaintenanceMovingCCW <==> shown == Some(
                LedDisplay::MaintenanceMovingCCW,
            )
            &&& messages.len() > 0 && last is LEDMaintenanceMovingCW <==> shown == Some(
                LedDisplay::MaintenanceMovingCW,
            )
        }),
        followed(messages).display() is None <==> followed(messages) == LedState::Hold,
{
}

/// Manual movement is entered and left by the maintenance button alone. Within it a
/// press of a direction turns the tower that way from the next step on, and while it is
/// turning a step that brings no other press moves it.
pub proof fn manual_movement_follows_the_presses(
    state: MaintenanceState,
    ctx: MaintenanceContext,
)
    ensures
        ({
            let (next, sent) = step_of(state, ctx);
            let m = ctx.now.maintenance && !ctx.last.maintenance;
            let l = ctx.now.ccw && !ctx.last.ccw;
            let r = ctx.now.cw && !ctx.last.cw;
            &&& state is Enter ==> (m <==> next is NotMoving) && (!m <==> next is Enter)
            &&& state is Exit ==> next is Enter && sent.len() == 0
            &&& !(state is Enter) && !(state is Exit) ==> (m <==> next is Exit)
            &&& state is NotMoving && !m ==> (l <==> next is MoveCCW) && (!l && r <==> next
                is MoveCW) && (!l && !r <==> next is NotMoving)
            &&& state is MoveCCW && !m ==> (r <==> next is MoveCW) && (!r <==> next is MoveCCW)
            &&& state is MoveCW && !m ==> (l <==> next is MoveCCW) && (!l <==> next is MoveCW)
            &&& state is MoveCCW && next is MoveCCW ==> sent.contains(
                Message::MotionMoveBy(30_000),
            )
            &&& state is MoveCW && next is MoveCW ==> sent.contains(
                Message::MotionMoveBy(-30_000i64),
            )
            &&& state != next || !(state is MoveCCW || state is MoveCW) ==> forall|i: int|
                0 <= i < sent.len() ==> !((#[trigger] sent[i]) is MotionMoveBy)
            &&& next is Exit ==> sent == seq![Message::LEDOff]
            &&& state is Enter && next is NotMoving ==> sent == seq![Message::LEDMaintenance]
            &&& next is MoveCCW ==> sent.first() == Message::LEDMaintenanceMovingCCW
            &&& next is MoveCW ==> sent.first() == Message::LEDMaintenanceMovingCW
        }),
{
    let (next, sent) = step_of(state, ctx);
    if sent.len() == 2 {
        assert(sent[1] is MotionMoveBy);
    }
}

/// Flash is trusted unless the last run said that it was not a normal one. A tower that
/// never said either says so from now on, and every start stores the version of its
/// image. The sandbox is what the Admin profile starts, and nothing else is.
pub proof fn a_start_trusts_a_normal_run(
    before: StartupContext,
    begun: Seq<NvsWriteView>,
    profile: Seq<char>,
    site: SiteConstants,
    last_run_normal: Option<u8>,
    after: StartupContext,
    written: Seq<NvsWriteView>,
    r: GuardrailsSwitches,
    image: NvsImage,
)
    requires
        startup_leads(before, begun, profile, site, last_run_normal, after, written, r),
    ensures
        after.trust_nvs_state == Some(last_run_normal != Some(0u8)),
        after.version == before.version,
        image.replayed(written).str_at(NVS_KEY_VERSION@) == Some("1.1.5"@),
        last_run_normal is None ==> image.replayed(written).u8_at(NVS_KEY_LAST_RUN_NORMAL@)
            == Some(1u8),
        last_run_normal is Some ==> image.replayed(written).u8_at(NVS_KEY_LAST_RUN_NORMAL@)
            == image.replayed(begun).u8_at(NVS_KEY_LAST_RUN_NORMAL@),
        after.switchboard is Some,
        after.switchboard->0.runtime.tracking.enabled <==> profile != "Admin"@,
        after.switchboard->0.boot.homing.enabled <==> profile != "Admin"@,
        after.switchboard->0.effects.allow_ota <==> profile != "Admin"@,
        after.switchboard->0.admin.enabled <==> profile == "Admin"@,
        after.switchboard->0.home_heading_deg == site.home_heading_deg,
        after.switchboard->0.device_id == site.device_id,
        r == after.switchboard->0.runtime.guardrails,
{
    replay_appended(image, begun, written);
    reveal_strlit("Admin");
    reveal_strlit("Custom");
    assert("Admin"@.len() == 5);
    assert("Custom"@.len() == 6);
}

/// A profile has one name, and every other name stands for the normal one.
pub proof fn unknown_profiles_are_normal(name: Seq<char>)
    ensures
        Profile::named(name) == Profile::Admin <==> name == "Admin"@,
        Profile::named(name) == Profile::Custom <==> name == "Custom"@,
        Profile::named(name) == Profile::Normal <==> name != "Admin"@ && name != "Custom"@,
{
    reveal_strlit("Admin");
    reveal_strlit("Custom");
    assert("Admin"@.len() == 5);
    assert("Custom"@.len() == 6);
}

} // verus!
