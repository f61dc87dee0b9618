//! What the commands of an installation may and may not do.

use vstd::prelude::*;

use crate::diagnostics::motion_commands::{
    exit_leads, home_leads, motion_command, move_by_leads, move_leads, turn_commands, BoundTexts,
    CmdState, DegreesField, ExitReply, HomeReply, MotionCmdCtx, MotionCommand, MoveReply,
    StoreAction, TurnMade,
};
use crate::ieee::Single;
use crate::logic::fsm::motion::context::MotorCommand;
use crate::logic::types::MoveOutcome;

verus! {

/// With a trusted heading and the limits on, a turn is refused exactly where what the
/// limits leave of it is smaller than the least move, whichever way it goes, and else
/// that much of it is made.
pub proof fn a_limited_turn_is_refused_only_where_nothing_is_left(
    ctx: MotionCmdCtx,
    requested: Single,
    limited: Single,
    texts: BoundTexts<'_>,
    r: Result<Single, String>,
)
    requires
        ctx.bound_leads(requested, limited, texts, r),
        ctx.heading_trusted,
        ctx.soft_limits_enabled,
    ensures
        r is Err <==> limited.magnitude() < 0x3400_0000,
        r matches Ok(applied) ==> applied == limited,
{
}

/// With a trusted heading and the limits off every turn is made as it was asked for.
pub proof fn an_unlimited_turn_is_made(
    ctx: MotionCmdCtx,
    requested: Single,
    limited: Single,
    texts: BoundTexts<'_>,
    r: Result<Single, String>,
)
    requires
        ctx.bound_leads(requested, limited, texts, r),
        ctx.heading_trusted,
        !ctx.soft_limits_enabled,
    ensures
        r == Ok::<Single, String>(requested),
{
}

/// Without a trusted heading a turn is refused exactly where it is larger than an
/// installer may turn the tower at once, whichever way it goes and whatever the limits
/// are, and else it is made as it was asked for.
pub proof fn a_blind_turn_is_refused_only_beyond_the_step(
    ctx: MotionCmdCtx,
    requested: Single,
    limited: Single,
    texts: BoundTexts<'_>,
    r: Result<Single, String>,
)
    requires
        ctx.bound_leads(requested, limited, texts, r),
        !ctx.heading_trusted,
        !requested.nan(),
        !ctx.install_max_step_deg.nan(),
    ensures
        r is Err <==> requested.magnitude() > ctx.install_max_step_deg.rank(),
        r matches Ok(applied) ==> applied == requested,
{
}

/// The verdict on a turn is that on its mirror image, and a turn and its mirror image
/// are made by as much.
pub proof fn turns_are_judged_by_their_size(
    ctx: MotionCmdCtx,
    requested: Single,
    limited: Single,
    texts: (BoundTexts<'_>, BoundTexts<'_>),
    r: (Result<Single, String>, Result<Single, String>),
)
    requires
        ctx.bound_leads(requested, limited, texts.0, r.0),
        ctx.bound_leads(requested.neg_spec(), limited.neg_spec(), texts.1, r.1),
    ensures
        r.0 is Ok <==> r.1 is Ok,
        r.0 is Ok ==> r.0->Ok_0.magnitude() == r.1->Ok_0.magnitude(),
        r.0 is Ok && r.0->Ok_0.magnitude() != 0 ==> r.0->Ok_0.bits != r.1->Ok_0.bits,
{
}

/// A turn can be asked for exactly of a tower that does not track, or that is being
/// installed, and by degrees that are a number, finite and not zero.
pub proof fn a_turn_takes_a_still_tower_and_degrees(
    ctx: MotionCmdCtx,
    degrees: Option<DegreesField>,
    r: Result<Single, String>,
)
    requires
        move_by_leads(ctx, degrees, r),
    ensures
        r is Ok <==> {
            &&& ctx.install_mode || !ctx.tracking_enabled
            &&& degrees is Some && degrees->0.value is Some
            &&& 0 < degrees->0.value->0.magnitude() < 0x7F80_0000
        },
        r matches Ok(value) ==> degrees->0.value == Some(value),
{
}

/// Every turn moves the motor once, by its steps. Where the encoder is ignored, stall
/// detection is off for the move and afterwards as it was; else it is not touched.
pub proof fn stall_detection_is_put_back(steps: i64, ignore_encoder: bool, stall_prev: bool)
    ensures
        ({
            let commands = turn_commands(steps, ignore_encoder, stall_prev);
            &&& ignore_encoder ==> {
                &&& commands.first() == MotorCommand::SetStallDetection(false)
                &&& commands[1] == MotorCommand::MoveBy(steps)
                &&& commands.last() == MotorCommand::SetStallDetection(stall_prev)
                &&& commands.len() == 3
            }
            &&& !ignore_encoder ==> commands.len() == 1 && commands[0] == MotorCommand::MoveBy(
                steps,
            )
        }),
{
}

/// Only a completed turn is believed: the heading, the motor and the store take the
/// place that it led to, and the encoder position is forgotten. Any other leaves them
/// alone. Whether the heading is trusted does not change, and no restart is asked for.
pub proof fn only_a_completed_turn_is_believed(
    before: CmdState,
    outcome: MoveOutcome,
    turn: TurnMade,
    after: CmdState,
    r: MoveReply,
)
    requires
        move_leads(before, outcome, turn, after, r),
    ensures
        outcome is Completed ==> {
            &&& after.ctx.actual_heading == turn.to_heading
            &&& after.motor == before.motor.push(MotorCommand::UpdatePosition(turn.to_heading))
            &&& after.store == before.store.push(StoreAction::SaveHeading(turn.to_heading)).push(
                StoreAction::ClearEncoderSnapshot,
            )
        },
        !(outcome is Completed) ==> {
            &&& after.ctx.actual_heading == before.ctx.actual_heading
            &&& after.motor == before.motor
            &&& after.store == before.store
        },
        after.ctx.heading_trusted == before.ctx.heading_trusted,
        after.ctx.reboot_requested == before.ctx.reboot_requested,
        r.from_heading == before.ctx.actual_heading && r.to_heading == after.ctx.actual_heading,
        r.requested_degrees == turn.requested && r.applied_degrees == turn.applied,
        r.guardrails_bypassed == turn.ignore_encoder,
        r.heading_trusted == before.ctx.heading_trusted,
        r.outcome@ == "completed"@ <==> outcome is Completed,
{
    reveal_strlit("completed");
    reveal_strlit("aborted_power_missing");
    reveal_strlit("aborted_stall");
    reveal_strlit("aborted_overshoot");
    reveal_strlit("aborted_error_loop");
    assert("completed"@[0] == 'c');
    assert("aborted_power_missing"@[0] == 'a');
    assert("aborted_stall"@[0] == 'a');
    assert("aborted_overshoot"@[0] == 'a');
    assert("aborted_error_loop"@[0] == 'a');
}

/// Home is committed exactly where the limit switch is pressed. The heading is then
/// home and trusted, the encoder is zeroed against the switch before the motor takes
/// the position, and the store holds home and no encoder position; a refusal changes
/// nothing.
pub proof fn home_is_committed_only_at_the_switch(
    before: CmdState,
    lmsw_active: bool,
    after: CmdState,
    r: Result<HomeReply, String>,
)
    requires
        home_leads(before, lmsw_active, after, r),
    ensures
        r is Ok <==> lmsw_active,
        r is Err ==> after == before,
        r matches Ok(reply) ==> {
            let home = before.ctx.home_heading_deg;
            &&& reply.heading == home && reply.heading_trusted && reply.lmsw_active
            &&& after.ctx.actual_heading == home && after.ctx.heading_trusted
            &&& after.ctx.home_heading_deg == home
            &&& after.ctx.reboot_requested == before.ctx.reboot_requested
            &&& after.motor == before.motor.push(
                MotorCommand::ForceZeroIfLimitSwitchPressed,
            ).push(MotorCommand::UpdatePosition(home))
            &&& after.store == before.store.push(StoreAction::SaveHeading(home)).push(
                StoreAction::ClearEncoderSnapshot,
            )
        },
{
}

/// No command of an installation leaves an encoder position behind: whenever one stores
/// a heading, the last thing it does to the store is to forget the encoder position.
pub proof fn an_installation_leaves_no_encoder_position(
    before: CmdState,
    outcome: MoveOutcome,
    turn: TurnMade,
    lmsw_active: bool,
    after: CmdState,
    moved: MoveReply,
    homed: Result<HomeReply, String>,
)
    requires
        move_leads(before, outcome, turn, after, moved) || home_leads(
            before,
            lmsw_active,
            after,
            homed,
        ),
    ensures
        after.store == before.store || (after.store.len() == before.store.len() + 2
            && after.store.last() is ClearEncoderSnapshot && after.store[before.store.len() as int]
            is SaveHeading),
{
}

/// An installation can be ended exactly on an Install image, whatever the switch says;
/// that asks for a restart and marks the installation as done, and a refusal does
/// neither.
pub proof fn only_an_installation_can_be_ended(
    before: MotionCmdCtx,
    store: Seq<StoreAction>,
    lmsw_active: bool,
    after: MotionCmdCtx,
    stored: Seq<StoreAction>,
    r: Result<ExitReply, String>,
)
    requires
        exit_leads(before, store, lmsw_active, after, stored, r),
    ensures
        r is Ok <==> before.install_mode,
        r is Ok ==> after.reboot_requested && stored == store.push(StoreAction::SaveInstallDone)
            && r->Ok_0.lmsw_active == lmsw_active,
        r is Ok && lmsw_active ==> r->Ok_0.note@
            == "limit switch is pressed; Normal boot should find home immediately"@,
        r is Ok && !lmsw_active ==> r->Ok_0.note@
            == "limit switch is not pressed; Normal boot will sweep ~350° (~40 min) looking for it"@,
        r is Err ==> after == before && stored == store,
        after.actual_heading == before.actual_heading,
        after.heading_trusted == before.heading_trusted,
{
}

/// Each movement command has one name, and no other name is one.
pub proof fn movement_commands_have_one_name_each(cmd: Seq<char>)
    ensures
        motion_command(cmd) == Some(MotionCommand::MoveBy) <==> cmd == "move_by"@,
        motion_command(cmd) == Some(MotionCommand::SetHomeHere) <==> cmd == "set_home_here"@,
        motion_command(cmd) == Some(MotionCommand::ExitInstall) <==> cmd == "exit_install"@,
{
    reveal_strlit("move_by");
    reveal_strlit("set_home_here");
    reveal_strlit("exit_install");
    assert("move_by"@.len() == 7);
    assert("set_home_here"@.len() == 13);
    assert("exit_install"@.len() == 12);
}

} // verus!
