//! The commands that move a tower, for its installation.
//!
//! Before the limit switch is mounted a tower has no home. The installer turns it to
//! where home is to be, mounts the switch there and commits the place. None of this
//! leaves an encoder position behind, so that the next normal boot homes.

use vstd::prelude::*;

use crate::ieee::Single;
use crate::logic::fsm::motion::context::MotorCommand;
use crate::logic::types::MoveOutcome;
use crate::text::{concat3, same_text};

verus! {

/// The smallest step from one, as the bit pattern of a single-precision value: a
/// move below it is none.
pub const LEAST_MOVE_DEG: u32 = 0x3400_0000;

/// What movement commands go by and what they change.
#[derive(Debug, Clone, Copy)]
pub struct MotionCmdCtx {
    pub install_mode: bool,
    pub tracking_enabled: bool,
    /// How far an installer may turn the tower at once.
    pub install_max_step_deg: Single,
    pub soft_limits_enabled: bool,
    pub soft_limit_min_deg: Single,
    pub soft_limit_max_deg: Single,
    pub home_heading_deg: Single,
    pub actual_heading: Single,
    pub heading_trusted: bool,
    /// The tower is to restart once the reply has gone out.
    pub reboot_requested: bool,
}

/// What a command does to the stored state.
#[derive(Debug, Clone, Copy)]
pub enum StoreAction {
    SaveHeading(Single),
    /// Forget the encoder position.
    ClearEncoderSnapshot,
    /// The installation is over.
    SaveInstallDone,
}

/// What a movement command asks for.
#[derive(Debug, Clone, Copy, PartialEq, Eq, Structural)]
pub enum MotionCommand {
    MoveBy,
    SetHomeHere,
    ExitInstall,
}

pub open spec fn motion_command(cmd: Seq<char>) -> Option<MotionCommand> {
    if cmd == "move_by"@ {
        Some(MotionCommand::MoveBy)
    } else if cmd == "set_home_here"@ {
        Some(MotionCommand::SetHomeHere)
    } else if cmd == "exit_install"@ {
        Some(MotionCommand::ExitInstall)
    } else {
        None
    }
}

/// The movement command of a name.
pub fn dispatch(cmd: &str) -> (r: Option<MotionCommand>)
    ensures
        r == motion_command(cmd@),
{
    if same_text(cmd, "move_by") {
        Some(MotionCommand::MoveBy)
    } else if same_text(cmd, "set_home_here") {
        Some(MotionCommand::SetHomeHere)
    } else if same_text(cmd, "exit_install") {
        Some(MotionCommand::ExitInstall)
    } else {
        None
    }
}

/// The `degrees` of a command: the JSON text, and the number if it is one.
#[derive(Debug)]
pub struct DegreesField {
    pub raw: String,
    pub value: Option<Single>,
}

/// Why `degrees` cannot be used, if they cannot.
pub open spec fn degrees_fault(degrees: Option<DegreesField>) -> Option<Seq<char>> {
    match degrees {
        None => Some("move_by requires a `degrees` field"@),
        Some(field) => match field.value {
            None => Some("`degrees` must be a number (got "@ + field.raw@ + ")"@),
            Some(value) => if !value.finite() {
                Some("`degrees` must be a finite number"@)
            } else if value.rank() == 0 {
                Some("`degrees` must be non-zero"@)
            } else {
                None
            },
        },
    }
}

/// Read `degrees`, or say what is wrong with them.
pub fn parse_degrees(degrees: &Option<DegreesField>) -> (r: Result<Single, String>)
    ensures
        match r {
            Ok(value) => degrees_fault(*degrees) is None && degrees->0.value == Some(value),
            Err(message) => degrees_fault(*degrees) == Some(message@),
        },
{
    match degrees {
        None => Err("move_by requires a `degrees` field".to_owned()),
        Some(field) => match field.value {
            None => Err(
                concat3("`degrees` must be a number (got ", field.raw.as_str(), ")"),
            ),
            Some(value) => {
                if !value.is_finite() {
                    Err("`degrees` must be a finite number".to_owned())
                } else if value.is_zero() {
                    Err("`degrees` must be non-zero".to_owned())
                } else {
                    Ok(value)
                }
            },
        },
    }
}

/// The numbers of a refusal, as texts.
#[derive(Debug, Clone, Copy)]
pub struct BoundTexts<'a> {
    pub requested: &'a str,
    pub cap: &'a str,
    pub heading: &'a str,
    pub min: &'a str,
    pub max: &'a str,
}

impl MotionCmdCtx {
    pub open spec fn may_move(self) -> bool {
        self.install_mode || !self.tracking_enabled
    }

    /// Whether the tower stands still enough to be turned: a tracking tower would
    /// turn back.
    pub fn movement_allowed(&self) -> (r: bool)
        ensures
            r == self.may_move(),
    {
        self.install_mode || !self.tracking_enabled
    }

    /// The heading that a turn to `sum` leads to, within the limits.
    pub fn soft_target(&self, sum: Single) -> (r: Single)
        requires
            self.soft_limit_min_deg.le_spec(self.soft_limit_max_deg),
        ensures
            r == sum.clamp_spec(self.soft_limit_min_deg, self.soft_limit_max_deg),
    {
        sum.clamp(self.soft_limit_min_deg, self.soft_limit_max_deg)
    }

    /// Why a turn is refused, if it is. `limited` is what the limits leave of it.
    pub open spec fn bound_fault(
        self,
        requested: Single,
        limited: Single,
        texts: BoundTexts<'_>,
    ) -> Option<Seq<char>> {
        if !self.heading_trusted {
            if self.install_max_step_deg.lt_spec(requested.abs_spec()) {
                Some(
                    "`degrees` must be within ±"@ + texts.cap@
                        + " while the heading is untrusted (got "@ + texts.requested@ + ")"@,
                )
            } else {
                None
            }
        } else if self.soft_limits_enabled && limited.abs_spec().lt_spec(
            Single { bits: LEAST_MOVE_DEG },
        ) {
            Some(
                "refused: heading "@ + texts.heading@ + " is already at the soft limit ("@
                    + texts.min@ + ".."@ + texts.max@ + ")"@,
            )
        } else {
            None
        }
    }

    /// How much of a turn is permitted: all of it, or what the limits leave where
    /// the heading is trusted and they are on.
    pub open spec fn permitted(self, requested: Single, limited: Single) -> Single {
        if self.heading_trusted && self.soft_limits_enabled {
            limited
        } else {
            requested
        }
    }

    /// What bounding a turn leads to.
    pub open spec fn bound_leads(
        self,
        requested: Single,
        limited: Single,
        texts: BoundTexts<'_>,
        r: Result<Single, String>,
    ) -> bool {
        match r {
            Ok(applied) => self.bound_fault(requested, limited, texts) is None && applied
                == self.permitted(requested, limited),
            Err(message) => self.bound_fault(requested, limited, texts) == Some(message@),
        }
    }

    /// Bound a turn. Without a trusted heading there are no places to keep to, and
    /// the distance is bounded; with one, the limits apply if they are on.
    pub fn bound(&self, requested: Single, limited: Single, texts: &BoundTexts<'_>) -> (r: Result<
        Single,
        String,
    >)
        ensures
            self.bound_leads(requested, limited, *texts, r),
    {
        if !self.heading_trusted {
            if self.install_max_step_deg.lt(requested.abs()) {
                let message = concat3(
                    "`degrees` must be within ±",
                    texts.cap,
                    " while the heading is untrusted (got ",
                );
                return Err(concat3(message.as_str(), texts.requested, ")"));
            }
            return Ok(requested);
        }
        if !self.soft_limits_enabled {
            return Ok(requested);
        }
        if limited.abs().lt(Single { bits: LEAST_MOVE_DEG }) {
            let message = concat3(
                "refused: heading ",
                texts.heading,
                " is already at the soft limit (",
            );
            let message = concat3(message.as_str(), texts.min, "..");
            return Err(concat3(message.as_str(), texts.max, ")"));
        }
        Ok(limited)
    }
}

/// What asking for a turn leads to.
pub open spec fn move_by_leads(
    ctx: MotionCmdCtx,
    degrees: Option<DegreesField>,
    r: Result<Single, String>,
) -> bool {
    match r {
        Ok(value) => ctx.may_move() && degrees_fault(degrees) is None && degrees->0.value == Some(
            value,
        ),
        Err(message) => if !ctx.may_move() {
            message@
                == "refused: tracking is enabled; move_by is only accepted on an Install or Admin image"@
        } else {
            degrees_fault(degrees) == Some(message@)
        },
    }
}

/// Begin a `move_by`: the degrees asked for, or why they are refused.
pub fn move_by(ctx: &MotionCmdCtx, degrees: &Option<DegreesField>) -> (r: Result<Single, String>)
    ensures
        move_by_leads(*ctx, *degrees, r),
{
    if !ctx.movement_allowed() {
        return Err(
            "refused: tracking is enabled; move_by is only accepted on an Install or Admin image".to_owned(),
        );
    }
    parse_degrees(degrees)
}

pub open spec fn turn_commands(
    steps: i64,
    ignore_encoder: bool,
    stall_prev: bool,
) -> Seq<MotorCommand> {
    if ignore_encoder {
        seq![
            MotorCommand::SetStallDetection(false),
            MotorCommand::MoveBy(steps),
            MotorCommand::SetStallDetection(stall_prev),
        ]
    } else {
        seq![MotorCommand::MoveBy(steps)]
    }
}

/// The motor commands of a turn. Where the encoder is to be ignored, stall detection
/// is off for the turn and put back after it.
pub fn move_commands(steps: i64, ignore_encoder: bool, stall_prev: bool) -> (r: Vec<MotorCommand>)
    ensures
        r@ == turn_commands(steps, ignore_encoder, stall_prev),
{
    let mut r: Vec<MotorCommand> = Vec::new();
    if ignore_encoder {
        r.push(MotorCommand::SetStallDetection(false));
    }
    r.push(MotorCommand::MoveBy(steps));
    if ignore_encoder {
        r.push(MotorCommand::SetStallDetection(stall_prev));
        assert(r@ =~= seq![
            MotorCommand::SetStallDetection(false),
            MotorCommand::MoveBy(steps),
            MotorCommand::SetStallDetection(stall_prev),
        ]);
    } else {
        assert(r@ =~= seq![MotorCommand::MoveBy(steps)]);
    }
    r
}

/// The reply to a turn.
#[derive(Debug, Clone, Copy)]
pub struct MoveReply {
    pub requested_degrees: Single,
    pub applied_degrees: Single,
    pub from_heading: Single,
    pub to_heading: Single,
    pub outcome: &'static str,
    pub heading_trusted: bool,
    pub lmsw_active: bool,
    pub guardrails_bypassed: bool,
}

/// A turn that was made.
#[derive(Debug, Clone, Copy)]
pub struct TurnMade {
    pub requested: Single,
    pub applied: Single,
    /// Where the turn leads from the heading before it.
    pub to_heading: Single,
    pub ignore_encoder: bool,
    pub lmsw_active: bool,
}

/// A tower before or after a movement command, with what the command asked of the
/// motor and of the store.
#[verifier::ext_equal]
pub struct CmdState {
    pub ctx: MotionCmdCtx,
    pub motor: Seq<MotorCommand>,
    pub store: Seq<StoreAction>,
}

/// What a turn leads to.
pub open spec fn move_leads(
    before: CmdState,
    outcome: MoveOutcome,
    turn: TurnMade,
    after: CmdState,
    r: MoveReply,
) -> bool {
    let done = outcome@ is Completed;
    &&& after.ctx == (MotionCmdCtx {
        actual_heading: if done {
            turn.to_heading
        } else {
            before.ctx.actual_heading
        },
        ..before.ctx
    })
    &&& after.motor == (if done {
        before.motor.push(MotorCommand::UpdatePosition(turn.to_heading))
    } else {
        before.motor
    })
    &&& after.store == (if done {
        before.store + seq![
            StoreAction::SaveHeading(turn.to_heading),
            StoreAction::ClearEncoderSnapshot,
        ]
    } else {
        before.store
    })
    &&& r.requested_degrees == turn.requested
    &&& r.applied_degrees == turn.applied
    &&& r.from_heading == before.ctx.actual_heading
    &&& r.to_heading == after.ctx.actual_heading
    &&& r.outcome@ == outcome_name(outcome)
    &&& r.heading_trusted == before.ctx.heading_trusted
    &&& r.lmsw_active == turn.lmsw_active
    &&& r.guardrails_bypassed == turn.ignore_encoder
}

/// Finish a `move_by`. Only a completed turn is believed and stored, and it makes
/// the tower forget its encoder position.
pub fn move_finished(
    ctx: &mut MotionCmdCtx,
    outcome: &MoveOutcome,
    turn: &TurnMade,
    motor: &mut Vec<MotorCommand>,
    store: &mut Vec<StoreAction>,
) -> (r: MoveReply)
    ensures
        move_leads(
            (CmdState { ctx: *old(ctx), motor: old(motor)@, store: old(store)@ }),
            *outcome,
            *turn,
            (CmdState { ctx: *final(ctx), motor: final(motor)@, store: final(store)@ }),
            r,
        ),
{
    let from_heading = ctx.actual_heading;
    if outcome.is_completed() {
        ctx.actual_heading = turn.to_heading;
        motor.push(MotorCommand::UpdatePosition(turn.to_heading));
        store.push(StoreAction::SaveHeading(turn.to_heading));
        store.push(StoreAction::ClearEncoderSnapshot);
        assert(store@ =~= old(store)@ + seq![
            StoreAction::SaveHeading(turn.to_heading),
            StoreAction::ClearEncoderSnapshot,
        ]);
    }
    MoveReply {
        requested_degrees: turn.requested,
        applied_degrees: turn.applied,
        from_heading,
        to_heading: ctx.actual_heading,
        outcome: outcome_str(outcome),
        heading_trusted: ctx.heading_trusted,
        lmsw_active: turn.lmsw_active,
        guardrails_bypassed: turn.ignore_encoder,
    }
}

/// The reply to committing home.
#[derive(Debug, Clone, Copy)]
pub struct HomeReply {
    pub heading: Single,
    pub heading_trusted: bool,
    pub lmsw_active: bool,
}

/// What committing home leads to.
pub open spec fn home_leads(
    before: CmdState,
    lmsw_active: bool,
    after: CmdState,
    r: Result<HomeReply, String>,
) -> bool {
    match r {
        Err(message) => {
            &&& !lmsw_active
            &&& message@
                == "refused: limit switch is not pressed — mount it at the intended home position first"@
            &&& after.ctx == before.ctx
            &&& after.motor == before.motor
            &&& after.store == before.store
        },
        Ok(reply) => {
            let home = before.ctx.home_heading_deg;
            &&& lmsw_active
            &&& reply == (HomeReply { heading: home, heading_trusted: true, lmsw_active: true })
            &&& after.ctx == (MotionCmdCtx {
                actual_heading: home,
                heading_trusted: true,
                ..before.ctx
            })
            &&& after.motor == before.motor + seq![
                MotorCommand::ForceZeroIfLimitSwitchPressed,
                MotorCommand::UpdatePosition(home),
            ]
            &&& after.store == before.store + seq![
                StoreAction::SaveHeading(home),
                StoreAction::ClearEncoderSnapshot,
            ]
        },
    }
}

/// Commit the place where the tower stands as home, which takes the limit switch to
/// be pressed there.
pub fn set_home_here(
    ctx: &mut MotionCmdCtx,
    lmsw_active: bool,
    motor: &mut Vec<MotorCommand>,
    store: &mut Vec<StoreAction>,
) -> (r: Result<HomeReply, String>)
    ensures
        home_leads(
            (CmdState { ctx: *old(ctx), motor: old(motor)@, store: old(store)@ }),
            lmsw_active,
            (CmdState { ctx: *final(ctx), motor: final(motor)@, store: final(store)@ }),
            r,
        ),
{
    if !lmsw_active {
        return Err(
            "refused: limit switch is not pressed — mount it at the intended home position first".to_owned(),
        );
    }
    let home = ctx.home_heading_deg;
    motor.push(MotorCommand::ForceZeroIfLimitSwitchPressed);
    ctx.actual_heading = home;
    motor.push(MotorCommand::UpdatePosition(home));
    ctx.heading_trusted = true;
    store.push(StoreAction::SaveHeading(home));
    store.push(StoreAction::ClearEncoderSnapshot);
    assert(motor@ =~= old(motor)@ + seq![
        MotorCommand::ForceZeroIfLimitSwitchPressed,
        MotorCommand::UpdatePosition(home),
    ]);
    assert(store@ =~= old(store)@ + seq![
        StoreAction::SaveHeading(home),
        StoreAction::ClearEncoderSnapshot,
    ]);
    Ok(HomeReply { heading: home, heading_trusted: true, lmsw_active: true })
}

/// The reply to the end of an installation.
#[derive(Debug, Clone, Copy)]
pub struct ExitReply {
    pub lmsw_active: bool,
    pub note: &'static str,
}

pub open spec fn exit_note(lmsw_active: bool) -> Seq<char> {
    if lmsw_active {
        "limit switch is pressed; Normal boot should find home immediately"@
    } else {
        "limit switch is not pressed; Normal boot will sweep ~350° (~40 min) looking for it"@
    }
}

/// What ending an installation leads to.
pub open spec fn exit_leads(
    before: MotionCmdCtx,
    store: Seq<StoreAction>,
    lmsw_active: bool,
    after: MotionCmdCtx,
    stored: Seq<StoreAction>,
    r: Result<ExitReply, String>,
) -> bool {
    match r {
        Err(message) => {
            &&& !before.install_mode
            &&& message@ == "refused: not an Install image"@
            &&& after == before
            &&& stored == store
        },
        Ok(reply) => {
            &&& before.install_mode
            &&& reply.lmsw_active == lmsw_active
            &&& reply.note@ == exit_note(lmsw_active)
            &&& after == (MotionCmdCtx { reboot_requested: true, ..before })
            &&& stored == store.push(StoreAction::SaveInstallDone)
        },
    }
}

/// End an installation: the next boot is a normal one, and it is asked for. There is
/// no way back.
pub fn exit_install(ctx: &mut MotionCmdCtx, lmsw_active: bool, store: &mut Vec<StoreAction>) -> (r:
    Result<ExitReply, String>)
    ensures
        exit_leads(*old(ctx), old(store)@, lmsw_active, *final(ctx), final(store)@, r),
{
    if !ctx.install_mode {
        return Err("refused: not an Install image".to_owned());
    }
    store.push(StoreAction::SaveInstallDone);
    ctx.reboot_requested = true;
    let note = if lmsw_active {
        "limit switch is pressed; Normal boot should find home immediately"
    } else {
        "limit switch is not pressed; Normal boot will sweep ~350° (~40 min) looking for it"
    };
    Ok(ExitReply { lmsw_active, note })
}

pub open spec fn outcome_name(outcome: MoveOutcome) -> Seq<char> {
    match outcome {
        MoveOutcome::Completed => "completed"@,
        MoveOutcome::AbortedPowerMissing => "aborted_power_missing"@,
        MoveOutcome::AbortedStall => "aborted_stall"@,
        MoveOutcome::AbortedOvershoot => "aborted_overshoot"@,
        MoveOutcome::AbortedErrorLoop(_) => "aborted_error_loop"@,
    }
}

/// The name under which telemetry reports an outcome.
pub fn outcome_str(outcome: &MoveOutcome) -> (r: &'static str)
    ensures
        r@ == outcome_name(*outcome),
{
    match outcome {
        MoveOutcome::Completed => "completed",
        MoveOutcome::AbortedPowerMissing => "aborted_power_missing",
        MoveOutcome::AbortedStall => "aborted_stall",
        MoveOutcome::AbortedOvershoot => "aborted_overshoot",
        MoveOutcome::AbortedErrorLoop(_) => "aborted_error_loop",
    }
}

/// A tower without a trusted heading is never turned further than an installer may
/// turn it at once, unless the request is refused.
pub proof fn an_untrusted_turn_is_bounded(
    ctx: MotionCmdCtx,
    requested: Single,
    limited: Single,
    texts: BoundTexts<'_>,
)
    requires
        !ctx.heading_trusted,
        ctx.bound_fault(requested, limited, texts) is None,
        requested.finite(),
        !ctx.install_max_step_deg.nan(),
    ensures
        ctx.permitted(requested, limited).abs_spec().le_spec(ctx.install_max_step_deg),
{
}

/// With a trusted heading and the limits on, a turn ends within them.
pub proof fn a_trusted_turn_stays_within_the_limits(ctx: MotionCmdCtx, sum: Single)
    requires
        ctx.soft_limit_min_deg.le_spec(ctx.soft_limit_max_deg),
        !sum.nan(),
    ensures
        ({
            let target = sum.clamp_spec(ctx.soft_limit_min_deg, ctx.soft_limit_max_deg);
            ctx.soft_limit_min_deg.le_spec(target) && target.le_spec(ctx.soft_limit_max_deg)
        }),
{
}

} // verus!
