//! The buttons on the tower.

use vstd::prelude::*;

use crate::logic::fsm::mail::{
    outbox_view, send, FSMAddress, FSMCommand, Mail, MailView, Message,
};

verus! {

/// Which buttons are down.
#[derive(Debug, Clone, Copy, PartialEq, Eq, Structural)]
pub struct ButtonLevels {
    pub maintenance: bool,
    pub ccw: bool,
    pub cw: bool,
}

/// Which buttons were down at the last look.
#[derive(Debug, Clone, Copy, PartialEq, Eq, Structural)]
pub struct ButtonsContext {
    pub last_maintenance_pressed: bool,
    pub last_ccw_pressed: bool,
    pub last_cw_pressed: bool,
}

impl ButtonsContext {
    pub fn new() -> (r: Self)
        ensures
            !r.last_maintenance_pressed && !r.last_ccw_pressed && !r.last_cw_pressed,
    {
        ButtonsContext {
            last_maintenance_pressed: false,
            last_ccw_pressed: false,
            last_cw_pressed: false,
        }
    }
}

pub open spec fn to_motion(message: Message) -> MailView {
    MailView { to: FSMAddress::Motion, message }
}

/// The messages of one look: one for every button that went down since the last.
pub open spec fn presses(ctx: ButtonsContext, levels: ButtonLevels) -> Seq<MailView> {
    let a: Seq<MailView> = if levels.maintenance && !ctx.last_maintenance_pressed {
        seq![to_motion(Message::MaintenancePressed)]
    } else {
        Seq::empty()
    };
    let b: Seq<MailView> = if levels.ccw && !ctx.last_ccw_pressed {
        seq![to_motion(Message::CCWPressed)]
    } else {
        Seq::empty()
    };
    let c: Seq<MailView> = if levels.cw && !ctx.last_cw_pressed {
        seq![to_motion(Message::CWPressed)]
    } else {
        Seq::empty()
    };
    a + b + c
}

/// What the context remembers after a look.
pub open spec fn seen(levels: ButtonLevels) -> ButtonsContext {
    ButtonsContext {
        last_maintenance_pressed: levels.maintenance,
        last_ccw_pressed: levels.ccw,
        last_cw_pressed: levels.cw,
    }
}

/// The only state of the buttons machine.
#[derive(Debug, Clone, Copy)]
pub struct ButtonsCheckPressed;

impl ButtonsCheckPressed {
    /// Tell the motion machine about every button that went down.
    pub fn process(&self, ctx: &mut ButtonsContext, levels: ButtonLevels, outbox: &mut Vec<Mail>)
        ensures
            *final(ctx) == seen(levels),
            outbox_view(final(outbox)@) == outbox_view(old(outbox)@) + presses(
                *old(ctx),
                levels,
            ),
    {
        if levels.maintenance && !ctx.last_maintenance_pressed {
            send(outbox, FSMAddress::Motion, FSMCommand::MaintenancePressed);
        }
        if levels.ccw && !ctx.last_ccw_pressed {
            send(outbox, FSMAddress::Motion, FSMCommand::CCWPressed);
        }
        if levels.cw && !ctx.last_cw_pressed {
            send(outbox, FSMAddress::Motion, FSMCommand::CWPressed);
        }
        assert(outbox_view(outbox@) =~= outbox_view(old(outbox)@) + presses(*old(ctx), levels));
        ctx.last_maintenance_pressed = levels.maintenance;
        ctx.last_ccw_pressed = levels.ccw;
        ctx.last_cw_pressed = levels.cw;
    }
}

/// The mail of a run of looks.
pub open spec fn presses_over(ctx: ButtonsContext, looks: Seq<ButtonLevels>) -> Seq<MailView>
    decreases looks.len(),
{
    if looks.len() == 0 {
        Seq::empty()
    } else {
        presses_over(ctx, looks.drop_last()) + presses(
            if looks.len() == 1 {
                ctx
            } else {
                seen(looks[looks.len() - 2])
            },
            looks.last(),
        )
    }
}

/// A button that is held down is reported once, however long it is held.
pub proof fn a_held_button_is_reported_once(levels: ButtonLevels, looks: Seq<ButtonLevels>)
    requires
        forall|i: int| 0 <= i < looks.len() ==> #[trigger] looks[i] == levels,
    ensures
        presses_over(seen(levels), looks) == Seq::<MailView>::empty(),
    decreases looks.len(),
{
    if looks.len() > 0 {
        let rest = looks.drop_last();
        assert forall|i: int| 0 <= i < rest.len() implies #[trigger] rest[i] == levels by {
            assert(rest[i] == looks[i]);
        }
        a_held_button_is_reported_once(levels, rest);
        assert(looks[looks.len() - 1] == levels);
        if looks.len() > 1 {
            assert(looks[looks.len() - 2] == levels);
        }
        assert(presses(seen(levels), levels) =~= Seq::<MailView>::empty());
        assert(presses_over(seen(levels), looks) =~= Seq::<MailView>::empty());
    }
}

/// A press is reported exactly where a button is down that was up before.
pub proof fn a_new_press_is_reported(ctx: ButtonsContext, levels: ButtonLevels)
    ensures
        presses(ctx, levels).contains(to_motion(Message::MaintenancePressed)) <==> levels.maintenance
            && !ctx.last_maintenance_pressed,
        presses(ctx, levels).contains(to_motion(Message::CCWPressed)) <==> levels.ccw
            && !ctx.last_ccw_pressed,
        presses(ctx, levels).contains(to_motion(Message::CWPressed)) <==> levels.cw
            && !ctx.last_cw_pressed,
{
    let p = presses(ctx, levels);
    let m: int = if levels.maintenance && !ctx.last_maintenance_pressed {
        1
    } else {
        0
    };
    let c: int = if levels.ccw && !ctx.last_ccw_pressed {
        1
    } else {
        0
    };
    if m == 1 {
        assert(p[0] == to_motion(Message::MaintenancePressed));
    }
    if c == 1 {
        assert(p[m] == to_motion(Message::CCWPressed));
    }
    if levels.cw && !ctx.last_cw_pressed {
        assert(p[m + c] == to_motion(Message::CWPressed));
    }
}

} // verus!
