//! Restoring the tower's bearings from flash.

use vstd::prelude::*;

use crate::calendar::LocalDate;
use crate::ieee::Single;
use crate::logic::daily_reset::{check_daily_encoder_reset, opt_str_view, reset_writes};
use crate::logic::fsm::motion::context::{
    Effects, EffectsView, MotionContext, MotionInit, MotionState, MotorCommand, StateResult,
};
use crate::logic::types::MotionMode;
use crate::storage::snapshot_store::{
    mode_loaded, push_write, saved_heading, saved_mode, snapshot_loaded, when_persistent, writes,
    NvsWrite, NvsWriteView, SnapshotStore,
};

verus! {

pub const NVS_KEY_TOWER_LATITUDE: &'static str = "tower_latitude";
pub const NVS_KEY_TOWER_LONGITUDE: &'static str = "tower_longitude";

/// The writes that seed the tower's location.
pub open spec fn location_writes(latitude: Seq<char>, longitude: Seq<char>) -> Seq<NvsWriteView> {
    seq![
        NvsWriteView::Str { key: NVS_KEY_TOWER_LATITUDE@, value: latitude },
        NvsWriteView::Str { key: NVS_KEY_TOWER_LONGITUDE@, value: longitude },
    ]
}

/// What flash holds of the tower's bearings.
#[derive(Debug, Clone, Copy)]
pub struct StoredBearings {
    pub tracking_mode: Option<u8>,
    pub heading: Option<u32>,
    pub snapshot_version: Option<u32>,
    pub snapshot_ticks: Option<i32>,
}

impl StoredBearings {
    pub open spec fn mode(self) -> MotionMode {
        mode_loaded(self.tracking_mode, MotionMode::EncoderGuarded)
    }

    /// The encoder position to restore, if there is one to restore: the state must
    /// be trusted and the encoder must guard the moves.
    pub open spec fn snapshot(self, trusted: bool) -> Option<i32> {
        if trusted && self.mode() == MotionMode::EncoderGuarded {
            snapshot_loaded(self.snapshot_version, self.snapshot_ticks)
        } else {
            None
        }
    }

    /// The encoder position to restore, if there is one to restore.
    pub fn to_restore(&self, trusted: bool) -> (r: Option<i32>)
        ensures
            r == self.snapshot(trusted),
    {
        let stepper_only = match self.tracking_mode {
            Some(1) => true,
            _ => false,
        };
        if trusted && !stepper_only {
            SnapshotStore::new(true).load_encoder_snapshot(
                self.snapshot_version,
                self.snapshot_ticks,
            )
        } else {
            None
        }
    }

    /// The heading to believe: the stored one if it is trusted, else home.
    pub open spec fn believed(self, trusted: bool, home: Single) -> Single {
        if trusted && self.heading is Some {
            Single { bits: self.heading->0 }
        } else {
            home
        }
    }

    /// The writes that initialise what was never stored.
    pub open spec fn init_writes(self, trusted: bool, home: Single) -> Seq<NvsWriteView> {
        when_persistent(self.tracking_mode is None, saved_mode(MotionMode::EncoderGuarded))
            + when_persistent(trusted && self.heading is None, saved_heading(home))
    }
}

/// What restoring the bearings leads to.
pub open spec fn init_leads(
    before: MotionContext,
    stored: StoredBearings,
    encoder_raw: i32,
    begun: EffectsView,
    after: MotionContext,
    done: EffectsView,
) -> bool {
    let trusted = before.trust_nvs_state;
    let home = before.switchboard.home_heading_deg;
    let heading = stored.believed(trusted, home);
    let restored = stored.snapshot(trusted);
    &&& after == (MotionContext {
        actual_heading: heading,
        restored_from_snapshot: before.restored_from_snapshot || restored is Some,
        ..before
    })
    &&& done == begun.wrote(stored.init_writes(trusted, home)).motored(
        seq![
            MotorCommand::SetMode(stored.mode()),
            MotorCommand::PowerOn,
            MotorCommand::UpdatePosition(heading),
        ] + (match restored {
            Some(ticks) => seq![
                MotorCommand::SetEncoderZeroOffset((encoder_raw - ticks) as i32),
            ],
            None => Seq::empty(),
        }),
    )
}

impl MotionInit {
    /// Begin: seed the location, and reset the encoder mode if the day has changed.
    ///
    /// The texts are the tower's coordinates in decimal.
    pub fn begin(
        &self,
        latitude: &str,
        longitude: &str,
        daily_mode: Option<u8>,
        stored_date: Option<&str>,
        today: &LocalDate,
        fx: &mut Effects,
    )
        requires
            today.wf(),
        ensures
            final(fx)@ == old(fx)@.wrote(
                location_writes(latitude@, longitude@) + reset_writes(
                    daily_mode,
                    opt_str_view(stored_date),
                    *today,
                    true,
                ),
            ),
    {
        push_write(
            &mut fx.journal,
            NvsWrite::Str { key: NVS_KEY_TOWER_LATITUDE, value: latitude.to_owned() },
        );
        push_write(
            &mut fx.journal,
            NvsWrite::Str { key: NVS_KEY_TOWER_LONGITUDE, value: longitude.to_owned() },
        );
        let _ = check_daily_encoder_reset(daily_mode, stored_date, today, true, &mut fx.journal);
        assert(fx@ =~= old(fx)@.wrote(
            location_writes(latitude@, longitude@) + reset_writes(
                daily_mode,
                opt_str_view(stored_date),
                *today,
                true,
            ),
        ));
    }

    /// Restore mode, heading and encoder position. An encoder position is restored
    /// by moving the encoder's zero, so that it reads what was saved.
    pub fn process(
        &self,
        ctx: &mut MotionContext,
        stored: &StoredBearings,
        encoder_raw: i32,
        fx: &mut Effects,
    ) -> (r: StateResult)
        requires
            stored.snapshot(old(ctx).trust_nvs_state) matches Some(ticks) ==> i32::MIN
                <= encoder_raw - ticks <= i32::MAX,
        ensures
            r == StateResult::Running(MotionState::BeginHoming),
            init_leads(*old(ctx), *stored, encoder_raw, old(fx)@, *final(ctx), final(fx)@),
    {
        let store = SnapshotStore::new(true);
        let mode = store.load_tracking_mode_or_init(
            stored.tracking_mode,
            MotionMode::EncoderGuarded,
            &mut fx.journal,
        );
        fx.motor(MotorCommand::SetMode(mode));
        fx.motor(MotorCommand::PowerOn);
        ctx.actual_heading = if ctx.trust_nvs_state {
            store.load_heading_or_init(
                stored.heading,
                ctx.switchboard.home_heading_deg,
                &mut fx.journal,
            )
        } else {
            ctx.switchboard.home_heading_deg
        };
        fx.motor(MotorCommand::UpdatePosition(ctx.actual_heading));
        let restored = stored.to_restore(ctx.trust_nvs_state);
        match restored {
            Some(ticks) => {
                fx.motor(MotorCommand::SetEncoderZeroOffset(encoder_raw - ticks));
                ctx.restored_from_snapshot = true;
            },
            None => {},
        }
        proof {
            let trusted = old(ctx).trust_nvs_state;
            let home = old(ctx).switchboard.home_heading_deg;
            let commands = seq![
                MotorCommand::SetMode(stored.mode()),
                MotorCommand::PowerOn,
                MotorCommand::UpdatePosition(stored.believed(trusted, home)),
            ] + (match restored {
                Some(ticks) => seq![
                    MotorCommand::SetEncoderZeroOffset((encoder_raw - ticks) as i32),
                ],
                None => Seq::empty(),
            });
            assert(fx@.motor =~= old(fx)@.motor + commands);
            assert(fx@.writes =~= old(fx)@.writes + stored.init_writes(trusted, home));
        }
        StateResult::Running(MotionState::BeginHoming)
    }
}

/// After a restore the encoder reads the position that was saved: what it counts,
/// less the new zero, is the saved position.
pub proof fn a_restored_encoder_reads_what_was_saved(encoder_raw: i32, ticks: i32, zero: i32)
    requires
        zero == encoder_raw - ticks,
    ensures
        encoder_raw - zero == ticks,
{
}

} // verus!
