//! The recovery moves at boot, which free a stuck tower.
//!
//! The moves are made as configured, one after another. After each, the encoder can
//! tell whether the tower followed.

use vstd::prelude::*;

use crate::config::switchboard::{RecoveryMoveSpec, RecoverySwitches};
use crate::logic::fsm::motion::context::MotorCommand;

verus! {

/// A run of recovery moves.
#[derive(Debug, Clone, Copy, PartialEq, Eq, Structural)]
pub struct RecoveryRun {
    /// The index of the next move.
    pub next: usize,
    /// Every move that was verified reached its target.
    pub all_ok: bool,
    /// A failed move ended the run.
    pub stopped: bool,
    /// Whether stall detection was on before the run.
    pub prev_stall: bool,
}

/// What became of a move.
#[derive(Debug, Clone, Copy, PartialEq, Eq, Structural)]
pub enum MoveVerdict {
    /// The encoder was not asked.
    Unverified,
    /// The tower reached its target, off by this many ticks.
    Reached { err_ticks: i32 },
    /// The tower missed its target by this many ticks.
    Missed { err_ticks: i32 },
}

/// What follows a run.
#[derive(Debug, Clone, Copy, PartialEq, Eq, Structural)]
pub enum AfterRecovery {
    Continue,
    /// Stay here.
    Idle,
}

/// What the encoder counted around a move, and what it should have counted.
#[derive(Debug, Clone, Copy, PartialEq, Eq, Structural)]
pub struct EncoderReading {
    pub start: i32,
    pub end: i32,
    pub expected_delta: i32,
}

impl EncoderReading {
    pub open spec fn error(self) -> int {
        self.end - self.start - self.expected_delta
    }

    /// The encoder's counts are within what it can count.
    pub open spec fn fits(self) -> bool {
        &&& i32::MIN <= self.end - self.start <= i32::MAX
        &&& i32::MIN < self.error() <= i32::MAX
    }

    /// Whether the count is off by no more than the tolerance.
    pub open spec fn reached(self, tol_ticks: i32) -> bool {
        -tol_ticks <= self.error() <= tol_ticks
    }
}

/// The commands with stall detection set, where a run sets it at all.
pub open spec fn stall_set(
    cfg: RecoverySwitches,
    motor: Seq<MotorCommand>,
    on: bool,
) -> Seq<MotorCommand> {
    if cfg.disable_stall_detection {
        motor.push(MotorCommand::SetStallDetection(on))
    } else {
        motor
    }
}

/// What follows a run that is over.
pub open spec fn after_recovery(cfg: RecoverySwitches) -> AfterRecovery {
    if cfg.stop_after {
        AfterRecovery::Idle
    } else {
        AfterRecovery::Continue
    }
}

impl RecoveryRun {
    pub open spec fn wf(self, cfg: RecoverySwitches) -> bool {
        self.next <= cfg.moves@.len()
    }

    /// The run has a move left to make.
    pub open spec fn pending(self, cfg: RecoverySwitches) -> bool {
        !self.stopped && self.next < cfg.moves@.len()
    }

    /// A run that has made no move yet.
    pub open spec fn begun(prev_stall: bool) -> RecoveryRun {
        RecoveryRun { next: 0, all_ok: true, stopped: false, prev_stall }
    }

    /// The move that is due, if one is.
    pub open spec fn due(self, cfg: RecoverySwitches) -> Option<RecoveryMoveSpec> {
        if self.pending(cfg) {
            Some(cfg.moves@[self.next as int])
        } else {
            None
        }
    }

    /// Begin a run.
    pub fn begin(
        cfg: &RecoverySwitches,
        prev_stall: bool,
        motor: &mut Vec<MotorCommand>,
    ) -> (r: RecoveryRun)
        ensures
            r == RecoveryRun::begun(prev_stall),
            r.wf(*cfg),
            final(motor)@ == stall_set(*cfg, old(motor)@, false),
    {
        if cfg.disable_stall_detection {
            motor.push(MotorCommand::SetStallDetection(false));
        }
        RecoveryRun { next: 0, all_ok: true, stopped: false, prev_stall }
    }

    /// The next move, if there is one.
    pub fn next_move(&self, cfg: &RecoverySwitches) -> (r: Option<RecoveryMoveSpec>)
        ensures
            r == self.due(*cfg),
    {
        if self.stopped || self.next >= cfg.moves.len() {
            return None;
        }
        Some(cfg.moves[self.next])
    }

    /// The verdict on a move.
    pub open spec fn verdict(
        cfg: RecoverySwitches,
        tol_ticks: i32,
        reading: EncoderReading,
    ) -> MoveVerdict {
        if !cfg.verify_with_encoder {
            MoveVerdict::Unverified
        } else if reading.reached(tol_ticks) {
            MoveVerdict::Reached { err_ticks: reading.error() as i32 }
        } else {
            MoveVerdict::Missed { err_ticks: reading.error() as i32 }
        }
    }

    /// The run after a move with that verdict.
    pub open spec fn moved(self, cfg: RecoverySwitches, verdict: MoveVerdict) -> RecoveryRun {
        RecoveryRun {
            next: (self.next + 1) as usize,
            all_ok: self.all_ok && !(verdict is Missed),
            stopped: verdict is Missed && cfg.stop_on_verify_fail,
            prev_stall: self.prev_stall,
        }
    }

    /// Take what the encoder counted around the move that was due.
    pub fn on_move(
        &mut self,
        cfg: &RecoverySwitches,
        tol_ticks: i32,
        reading: EncoderReading,
    ) -> (r: MoveVerdict)
        requires
            old(self).pending(*cfg),
            tol_ticks >= 0,
            cfg.verify_with_encoder ==> reading.fits(),
        ensures
            r == RecoveryRun::verdict(*cfg, tol_ticks, reading),
            *final(self) == old(self).moved(*cfg, r),
            final(self).wf(*cfg),
    {
        let count: usize = cfg.moves.len();
        assert(self.next < count);
        self.next = self.next + 1;
        if !cfg.verify_with_encoder {
            return MoveVerdict::Unverified;
        }
        let err_ticks: i32 = reading.end - reading.start - reading.expected_delta;
        let off: i32 = if err_ticks < 0 {
            -err_ticks
        } else {
            err_ticks
        };
        if off <= tol_ticks {
            return MoveVerdict::Reached { err_ticks };
        }
        self.all_ok = false;
        if cfg.stop_on_verify_fail {
            self.stopped = true;
        }
        MoveVerdict::Missed { err_ticks }
    }

    /// Finish the run: stall detection is put back as it was.
    pub fn finish(&self, cfg: &RecoverySwitches, motor: &mut Vec<MotorCommand>) -> (r:
        AfterRecovery)
        ensures
            final(motor)@ == stall_set(*cfg, old(motor)@, self.prev_stall),
            r == after_recovery(*cfg),
    {
        if cfg.disable_stall_detection {
            motor.push(MotorCommand::SetStallDetection(self.prev_stall));
        }
        if cfg.stop_after {
            AfterRecovery::Idle
        } else {
            AfterRecovery::Continue
        }
    }
}

/// A tower that is to stop when a move fails makes no further move after one that
/// the encoder did not confirm; one that is not to stop goes on to the next.
pub proof fn a_missed_move_ends_the_run(
    run: RecoveryRun,
    cfg: RecoverySwitches,
    tol_ticks: i32,
    reading: EncoderReading,
)
    requires
        run.pending(cfg),
        cfg.moves@.len() <= usize::MAX,
        cfg.verify_with_encoder,
        !reading.reached(tol_ticks),
    ensures
        ({
            let after = run.moved(cfg, RecoveryRun::verdict(cfg, tol_ticks, reading));
            &&& !after.all_ok
            &&& cfg.stop_on_verify_fail ==> !after.pending(cfg)
            &&& !cfg.stop_on_verify_fail ==> (after.pending(cfg) <==> run.next + 1
                < cfg.moves@.len())
        }),
{
}

} // verus!
