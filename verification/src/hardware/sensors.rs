//! The sensors that more than one machine reads, and the lock that they share.

use vstd::prelude::*;

use crate::diagnostics::probes::HDC1080_DEVICE_ID;

verus! {

/// How long to wait between tries to take the lock, in milliseconds.
pub const LOCK_RETRY_MS: u64 = 5;

/// How a try to take the lock ended.
#[derive(Debug, Clone, Copy, PartialEq, Eq, Structural)]
pub enum LockAttempt {
    Acquired,
    /// Whoever held the lock panicked.
    Poisoned,
    WouldBlock,
}

/// What follows a try to take the lock.
#[derive(Debug, Clone, Copy, PartialEq, Eq, Structural)]
pub enum LockStep {
    /// The lock is taken. A reader that panicked left a sensor in the middle of a
    /// sequence at worst, and the next read puts that right.
    Take,
    /// Something else is using the sensors.
    GiveUp,
    Retry { after_ms: u64 },
}

pub open spec fn lock_step(attempt: LockAttempt, now: u64, deadline: u64) -> LockStep {
    match attempt {
        LockAttempt::Acquired => LockStep::Take,
        LockAttempt::Poisoned => LockStep::Take,
        LockAttempt::WouldBlock => if now >= deadline {
            LockStep::GiveUp
        } else {
            LockStep::Retry { after_ms: LOCK_RETRY_MS }
        },
    }
}

/// Decide what follows a try to take the lock that ended at `now`.
pub fn lock(attempt: LockAttempt, now: u64, deadline: u64) -> (r: LockStep)
    ensures
        r == lock_step(attempt, now, deadline),
{
    match attempt {
        LockAttempt::Acquired => LockStep::Take,
        LockAttempt::Poisoned => LockStep::Take,
        LockAttempt::WouldBlock => {
            if now >= deadline {
                LockStep::GiveUp
            } else {
                LockStep::Retry { after_ms: LOCK_RETRY_MS }
            }
        },
    }
}

/// Waiting for the lock is bounded: once the deadline has passed, no try leads to
/// another.
pub proof fn waiting_for_the_lock_ends(attempt: LockAttempt, now: u64, deadline: u64)
    requires
        now >= deadline,
    ensures
        !(lock_step(attempt, now, deadline) is Retry),
{
}

/// Whether an id is that of the temperature sensor.
pub open spec fn is_sensor(device_id: Option<u16>) -> bool {
    device_id == Some(HDC1080_DEVICE_ID)
}

/// Whether the temperature sensor is fitted: it answers with its own id. One that
/// does not answer at all is not.
pub fn sensor_detected(device_id: Option<u16>) -> (r: bool)
    ensures
        r == is_sensor(device_id),
{
    match device_id {
        Some(id) => id == HDC1080_DEVICE_ID,
        None => false,
    }
}

} // verus!
