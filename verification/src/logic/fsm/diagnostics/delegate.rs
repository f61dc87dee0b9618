//! Where a command goes when the diagnostics machine cannot answer it itself.

use vstd::prelude::*;

use crate::diagnostics::command::CommandNeeds;
use crate::logic::fsm::mail::FSMAddress;

verus! {

pub const LED_BUDGET: u64 = 3_000_000_000;
pub const MOTOR_BUDGET: u64 = 3_900_000_000_000;
pub const DEFAULT_BUDGET: u64 = 5_000_000_000;

pub open spec fn owner_of(needs: CommandNeeds) -> Option<FSMAddress> {
    match needs {
        CommandNeeds::StatusLed => Some(FSMAddress::Led),
        CommandNeeds::Motor => Some(FSMAddress::Motion),
        _ => None,
    }
}

/// Which machine owns the hardware that a command touches, if any does.
pub fn owner(needs: CommandNeeds) -> (r: Option<FSMAddress>)
    ensures
        r == owner_of(needs),
{
    match needs {
        CommandNeeds::StatusLed => Some(FSMAddress::Led),
        CommandNeeds::Motor => Some(FSMAddress::Motion),
        _ => None,
    }
}

pub open spec fn budget_of(needs: CommandNeeds) -> u64 {
    match needs {
        CommandNeeds::StatusLed => LED_BUDGET,
        CommandNeeds::Motor => MOTOR_BUDGET,
        _ => DEFAULT_BUDGET,
    }
}

/// How long to wait for that machine, in nanoseconds. Bounded for every command: a
/// machine that never answers must not hold the console.
pub fn reply_budget(needs: CommandNeeds) -> (r: u64)
    ensures
        r == budget_of(needs),
        r <= MOTOR_BUDGET,
{
    match needs {
        CommandNeeds::StatusLed => LED_BUDGET,
        CommandNeeds::Motor => MOTOR_BUDGET,
        _ => DEFAULT_BUDGET,
    }
}

pub open spec fn name_of(address: FSMAddress) -> Seq<char> {
    match address {
        FSMAddress::Motion => "motion"@,
        FSMAddress::Network => "network"@,
        FSMAddress::Buttons => "buttons"@,
        FSMAddress::Led => "LED"@,
        FSMAddress::Diagnostics => "diagnostics"@,
    }
}

/// The machine's name in messages to a technician.
pub fn owner_name(address: FSMAddress) -> (r: &'static str)
    ensures
        r@ == name_of(address),
{
    match address {
        FSMAddress::Motion => "motion",
        FSMAddress::Network => "network",
        FSMAddress::Buttons => "buttons",
        FSMAddress::Led => "LED",
        FSMAddress::Diagnostics => "diagnostics",
    }
}

} // verus!
