//! Why the last reboot happened.

use vstd::prelude::*;

verus! {

#[derive(Debug, Clone, Copy, PartialEq, Eq, Structural)]
pub enum ResetReason {
    /// Cause could not be determined.
    Unknown,
    /// Cold boot: supply was removed and restored.
    PowerOn,
    /// Reset pin was asserted.
    External,
    /// Deliberate restart, as after an update.
    Software,
    /// Firmware panicked.
    Panic,
    /// Interrupt watchdog: interrupts were disabled for too long.
    InterruptWdt,
    /// Task watchdog: a registered task stopped feeding it.
    TaskWdt,
    /// Another watchdog fired.
    OtherWdt,
    /// Woke from deep sleep.
    DeepSleep,
    /// Supply voltage sagged below the brownout threshold.
    Brownout,
    /// SDIO reset.
    Sdio,
}

impl ResetReason {
    pub open spec fn id(self) -> Seq<char> {
        match self {
            ResetReason::Unknown => "unknown"@,
            ResetReason::PowerOn => "power_on"@,
            ResetReason::External => "external"@,
            ResetReason::Software => "software"@,
            ResetReason::Panic => "panic"@,
            ResetReason::InterruptWdt => "interrupt_watchdog"@,
            ResetReason::TaskWdt => "task_watchdog"@,
            ResetReason::OtherWdt => "watchdog"@,
            ResetReason::DeepSleep => "deep_sleep"@,
            ResetReason::Brownout => "brownout"@,
            ResetReason::Sdio => "sdio"@,
        }
    }

    pub open spec fn is_watchdog(self) -> bool {
        self == ResetReason::TaskWdt || self == ResetReason::InterruptWdt || self
            == ResetReason::OtherWdt
    }

    pub open spec fn unexpected(self) -> bool {
        self.is_watchdog() || self == ResetReason::Panic || self == ResetReason::Brownout || self
            == ResetReason::Unknown
    }

    pub open spec fn message_text(self) -> Seq<char> {
        match self {
            ResetReason::Software => "Tower rebooted after a firmware-initiated restart"@,
            ResetReason::PowerOn => "Tower rebooted after losing power"@,
            ResetReason::Brownout => "Tower rebooted after a supply voltage brownout"@,
            ResetReason::Panic => "Tower rebooted after a firmware panic"@,
            ResetReason::External => "Tower rebooted from an external reset"@,
            ResetReason::DeepSleep => "Tower woke from deep sleep"@,
            ResetReason::Sdio => "Tower rebooted from an SDIO reset"@,
            ResetReason::Unknown => "Tower rebooted for an unknown reason"@,
            _ => "Tower rebooted after a watchdog timeout"@,
        }
    }

    pub open spec fn notes_text(self) -> Seq<char> {
        match self {
            ResetReason::Software => "Deliberate restart, e.g. completing an OTA update."@,
            ResetReason::PowerOn => "Supply was removed and restored; site power is the likely cause."@,
            ResetReason::Brownout => "Supply dipped below the brownout threshold; check the tower's power rail under motor load."@,
            ResetReason::Panic => "Firmware hit an unrecoverable error and rebooted."@,
            ResetReason::External => "Reset pin asserted, e.g. a manual reset or a debug probe."@,
            ResetReason::DeepSleep => "Scheduled wake from deep sleep."@,
            ResetReason::Sdio => "SDIO peripheral triggered the reset."@,
            ResetReason::Unknown => "Reset cause could not be determined."@,
            _ => "Firmware stopped responding and the watchdog reset it."@,
        }
    }

    /// Stable identifier for dashboards and log filters.
    pub fn as_str(&self) -> (r: &'static str)
        ensures
            r@ == self.id(),
    {
        match self {
            ResetReason::Unknown => "unknown",
            ResetReason::PowerOn => "power_on",
            ResetReason::External => "external",
            ResetReason::Software => "software",
            ResetReason::Panic => "panic",
            ResetReason::InterruptWdt => "interrupt_watchdog",
            ResetReason::TaskWdt => "task_watchdog",
            ResetReason::OtherWdt => "watchdog",
            ResetReason::DeepSleep => "deep_sleep",
            ResetReason::Brownout => "brownout",
            ResetReason::Sdio => "sdio",
        }
    }

    /// True when the tower did not restart on purpose. `Software` is left out
    /// because that is how an update reboots.
    pub fn is_unexpected(&self) -> (r: bool)
        ensures
            r == self.unexpected(),
    {
        matches!(
            self,
            ResetReason::Panic | ResetReason::InterruptWdt | ResetReason::TaskWdt
                | ResetReason::OtherWdt | ResetReason::Brownout | ResetReason::Unknown
        )
    }

    /// Headline for the boot log.
    pub fn boot_message(&self) -> (r: &'static str)
        ensures
            r@ == self.message_text(),
    {
        match self {
            ResetReason::Software => "Tower rebooted after a firmware-initiated restart",
            ResetReason::PowerOn => "Tower rebooted after losing power",
            ResetReason::Brownout => "Tower rebooted after a supply voltage brownout",
            ResetReason::Panic => "Tower rebooted after a firmware panic",
            ResetReason::TaskWdt => "Tower rebooted after a watchdog timeout",
            ResetReason::InterruptWdt => "Tower rebooted after a watchdog timeout",
            ResetReason::OtherWdt => "Tower rebooted after a watchdog timeout",
            ResetReason::External => "Tower rebooted from an external reset",
            ResetReason::DeepSleep => "Tower woke from deep sleep",
            ResetReason::Sdio => "Tower rebooted from an SDIO reset",
            ResetReason::Unknown => "Tower rebooted for an unknown reason",
        }
    }

    /// Operator-facing detail: what the cause implies about the tower.
    pub fn boot_notes(&self) -> (r: &'static str)
        ensures
            r@ == self.notes_text(),
    {
        match self {
            ResetReason::Software => "Deliberate restart, e.g. completing an OTA update.",
            ResetReason::PowerOn => "Supply was removed and restored; site power is the likely cause.",
            ResetReason::Brownout => "Supply dipped below the brownout threshold; check the tower's power rail under motor load.",
            ResetReason::Panic => "Firmware hit an unrecoverable error and rebooted.",
            ResetReason::TaskWdt => "Firmware stopped responding and the watchdog reset it.",
            ResetReason::InterruptWdt => "Firmware stopped responding and the watchdog reset it.",
            ResetReason::OtherWdt => "Firmware stopped responding and the watchdog reset it.",
            ResetReason::External => "Reset pin asserted, e.g. a manual reset or a debug probe.",
            ResetReason::DeepSleep => "Scheduled wake from deep sleep.",
            ResetReason::Sdio => "SDIO peripheral triggered the reset.",
            ResetReason::Unknown => "Reset cause could not be determined.",
        }
    }
}

} // verus!
