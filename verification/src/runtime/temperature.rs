//! Telemetry of the system's temperature.

use vstd::prelude::*;

use crate::ieee::Single;
use crate::logic::types::{Component, Severity};
use crate::text::concat3;

verus! {

/// 100, 113, 122 and 140 degrees Fahrenheit, as single-precision bit patterns.
pub const F_100: u32 = 0x42C8_0000;
pub const F_113: u32 = 0x42E2_0000;
pub const F_122: u32 = 0x42F4_0000;
pub const F_140: u32 = 0x430C_0000;

/// How hot the system is.
#[derive(Debug, Clone, Copy, PartialEq, Eq, Structural)]
pub enum TempTier {
    /// Below 100.
    Normal,
    /// From 100 to 113.
    Degrading,
    /// Up to 122.
    Eg4Battery,
    /// Up to 140.
    BatterySolark,
    /// Above 140.
    Critical,
}

impl TempTier {
    pub open spec fn of(temp_f: Single) -> TempTier {
        if temp_f.lt_spec(Single { bits: F_100 }) {
            TempTier::Normal
        } else if temp_f.le_spec(Single { bits: F_113 }) {
            TempTier::Degrading
        } else if temp_f.le_spec(Single { bits: F_122 }) {
            TempTier::Eg4Battery
        } else if temp_f.le_spec(Single { bits: F_140 }) {
            TempTier::BatterySolark
        } else {
            TempTier::Critical
        }
    }

    /// The tier of a temperature in degrees Fahrenheit. One that is not a number is
    /// critical.
    pub fn classify(temp_f: Single) -> (r: Self)
        ensures
            r == TempTier::of(temp_f),
    {
        if temp_f.lt(Single { bits: F_100 }) {
            TempTier::Normal
        } else if temp_f.le(Single { bits: F_113 }) {
            TempTier::Degrading
        } else if temp_f.le(Single { bits: F_122 }) {
            TempTier::Eg4Battery
        } else if temp_f.le(Single { bits: F_140 }) {
            TempTier::BatterySolark
        } else {
            TempTier::Critical
        }
    }

    pub open spec fn rank(self) -> int {
        match self {
            TempTier::Normal => 0,
            TempTier::Degrading => 1,
            TempTier::Eg4Battery => 2,
            TempTier::BatterySolark => 3,
            TempTier::Critical => 4,
        }
    }

    pub open spec fn notes_text(self) -> Seq<char> {
        match self {
            TempTier::Normal => "All components functioning normally"@,
            TempTier::Degrading => "Inverters started to degrade"@,
            TempTier::Eg4Battery => "Temperature too hot for eg4 battery"@,
            TempTier::BatterySolark => "Severely high temperature for Battery and Solark"@,
            TempTier::Critical => "EG4 inverter and all other components are in danger"@,
        }
    }

    pub fn notes(self) -> (r: &'static str)
        ensures
            r@ == self.notes_text(),
    {
        match self {
            TempTier::Normal => "All components functioning normally",
            TempTier::Degrading => "Inverters started to degrade",
            TempTier::Eg4Battery => "Temperature too hot for eg4 battery",
            TempTier::BatterySolark => "Severely high temperature for Battery and Solark",
            TempTier::Critical => "EG4 inverter and all other components are in danger",
        }
    }

    pub open spec fn severity_of(self) -> Severity {
        match self {
            TempTier::Normal => Severity::Online,
            TempTier::Degrading => Severity::Warning,
            _ => Severity::Fault,
        }
    }

    pub fn severity(self) -> (r: Severity)
        ensures
            r == self.severity_of(),
    {
        match self {
            TempTier::Normal => Severity::Online,
            TempTier::Degrading => Severity::Warning,
            TempTier::Eg4Battery => Severity::Fault,
            TempTier::BatterySolark => Severity::Fault,
            TempTier::Critical => Severity::Fault,
        }
    }
}

/// A hotter system is never in a lower tier.
pub proof fn hotter_is_not_a_lower_tier(cooler: Single, hotter: Single)
    requires
        cooler.le_spec(hotter),
    ensures
        TempTier::of(cooler).rank() <= TempTier::of(hotter).rank(),
{
}

/// What a reading is published as.
#[derive(Debug)]
pub struct TemperatureReport {
    pub component: Component,
    /// The message of the log entry: an information in the normal tier, an error
    /// above it.
    pub message: String,
    pub is_error: bool,
    /// The reading and its unit, which go with an error.
    pub value: Option<Single>,
    pub unit: Option<&'static str>,
    pub notes: &'static str,
    /// The severity and the notes of the component's status.
    pub severity: Severity,
    pub status_notes: String,
}

#[verifier::ext_equal]
pub struct TemperatureView {
    pub component: Component,
    pub message: Seq<char>,
    pub is_error: bool,
    pub value: Option<Single>,
    pub unit: Option<Seq<char>>,
    pub notes: Seq<char>,
    pub severity: Severity,
    pub status_notes: Seq<char>,
}

impl View for TemperatureReport {
    type V = TemperatureView;

    open spec fn view(&self) -> TemperatureView {
        TemperatureView {
            component: self.component,
            message: self.message@,
            is_error: self.is_error,
            value: self.value,
            unit: match self.unit {
                Some(unit) => Some(unit@),
                None => None,
            },
            notes: self.notes@,
            severity: self.severity,
            status_notes: self.status_notes@,
        }
    }
}

pub open spec fn temperature_view(
    temp_f: Single,
    temp: Seq<char>,
    humidity: Seq<char>,
) -> TemperatureView {
    let tier = TempTier::of(temp_f);
    TemperatureView {
        component: Component::System,
        message: if tier == TempTier::Normal {
            "System temp "@ + temp + "F, humidity "@ + humidity + "%RH"@
        } else {
            "Temp is too hot; "@ + temp + "F"@
        },
        is_error: tier != TempTier::Normal,
        value: if tier == TempTier::Normal {
            None
        } else {
            Some(temp_f)
        },
        unit: if tier == TempTier::Normal {
            None
        } else {
            Some("F"@)
        },
        notes: tier.notes_text(),
        severity: tier.severity_of(),
        status_notes: if tier == TempTier::Normal {
            "Board temperature "@ + temp + "F within normal range"@
        } else {
            tier.notes_text()
        },
    }
}

/// What to publish of a reading. The texts are the temperature in degrees
/// Fahrenheit and the relative humidity, in decimal.
pub fn report_system_temperature(temp_f: Single, temp: &str, humidity: &str) -> (r:
    TemperatureReport)
    ensures
        r@ == temperature_view(temp_f, temp@, humidity@),
{
    let tier = TempTier::classify(temp_f);
    if tier == TempTier::Normal {
        let head = concat3("System temp ", temp, "F, humidity ");
        return TemperatureReport {
            component: Component::System,
            message: concat3(head.as_str(), humidity, "%RH"),
            is_error: false,
            value: None,
            unit: None,
            notes: tier.notes(),
            severity: Severity::Online,
            status_notes: concat3("Board temperature ", temp, "F within normal range"),
        };
    }
    TemperatureReport {
        component: Component::System,
        message: concat3("Temp is too hot; ", temp, "F"),
        is_error: true,
        value: Some(temp_f),
        unit: Some("F"),
        notes: tier.notes(),
        severity: tier.severity(),
        status_notes: tier.notes().to_owned(),
    }
}

} // verus!
