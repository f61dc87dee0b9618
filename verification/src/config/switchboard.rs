//! Switchboard: the single source of deployment and default values.

use vstd::prelude::*;

use crate::ieee::{Double, Single};
use crate::logic::encoder_fault::EncoderRecoverySwitches;
use crate::logic::types::{Direction, MotionMode};
use crate::text::same_text;

verus! {

/// The firmware version that this image reports, everywhere it is asked.
pub const FIRMWARE_VERSION: &'static str = "1.1.5";

/// How the firmware was started.
#[derive(Debug, Clone, Copy, PartialEq, Eq, Structural)]
pub enum RunMode {
    Normal,
    Admin,
}

#[derive(Debug, Clone, Copy, PartialEq, Eq, Structural)]
pub enum Profile {
    Normal,
    Admin,
    Custom,
}

impl Profile {
    pub open spec fn named(s: Seq<char>) -> Profile {
        if s == "Admin"@ {
            Profile::Admin
        } else if s == "Custom"@ {
            Profile::Custom
        } else {
            Profile::Normal
        }
    }

    /// The profile of that name. Unknown names fall back to `Normal`, which is safe
    /// in production.
    pub fn from_env_str(s: &str) -> (r: Self)
        ensures
            r == Profile::named(s@),
    {
        if same_text(s, "Admin") {
            Profile::Admin
        } else if same_text(s, "Custom") {
            Profile::Custom
        } else {
            Profile::Normal
        }
    }
}

/// Whether a line is active when it is high or when it is low.
#[derive(Debug, Clone, Copy, PartialEq, Eq, Structural)]
pub enum ActiveLevel {
    ActiveHigh,
    ActiveLow,
}

#[derive(Debug, Clone, Copy)]
pub struct RecoveryMoveSpec {
    pub dir: Direction,
    pub deg: Single,
}

#[derive(Debug, Clone, Copy, PartialEq, Eq, Structural)]
pub struct BootHomingSwitches {
    /// If false, the homing search is skipped even if no snapshot was restored.
    pub enabled: bool,
    /// Which direction to search for the limit switch.
    pub dir: Direction,
}

#[derive(Debug)]
pub struct RecoverySwitches {
    pub enabled: bool,
    pub moves: Vec<RecoveryMoveSpec>,
    pub verify_with_encoder: bool,
    pub verify_tol_deg: Single,
    pub stop_on_verify_fail: bool,
    pub stop_after: bool,
    /// If true, stall detection is off while recovery moves run.
    pub disable_stall_detection: bool,
}

#[derive(Debug)]
pub struct BootSwitches {
    pub recovery: RecoverySwitches,
    pub homing: BootHomingSwitches,
}

#[derive(Debug, Clone, Copy, PartialEq, Eq, Structural)]
pub struct TrackingSwitches {
    /// If false, the tracking logic is not called at all.
    pub enabled: bool,
    /// Delay between tracking iterations, in seconds.
    pub loop_sleep_secs: u64,
}

#[derive(Debug, Clone, Copy, PartialEq, Eq, Structural)]
pub enum MotionModePolicy {
    /// The stored mode if there is one, else this one, which is then stored.
    FromNvsDefault(MotionMode),
    /// This mode, whatever is stored.
    Force(MotionMode),
}

impl MotionModePolicy {
    pub open spec fn name(self) -> Seq<char> {
        match self {
            MotionModePolicy::FromNvsDefault(_) => "FromNvsDefault(..)"@,
            MotionModePolicy::Force(_) => "Force(..)"@,
        }
    }

    /// The policy's name, without the mode.
    pub fn as_str(&self) -> (r: &'static str)
        ensures
            r@ == self.name(),
    {
        match self {
            MotionModePolicy::FromNvsDefault(_) => "FromNvsDefault(..)",
            MotionModePolicy::Force(_) => "Force(..)",
        }
    }
}

#[derive(Debug, Clone, Copy)]
pub struct GuardrailsSwitches {
    pub stall_detection_enabled: bool,
    pub soft_limits_enabled: bool,
    pub soft_limit_min_deg: Single,
    pub soft_limit_max_deg: Single,
}

#[derive(Debug, Clone, Copy, PartialEq, Eq, Structural)]
pub struct EffectsSwitches {
    pub persist_nvs: bool,
    pub allow_ota: bool,
    pub allow_boot_validation: bool,
}

#[derive(Debug, Clone, Copy, PartialEq, Eq, Structural)]
pub struct AdminTestsSwitches {
    pub motor_test: bool,
    pub encoder_test: bool,
    pub persistence_test: bool,
    pub wifi_mqtt_test: bool,
}

#[derive(Debug, Clone, Copy, PartialEq, Eq, Structural)]
pub struct AdminSwitches {
    pub enabled: bool,
    pub run_recovery_on_start: bool,
    pub run_homing_on_start: bool,
    pub tests: AdminTestsSwitches,
    pub stop_after: bool,
}

#[derive(Debug, Clone, Copy)]
pub struct RuntimeSwitches {
    pub tracking: TrackingSwitches,
    pub motion_mode: MotionModePolicy,
    pub encoder_recovery: EncoderRecoverySwitches,
    pub guardrails: GuardrailsSwitches,
    /// The remote command channel.
    pub commands_enabled: bool,
    pub relay_active_level: ActiveLevel,
    pub lmsw_active_level: ActiveLevel,
}

/// What differs from site to site.
#[derive(Debug, Clone, Copy)]
pub struct SiteConstants {
    pub device_id: &'static str,
    pub wifi_ssid: &'static str,
    pub wifi_password: &'static str,
    pub tz_posix: &'static str,
    pub tower_latitude: Double,
    pub tower_longitude: Double,
    pub home_heading_deg: Single,
    pub soft_limit_min_deg: Single,
    pub soft_limit_max_deg: Single,
    pub encoder_probe_steps: i64,
    pub relay_active_high: bool,
    pub limit_switch_active_high: bool,
}

/// Policy and data of one tower.
#[derive(Debug)]
pub struct Switchboard {
    /// The tower id in topics.
    pub device_id: &'static str,

    // Timing
    pub wifi_connect_delay_secs: u64,
    pub tracking_loop_sleep_secs: u64,
    pub ota_check_delay_secs: u64,

    // Firmware and persistence keys
    pub default_version: &'static str,
    pub heading_tag: &'static str,
    pub enc_snapshot_version: u32,
    pub nvs_key_enc_snapshot_version: &'static str,
    pub nvs_key_enc_ticks_adj: &'static str,
    pub enc_home_tol_ticks: i32,
    /// Heading in degrees at the limit switch.
    pub home_heading_deg: Single,

    // Defaults written into flash on boot
    pub default_wifi_ssid: &'static str,
    pub default_wifi_pass: &'static str,
    /// POSIX `TZ` string.
    pub default_tz_posix: &'static str,

    // Tower defaults
    pub default_tower_latitude: Double,
    pub default_tower_longitude: Double,
    pub default_ota_updater: &'static str,
    pub default_ota_password: &'static str,

    pub boot: BootSwitches,
    pub runtime: RuntimeSwitches,
    pub effects: EffectsSwitches,
    pub admin: AdminSwitches,
}

pub open spec fn level_of(active_high: bool) -> ActiveLevel {
    if active_high {
        ActiveLevel::ActiveHigh
    } else {
        ActiveLevel::ActiveLow
    }
}

fn level(active_high: bool) -> (r: ActiveLevel)
    ensures
        r == level_of(active_high),
{
    if active_high {
        ActiveLevel::ActiveHigh
    } else {
        ActiveLevel::ActiveLow
    }
}

/// The moves that free a stuck tower: a full turn clockwise, then none back.
pub open spec fn default_recovery_moves() -> Seq<RecoveryMoveSpec> {
    seq![
        RecoveryMoveSpec { dir: Direction::Cw, deg: Single { bits: 0x43B4_0000 } },
        RecoveryMoveSpec { dir: Direction::Ccw, deg: Single { bits: 0 } },
    ]
}

/// The boot switches of a site, with homing on or off.
pub open spec fn boot_is(boot: BootSwitches, homing: bool) -> bool {
    &&& !boot.recovery.enabled
    &&& boot.recovery.moves@ == default_recovery_moves()
    &&& boot.recovery.verify_with_encoder
    &&& boot.recovery.verify_tol_deg.bits == 0x42C8_0000
    &&& !boot.recovery.stop_on_verify_fail
    &&& boot.recovery.stop_after
    &&& boot.recovery.disable_stall_detection
    &&& boot.homing == (BootHomingSwitches { enabled: homing, dir: Direction::Cw })
}

/// The runtime switches of a site, with tracking on or off.
pub open spec fn runtime_of(site: SiteConstants, tracking: bool) -> RuntimeSwitches {
    RuntimeSwitches {
        tracking: TrackingSwitches { enabled: tracking, loop_sleep_secs: 300 },
        motion_mode: MotionModePolicy::FromNvsDefault(MotionMode::EncoderGuarded),
        encoder_recovery: EncoderRecoverySwitches {
            enabled: true,
            probe_interval_secs: 180,
            probe_steps: site.encoder_probe_steps,
            max_drift_deg: Single { bits: 0x4170_0000 },
            rehome_dir: Direction::Cw,
        },
        guardrails: GuardrailsSwitches {
            stall_detection_enabled: true,
            soft_limits_enabled: true,
            soft_limit_min_deg: site.soft_limit_min_deg,
            soft_limit_max_deg: site.soft_limit_max_deg,
        },
        commands_enabled: true,
        relay_active_level: level_of(site.relay_active_high),
        lmsw_active_level: level_of(site.limit_switch_active_high),
    }
}

pub open spec fn no_tests() -> AdminTestsSwitches {
    AdminTestsSwitches {
        motor_test: false,
        encoder_test: false,
        persistence_test: false,
        wifi_mqtt_test: false,
    }
}

/// The switchboard of a site. The diagnostics sandbox differs in these alone: it is
/// an admin profile, and tracking, homing and updates are off.
pub open spec fn board_is(sw: Switchboard, site: SiteConstants, sandbox: bool) -> bool {
    &&& sw.device_id == site.device_id
    &&& sw.wifi_connect_delay_secs == 20
    &&& sw.tracking_loop_sleep_secs == 300
    &&& sw.ota_check_delay_secs == 3
    &&& sw.default_version@ == "1.0.4"@
    &&& sw.heading_tag@ == "heading"@
    &&& sw.enc_snapshot_version == 1
    &&& sw.nvs_key_enc_snapshot_version@ == "enc_snapshot_v"@
    &&& sw.nvs_key_enc_ticks_adj@ == "enc_ticks_adj"@
    &&& sw.enc_home_tol_ticks == 50
    &&& sw.home_heading_deg == site.home_heading_deg
    &&& sw.default_wifi_ssid == site.wifi_ssid
    &&& sw.default_wifi_pass == site.wifi_password
    &&& sw.default_tz_posix == site.tz_posix
    &&& sw.default_tower_latitude == site.tower_latitude
    &&& sw.default_tower_longitude == site.tower_longitude
    &&& sw.default_ota_updater@ == "device1A"@
    &&& sw.default_ota_password@ == "device1A"@
    &&& boot_is(sw.boot, !sandbox)
    &&& sw.runtime == runtime_of(site, !sandbox)
    &&& sw.effects == (EffectsSwitches {
        persist_nvs: true,
        allow_ota: !sandbox,
        allow_boot_validation: true,
    })
    &&& sw.admin == (AdminSwitches {
        enabled: sandbox,
        run_recovery_on_start: false,
        run_homing_on_start: false,
        tests: no_tests(),
        stop_after: true,
    })
}

/// The production profile.
pub fn normal(site: &SiteConstants) -> (r: Switchboard)
    ensures
        board_is(r, *site, false),
{
    let mut moves: Vec<RecoveryMoveSpec> = Vec::new();
    moves.push(RecoveryMoveSpec { dir: Direction::Cw, deg: Single { bits: 0x43B4_0000 } });
    moves.push(RecoveryMoveSpec { dir: Direction::Ccw, deg: Single { bits: 0 } });
    assert(moves@ =~= default_recovery_moves());
    Switchboard {
        device_id: site.device_id,
        wifi_connect_delay_secs: 20,
        tracking_loop_sleep_secs: 300,
        ota_check_delay_secs: 3,
        default_version: "1.0.4",
        heading_tag: "heading",
        enc_snapshot_version: 1,
        nvs_key_enc_snapshot_version: "enc_snapshot_v",
        nvs_key_enc_ticks_adj: "enc_ticks_adj",
        enc_home_tol_ticks: 50,
        home_heading_deg: site.home_heading_deg,
        default_wifi_ssid: site.wifi_ssid,
        default_wifi_pass: site.wifi_password,
        default_tz_posix: site.tz_posix,
        default_tower_latitude: site.tower_latitude,
        default_tower_longitude: site.tower_longitude,
        default_ota_updater: "device1A",
        default_ota_password: "device1A",
        boot: BootSwitches {
            recovery: RecoverySwitches {
                enabled: false,
                moves,
                verify_with_encoder: true,
                verify_tol_deg: Single { bits: 0x42C8_0000 },
                stop_on_verify_fail: false,
                stop_after: true,
                disable_stall_detection: true,
            },
            homing: BootHomingSwitches { enabled: true, dir: Direction::Cw },
        },
        runtime: RuntimeSwitches {
            tracking: TrackingSwitches { enabled: true, loop_sleep_secs: 300 },
            motion_mode: MotionModePolicy::FromNvsDefault(MotionMode::EncoderGuarded),
            encoder_recovery: EncoderRecoverySwitches {
                enabled: true,
                probe_interval_secs: 180,
                probe_steps: site.encoder_probe_steps,
                max_drift_deg: Single { bits: 0x4170_0000 },
                rehome_dir: Direction::Cw,
            },
            guardrails: GuardrailsSwitches {
                stall_detection_enabled: true,
                soft_limits_enabled: true,
                soft_limit_min_deg: site.soft_limit_min_deg,
                soft_limit_max_deg: site.soft_limit_max_deg,
            },
            commands_enabled: true,
            relay_active_level: level(site.relay_active_high),
            lmsw_active_level: level(site.limit_switch_active_high),
        },
        effects: EffectsSwitches {
            persist_nvs: true,
            allow_ota: true,
            allow_boot_validation: true,
        },
        admin: AdminSwitches {
            enabled: false,
            run_recovery_on_start: false,
            run_homing_on_start: false,
            tests: AdminTestsSwitches {
                motor_test: false,
                encoder_test: false,
                persistence_test: false,
                wifi_mqtt_test: false,
            },
            stop_after: true,
        },
    }
}

/// The diagnostics sandbox: the defaults of [`normal`], with tracking, boot homing
/// and updates off, so that the tower stays put. The command channel stays on.
pub fn admin(site: &SiteConstants) -> (r: Switchboard)
    ensures
        board_is(r, *site, true),
{
    let mut sw = normal(site);
    sw.admin.enabled = true;
    sw.runtime.tracking.enabled = false;
    sw.boot.homing.enabled = false;
    sw.effects.allow_ota = false;
    sw.runtime.commands_enabled = true;
    sw
}

/// The profile of a site-specific image, the same as [`normal`].
pub fn custom(site: &SiteConstants) -> (r: Switchboard)
    ensures
        board_is(r, *site, false),
{
    normal(site)
}

/// The switchboard of a profile.
pub fn active(profile: Profile, site: &SiteConstants) -> (r: Switchboard)
    ensures
        board_is(r, *site, profile == Profile::Admin),
{
    match profile {
        Profile::Normal => normal(site),
        Profile::Admin => admin(site),
        Profile::Custom => custom(site),
    }
}

/// Under every profile the tower can be reached and keeps its state; only the
/// sandbox neither tracks, nor homes, nor updates itself.
pub proof fn every_profile_stays_reachable(sw: Switchboard, site: SiteConstants, sandbox: bool)
    requires
        board_is(sw, site, sandbox),
    ensures
        sw.runtime.commands_enabled,
        sw.effects.persist_nvs,
        sandbox == sw.admin.enabled,
        sandbox == !sw.runtime.tracking.enabled,
        sandbox == !sw.boot.homing.enabled,
        sandbox == !sw.effects.allow_ota,
{
}

} // verus!
