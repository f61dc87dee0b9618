//! What a site decides of its tower, and what every tower has.

use vstd::prelude::*;

use crate::config::switchboard::{
    board_is, level_of, ActiveLevel, MotionModePolicy, SiteConstants, Switchboard,
};
use crate::logic::types::{Direction, MotionMode};

verus! {

/// A site decides its bearings, its limits, its place and how its lines are wired.
pub proof fn a_site_decides_its_own(sw: Switchboard, site: SiteConstants, sandbox: bool)
    requires
        board_is(sw, site, sandbox),
    ensures
        sw.home_heading_deg == site.home_heading_deg,
        sw.runtime.guardrails.soft_limit_min_deg == site.soft_limit_min_deg,
        sw.runtime.guardrails.soft_limit_max_deg == site.soft_limit_max_deg,
        sw.default_tower_latitude == site.tower_latitude,
        sw.default_tower_longitude == site.tower_longitude,
        sw.device_id == site.device_id,
        sw.default_wifi_ssid == site.wifi_ssid,
        sw.default_wifi_pass == site.wifi_password,
        sw.default_tz_posix == site.tz_posix,
        sw.runtime.encoder_recovery.probe_steps == site.encoder_probe_steps,
        sw.runtime.relay_active_level == ActiveLevel::ActiveHigh <==> site.relay_active_high,
        sw.runtime.lmsw_active_level == ActiveLevel::ActiveHigh
            <==> site.limit_switch_active_high,
        level_of(true) == ActiveLevel::ActiveHigh && level_of(false) == ActiveLevel::ActiveLow,
{
}

/// Every tower is guarded: stall detection, soft limits and encoder recovery are on, and
/// recovery moves at boot are off. It looks at the sun every five minutes, probes a faulted
/// encoder every three, lets it drift by fifteen degrees, and homes clockwise.
pub proof fn every_tower_is_guarded(sw: Switchboard, site: SiteConstants, sandbox: bool)
    requires
        board_is(sw, site, sandbox),
    ensures
        sw.runtime.guardrails.stall_detection_enabled,
        sw.runtime.guardrails.soft_limits_enabled,
        sw.runtime.encoder_recovery.enabled,
        sw.runtime.encoder_recovery.probe_interval_secs == 180,
        sw.runtime.encoder_recovery.max_drift_deg.bits == 0x4170_0000,
        sw.runtime.encoder_recovery.rehome_dir == Direction::Cw,
        sw.runtime.tracking.loop_sleep_secs == 300,
        sw.tracking_loop_sleep_secs == 300,
        sw.boot.homing.dir == Direction::Cw,
        !sw.boot.recovery.enabled,
        sw.effects.allow_boot_validation,
        sw.runtime.motion_mode == MotionModePolicy::FromNvsDefault(MotionMode::EncoderGuarded),
        sw.enc_snapshot_version == 1,
        sw.enc_home_tol_ticks == 50,
        sw.wifi_connect_delay_secs == 20,
        sw.ota_check_delay_secs == 3,
        !sw.admin.tests.motor_test && !sw.admin.tests.encoder_test,
        !sw.admin.run_recovery_on_start && !sw.admin.run_homing_on_start,
{
}

/// The recovery moves at boot, where they are switched on: a turn clockwise and none back,
/// verified with the encoder to a hundred degrees, without stall detection, after which the
/// tower stays where it is.
pub proof fn recovery_moves_are_verified(sw: Switchboard, site: SiteConstants, sandbox: bool)
    requires
        board_is(sw, site, sandbox),
    ensures
        sw.boot.recovery.moves@.len() == 2,
        sw.boot.recovery.moves@[0].dir == Direction::Cw,
        sw.boot.recovery.moves@[0].deg.bits == 0x43B4_0000,
        sw.boot.recovery.moves@[1].dir == Direction::Ccw,
        sw.boot.recovery.moves@[1].deg.bits == 0,
        sw.boot.recovery.verify_with_encoder,
        sw.boot.recovery.verify_tol_deg.bits == 0x42C8_0000,
        !sw.boot.recovery.stop_on_verify_fail,
        sw.boot.recovery.stop_after,
        sw.boot.recovery.disable_stall_detection,
{
}

/// The keys and texts that a tower starts with.
pub proof fn a_tower_starts_with_its_keys(sw: Switchboard, site: SiteConstants, sandbox: bool)
    requires
        board_is(sw, site, sandbox),
    ensures
        sw.heading_tag@ == "heading"@,
        sw.nvs_key_enc_snapshot_version@ == "enc_snapshot_v"@,
        sw.nvs_key_enc_ticks_adj@ == "enc_ticks_adj"@,
        sw.default_version@ == "1.0.4"@,
        sw.default_ota_updater@ == "device1A"@,
        sw.default_ota_password@ == "device1A"@,
{
}

} // verus!
