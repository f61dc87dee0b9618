use tower::calendar::{ClockReading, LocalDate};
use tower::config::switchboard::{active, Profile, SiteConstants};
use tower::hardware::sensors::{lock, sensor_detected, LockAttempt, LockStep};
use tower::ieee::{Double, Single};
use tower::logic::fsm::network::{
    boot_log, BootDiagnostic, BootInput, BootRequest, BootRun, BootStep, BootValidation,
    InitNetworkServices, NetworkContext, NetworkResult, NetworkState, OtaStep,
    WifiConnectIfDisconnected, WifiInitialize, WifiState, WifiWait, OTA, WIFI_WAIT,
};
use tower::logic::fsm::startup::{Initialization, StartupContext};
use tower::logic::types::Severity;
use tower::runtime::reset_reason::ResetReason;
use tower::runtime::temperature::{report_system_temperature, TempTier};
use tower::runtime::watchdog::{cstr_from_str, esp_err_to_result, TaskWatchdog, UserWatchdog};
use tower::version::VersionError;

fn single(x: f32) -> Single {
    Single { bits: x.to_bits() }
}

fn site() -> SiteConstants {
    SiteConstants {
        device_id: "t7",
        wifi_ssid: "net",
        wifi_password: "pw",
        tz_posix: "UTC0",
        tower_latitude: Double { bits: 0 },
        tower_longitude: Double { bits: 0 },
        home_heading_deg: single(60.0),
        soft_limit_min_deg: single(60.0),
        soft_limit_max_deg: single(300.0),
        encoder_probe_steps: 50_000,
        relay_active_high: true,
        limit_switch_active_high: true,
    }
}

fn ctx() -> NetworkContext {
    NetworkContext::new(active(Profile::Normal, &site()), 7)
}

fn noon() -> ClockReading {
    ClockReading { date: LocalDate { year: 2025, month: 6, day: 1 }, hour: 12, minute: 4, second: 5 }
}

#[test]
fn wifi_is_brought_up_and_watched() {
    let mut journal = Vec::new();
    let sw = active(Profile::Normal, &site());
    WifiInitialize.seed(&sw, &mut journal);
    assert_eq!(
        format!("{:?}", journal),
        "[Str { key: \"wifi_ssid\", value: \"net\" }, Str { key: \"wifi_pass\", value: \"pw\" }, Str { key: \"tz_posix\", value: \"UTC0\" }]"
    );
    let (ssid, pass, r) = WifiInitialize.process(&sw, Some("other".to_string()), None);
    assert_eq!((ssid.as_str(), pass.as_str()), ("other", "pw"));
    assert_eq!(r, NetworkResult::Running(NetworkState::WifiWait));
    let mut c = ctx();
    assert_eq!(WifiWait.process(&mut c, 6 + WIFI_WAIT), NetworkResult::Hold);
    assert_eq!(c.timer, 7);
    assert_eq!(
        WifiWait.process(&mut c, 7 + WIFI_WAIT),
        NetworkResult::Running(NetworkState::WifiConnectIfDisconnected)
    );
    assert_eq!(c.timer, 7 + WIFI_WAIT);
    assert!(WifiConnectIfDisconnected.needs_reconnect(WifiState::Disconnected));
    assert!(!WifiConnectIfDisconnected.needs_reconnect(WifiState::Connecting));
    let w = WifiConnectIfDisconnected;
    assert_eq!(w.process(&c, Some(false), WifiState::Disconnected), NetworkResult::Hold);
    assert_eq!(
        w.process(&c, None, WifiState::Connected),
        NetworkResult::Running(NetworkState::InitNetworkServices)
    );
    assert_eq!(
        w.process(&c, None, WifiState::Connecting),
        NetworkResult::Running(NetworkState::WifiWait)
    );
    c.init_network_services = false;
    assert_eq!(
        w.process(&c, Some(true), WifiState::Connected),
        NetworkResult::Running(NetworkState::WifiWait)
    );
}

#[test]
fn services_come_up_or_are_tried_again() {
    let mut c = ctx();
    assert_eq!(InitNetworkServices.client_id(&c.switchboard), "tower_t7");
    assert_eq!(InitNetworkServices.time_zone(&c.switchboard, None), "UTC0");
    assert_eq!(InitNetworkServices.time_zone(&c.switchboard, Some("CET".to_string())), "CET");
    assert_eq!(InitNetworkServices.process(&mut c, &noon(), false), NetworkResult::Hold);
    assert!(c.init_network_services && !c.mqtt_ready);
    assert_eq!(c.formatted_time.as_deref(), Some("01/06/2025 12:04:05"));
    assert_eq!(
        InitNetworkServices.process(&mut c, &noon(), true),
        NetworkResult::Running(NetworkState::BootValidation)
    );
    assert!(!c.init_network_services && c.mqtt_ready);
}

#[test]
fn a_fresh_image_is_judged_once() {
    let mut journal = Vec::new();
    let mut c = ctx();
    let mut run = BootRun::new();
    let v = BootValidation;
    let r = v.process(&mut c, &mut run, BootInput::FirstBoot { flag: Some(1) }, &mut journal);
    assert!(matches!(r, BootRequest::ReadVersion));
    assert_eq!(format!("{:?}", journal), "[Str { key: \"version\", value: \"1.1.5\" }]");
    journal.clear();
    let bad = BootInput::Version { stored: Some("x".to_string()) };
    let r = v.process(&mut c, &mut run, bad, &mut journal);
    assert!(matches!(r, BootRequest::Failed(VersionError::Stored)));
    assert!(c.current_version.is_none());
    let good = BootInput::Version { stored: Some("1.1.5".to_string()) };
    match v.process(&mut c, &mut run, good, &mut journal) {
        BootRequest::Diagnose { version } => assert_eq!(version, "1.1.5"),
        other => panic!("{:?}", other),
    }
    assert_eq!(c.current_version.as_deref(), Some("1.1.5"));
    let r = v.process(&mut c, &mut run, BootInput::Diagnosed { passed: true }, &mut journal);
    assert!(matches!(r, BootRequest::ReadSlot));
    let slot = BootInput::Slot { label: "ota_0".to_string() };
    let r = v.process(&mut c, &mut run, slot, &mut journal);
    assert!(matches!(r, BootRequest::MarkValid));
    assert!(journal.is_empty());
    let r = v.process(&mut c, &mut run, BootInput::Marked, &mut journal);
    assert!(matches!(r, BootRequest::ReadPrevious));
    assert_eq!(format!("{:?}", journal), "[U8 { key: \"first_boot\", value: 0 }]");
    let previous = BootInput::Previous { stored: Some(" 1.1.4 ".to_string()) };
    match v.process(&mut c, &mut run, previous, &mut journal) {
        BootRequest::Publish(log) => {
            assert_eq!(log.previous_version, "1.1.4");
            assert_eq!(log.current_version, "1.1.5");
            assert_eq!(log.message, "Firmware successfully updated");
            assert_eq!(log.notes, "No errors during update");
        }
        other => panic!("{:?}", other),
    }
    assert_eq!(finished(&mut c, &mut run, BootInput::Published { ok: true }), (true, true));
    assert_eq!(finished(&mut c, &mut run, BootInput::Published { ok: false }), (false, true));
    let odd = BootInput::Previous { stored: Some("1.1".to_string()) };
    assert_eq!(finished(&mut c, &mut run, odd), (true, true));
    assert_eq!(finished(&mut c, &mut run, BootInput::Previous { stored: None }), (false, true));
    assert_eq!(journal.len(), 1);
}

/// Whether the end of a validation forgets the previous version and subscribes.
fn finished(c: &mut NetworkContext, run: &mut BootRun, input: BootInput) -> (bool, bool) {
    let mut journal = Vec::new();
    match BootValidation.process(c, run, input, &mut journal) {
        BootRequest::Finish { forget, subscribe, next } => {
            assert_eq!(next, NetworkResult::Running(NetworkState::Ota));
            (forget, subscribe)
        }
        other => panic!("{:?}", other),
    }
}

#[test]
fn a_fresh_image_that_fails_is_rolled_back() {
    let mut journal = Vec::new();
    let mut c = ctx();
    let v = BootValidation;
    let mut run = BootRun { first_boot: None, passed: false };
    let slot = BootInput::Slot { label: "ota_0".to_string() };
    let r = v.process(&mut c, &mut run, slot, &mut journal);
    assert!(matches!(r, BootRequest::RollBack));
    assert_eq!(finished(&mut c, &mut run, BootInput::StillRunning), (false, true));
    let slot = BootInput::Slot { label: "factory".to_string() };
    let r = v.process(&mut c, &mut run, slot, &mut journal);
    assert!(matches!(r, BootRequest::Finish { forget: false, .. }));
    assert_eq!(format!("{:?}", journal), "[U8 { key: \"first_boot\", value: 0 }]");
    for flag in [0, 2] {
        let mut run = BootRun { first_boot: Some(flag), passed: false };
        assert_eq!(finished(&mut c, &mut run, BootInput::Diagnosed { passed: false }), (false, true));
    }
    c.switchboard.runtime.commands_enabled = false;
    assert_eq!(finished(&mut c, &mut run, BootInput::Published { ok: true }), (true, false));
}

#[test]
fn updates_need_everything_in_place() {
    let mut c = ctx();
    let next = NetworkResult::Running(NetworkState::WifiConnectIfDisconnected);
    let (s, r) = OTA.process(&c);
    assert!(matches!(s, OtaStep::Skip));
    assert_eq!(r, next);
    c.mqtt_ready = true;
    c.formatted_time = Some("now".to_string());
    assert!(matches!(OTA.process(&c).0, OtaStep::Skip));
    c.current_version = Some("1.1.5".to_string());
    match OTA.process(&c).0 {
        OtaStep::Compare(beat) => {
            assert_eq!(beat.topic, "tower/t7/status");
            assert_eq!(beat.current_time, "now");
            assert_eq!(beat.firmware_version, "1.1.5");
        }
        other => panic!("{:?}", other),
    }
    c.switchboard.effects.allow_ota = false;
    assert!(matches!(OTA.process(&c).0, OtaStep::Skip));
    let log = OTA.failed("1.1.5");
    assert_eq!(log.message, "Firmware update unsuccessful");
    assert_eq!(log.previous_version, log.current_version);
    assert_eq!(log.notes, "Did not update due to failures");
}

#[test]
fn a_boot_diagnostic_ends() {
    assert!(BootDiagnostic::begin(WifiState::Connecting).is_none());
    assert!(BootDiagnostic::begin(WifiState::Disconnected).is_none());
    let mut d = BootDiagnostic::begin(WifiState::Connected).unwrap_or_else(|| panic!("none"));
    let mut slept = 0;
    let mut looks = 0;
    let step = loop {
        looks += 1;
        match d.on_look(false) {
            BootStep::Look { after_ms } => slept += after_ms,
            other => break other,
        }
    };
    assert_eq!(step, BootStep::Done { passed: false });
    assert_eq!((slept, looks), (36_000, 18));
    let mut d = BootDiagnostic::begin(WifiState::Connected).unwrap_or_else(|| panic!("none"));
    assert_eq!(d.on_look(true), BootStep::Look { after_ms: 0 });
    assert_eq!(d.on_look(true), BootStep::Publish);
    assert_eq!(d.on_publish(false), BootStep::Look { after_ms: 1_000 });
    assert_eq!(d.attempt, 2);
    d.on_look(true);
    d.on_look(true);
    assert_eq!(d.on_publish(true), BootStep::Done { passed: true });
    d.attempt = 3;
    assert_eq!(d.on_publish(false), BootStep::Done { passed: false });
    let log = boot_log("t7", "1.1.5", ResetReason::Brownout);
    assert_eq!(log.topic, "tower/t7/logs/boot");
    assert_eq!(log.message, "Tower rebooted successfully");
    assert_eq!(log.notes, "Scheduled reboot completed without errors");
    assert_eq!(log.reset_reason, ResetReason::Brownout.boot_notes());
}

#[test]
fn reset_reasons_speak() {
    assert_eq!(ResetReason::TaskWdt.as_str(), "task_watchdog");
    assert_eq!(ResetReason::OtherWdt.as_str(), "watchdog");
    assert_eq!(ResetReason::Sdio.as_str(), "sdio");
    assert!(ResetReason::Unknown.is_unexpected() && ResetReason::Panic.is_unexpected());
    assert!(!ResetReason::Software.is_unexpected() && !ResetReason::PowerOn.is_unexpected());
    assert_eq!(
        ResetReason::InterruptWdt.boot_message(),
        "Tower rebooted after a watchdog timeout"
    );
    assert_eq!(
        ResetReason::External.boot_notes(),
        "Reset pin asserted, e.g. a manual reset or a debug probe."
    );
}

#[test]
fn heat_is_reported_by_tier() {
    let tiers = [
        (99.9, TempTier::Normal), (100.0, TempTier::Degrading), (113.0, TempTier::Degrading),
        (113.1, TempTier::Eg4Battery), (122.0, TempTier::Eg4Battery),
        (122.1, TempTier::BatterySolark), (140.0, TempTier::BatterySolark),
        (140.1, TempTier::Critical), (f32::NAN, TempTier::Critical),
    ];
    for (t, tier) in tiers {
        assert_eq!(TempTier::classify(single(t)), tier);
    }
    assert_eq!(TempTier::Degrading.severity(), Severity::Warning);
    assert_eq!(TempTier::Critical.severity(), Severity::Fault);
    let r = report_system_temperature(single(72.5), "72.5", "40.0");
    assert_eq!(r.message, "System temp 72.5F, humidity 40.0%RH");
    assert_eq!(r.status_notes, "Board temperature 72.5F within normal range");
    assert_eq!(r.notes, "All components functioning normally");
    assert!(!r.is_error && r.value.is_none());
    let r = report_system_temperature(single(141.0), "141.0", "9.0");
    assert_eq!(r.message, "Temp is too hot; 141.0F");
    assert_eq!(r.status_notes, "EG4 inverter and all other components are in danger");
    assert_eq!((r.is_error, r.unit), (true, Some("F")));
}

#[test]
fn watchdog_codes_become_results() {
    assert_eq!(esp_err_to_result(0, "x"), Ok(()));
    assert_eq!(
        esp_err_to_result(-1, "esp_task_wdt_add"),
        Err("esp_task_wdt_add failed with esp_err_t = -1".to_string())
    );
    assert_eq!(cstr_from_str("motion"), Ok("motion".to_string()));
    assert_eq!(cstr_from_str("a\0b"), Err("string contains interior null byte".to_string()));
    let t = TaskWatchdog::register(0).unwrap_or_else(|e| panic!("{}", e));
    assert_eq!(t.feed(0), Ok(()));
    assert_eq!(t.feed(5), Err("esp_task_wdt_reset failed with esp_err_t = 5".to_string()));
    assert_eq!(t.unregister(5), Err("esp_task_wdt_delete failed with esp_err_t = 5".to_string()));
    assert!(TaskWatchdog::register(3).is_err());
    assert!(UserWatchdog::new("a\0", 0, 0).is_err());
    assert!(matches!(UserWatchdog::new("m", 2, 0), Err(e)
        if e == "esp_task_wdt_add_user failed with esp_err_t = 2"));
    assert!(matches!(UserWatchdog::new("m", 0, 2), Err(e)
        if e == "esp_task_wdt_reset_user failed with esp_err_t = 2"));
    let mut u = UserWatchdog::new("m", 0, 0).unwrap_or_else(|e| panic!("{}", e));
    assert!(u.feed(0).is_ok() && u.needs_unregister());
    assert!(u.unregister(4).is_err() && u.needs_unregister());
    assert!(u.unregister(0).is_ok() && !u.needs_unregister());
    assert!(u.unregister(4).is_ok());
}

#[test]
fn the_start_decides_on_trust() {
    let mut c = StartupContext::new();
    let mut journal = Vec::new();
    let g = Initialization.process(&mut c, "Admin", &site(), Some(0), &mut journal);
    assert_eq!(c.trust_nvs_state, Some(false));
    assert!(g.soft_limits_enabled && g.stall_detection_enabled);
    assert_eq!(g.soft_limit_max_deg.bits, 300.0f32.to_bits());
    assert!(c.switchboard.as_ref().map(|s| s.admin.enabled).unwrap_or(false));
    assert_eq!(journal.len(), 1);
    Initialization.process(&mut c, "Normal", &site(), None, &mut journal);
    assert_eq!(c.trust_nvs_state, Some(true));
    assert_eq!(journal.len(), 3);
    assert_eq!(Initialization.finish(&mut c, Some("?")), Err(VersionError::Stored));
    assert_eq!(c.version, None);
    assert_eq!(Initialization.finish(&mut c, None), Ok(()));
    assert_eq!(c.version.as_deref(), Some("1.1.5"));
}

#[test]
fn waiting_for_the_lock_ends() {
    assert_eq!(lock(LockAttempt::Acquired, 9, 5), LockStep::Take);
    assert_eq!(lock(LockAttempt::Poisoned, 9, 5), LockStep::Take);
    assert_eq!(lock(LockAttempt::WouldBlock, 4, 5), LockStep::Retry { after_ms: 5 });
    assert_eq!(lock(LockAttempt::WouldBlock, 5, 5), LockStep::GiveUp);
    assert!(sensor_detected(Some(0x1050)));
    assert!(!sensor_detected(Some(0x1051)) && !sensor_detected(None));
}
