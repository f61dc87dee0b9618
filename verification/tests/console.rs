use std::collections::VecDeque;

use tower::calendar::{ClockReading, LocalDate};
use tower::diagnostics::answer::Answer;
use tower::diagnostics::command::{CommandNeeds, DiagnosticCommand, ParsedCommand};
use tower::diagnostics::configuration::{
    nvs_configuration, read_value, ConfigKey, ConfigStaging, SecretPlaceholders, StoredSetting,
};
use tower::diagnostics::environment;
use tower::diagnostics::environment::CommitStep;
use tower::diagnostics::go_home::{
    go_home, go_home_finished, go_home_searched, HomingProgress, MotionContext,
};
use tower::diagnostics::probes::{
    drive_oled_pattern, drive_status_led, expected_i2c_devices, hdc1080_read, i2c_scan,
    led_restores, oled_initialised, oled_present, oled_request, rtc_check, BusProbe,
    Hdc1080Event, Hdc1080Step, LedTest, OledNext, OledPattern, RtcReading,
};
use tower::diagnostics::transcript::{DiagnosticsTranscript, TranscriptIo};
use tower::ieee::Single;
use tower::logic::fsm::diagnostics::awaiting::{AwaitStep, DiagAwaitOwner};
use tower::logic::fsm::diagnostics::config::{
    config_mode, get_config, get_env, save_config, save_marked, save_written, set_env,
    write_env_file, GetEnvKey, SaveStep, SetEnvVerdict,
};
use tower::logic::fsm::diagnostics::console::ConsoleOut;
use tower::logic::fsm::diagnostics::delegate::{owner, owner_name, reply_budget};
use tower::logic::fsm::diagnostics::idle::{DiagIdle, IdleStep};
use tower::logic::fsm::diagnostics::local::{
    answer, capabilities_csv, is_local, LocalAnswer, VersionLines,
};
use tower::logic::fsm::diagnostics::serve::{
    serve, serve_answered, serve_sent, Poll, ServeStep, Served,
};
use tower::logic::fsm::motion::context::MotorCommand;
use tower::logic::fsm::mail::{DiagOutcome, DiagReply, FSMAddress, FSMCommand};
use tower::logic::types::MotionMode;

const SECOND: u64 = 1_000_000_000;

fn parsed(command: DiagnosticCommand, name: &str, needs: CommandNeeds) -> ParsedCommand {
    ParsedCommand { command, name: name.to_string(), needs }
}

fn out(console: &Vec<ConsoleOut>) -> Vec<String> {
    console
        .iter()
        .map(|o| match o {
            ConsoleOut::Line(l) => l.clone(),
            ConsoleOut::Result { command, passed, details, message } => {
                format!("RESULT {command} {passed} {} {message}", details.len())
            }
        })
        .collect()
}

fn reply(ticket: u32, outcome: DiagOutcome) -> FSMCommand {
    FSMCommand::DiagnosticReply(DiagReply { ticket, outcome })
}

fn done(passed: bool, message: &str) -> DiagOutcome {
    DiagOutcome::Done { passed, details: Vec::new(), message: message.to_string() }
}

fn key(protocol: &str, nvs: &str, section: &str, name: &str, secret: bool) -> ConfigKey {
    ConfigKey {
        protocol: protocol.to_string(),
        nvs: nvs.to_string(),
        section: section.to_string(),
        name: name.to_string(),
        secret,
    }
}

fn placeholders() -> SecretPlaceholders {
    SecretPlaceholders { set: "<set>".to_string(), unset: "<unset>".to_string() }
}

fn setting(k: ConfigKey, stored: Option<&str>) -> StoredSetting {
    StoredSetting { key: k, stored: stored.map(|s| s.to_string()) }
}

#[test]
fn every_command_line_ends_with_one_result() {
    let mut console = Vec::new();
    let mut ticket = u32::MAX;
    let ping = parsed(DiagnosticCommand::Ping, "PING", CommandNeeds::Nothing);
    assert!(matches!(serve(&ping, None, &mut ticket, &mut console), ServeStep::AnswerHere));
    let served = serve_answered("PING", Answer::pass(Vec::new(), "pong"), false, &mut console);
    assert!(matches!(served, Served::Nothing));
    assert_eq!(out(&console), ["CMD_RECEIVED", "pong", "RESULT PING true 0 pong"]);
    console.clear();
    let relay = parsed(
        DiagnosticCommand::RelayMotor { state: "ON".to_string() },
        "RELAY_MOTOR",
        CommandNeeds::Unsupported,
    );
    assert!(matches!(serve(&relay, None, &mut ticket, &mut console), ServeStep::Refused));
    assert_eq!(
        out(&console),
        [
            "CMD_RECEIVED",
            "ERROR RELAY_MOTOR is not enabled in this firmware",
            "RESULT RELAY_MOTOR false 0 RELAY_MOTOR is not enabled in this firmware"
        ]
    );
    console.clear();
    let led = parsed(
        DiagnosticCommand::LedTest { color: "RED".to_string() },
        "LED_TEST",
        CommandNeeds::StatusLed,
    );
    assert!(matches!(serve(&led, Some("GO_HOME"), &mut ticket, &mut console), ServeStep::Refused));
    assert_eq!(
        out(&console)[1],
        "ERROR LED_TEST refused: GO_HOME is still running, and one hardware command at a time is the rule"
    );
    console.clear();
    match serve(&led, None, &mut ticket, &mut console) {
        ServeStep::Send { owner, request } => {
            assert_eq!((owner, request.ticket), (FSMAddress::Led, u32::MAX))
        }
        other => panic!("{:?}", other),
    }
    assert_eq!(ticket, 0);
    assert!(matches!(
        serve_sent(&led, FSMAddress::Led, 0, false, 0, &mut console),
        Served::Nothing
    ));
    assert_eq!(
        out(&console)[1],
        "ERROR LED_TEST could not be delivered: the LED machine is not running"
    );
    match serve_sent(&led, FSMAddress::Led, 0, true, 2, &mut console) {
        Served::Delegated { deadline, .. } => assert_eq!(deadline, 2 + 3 * SECOND),
        other => panic!("{:?}", other),
    }
}

#[test]
fn a_poll_keeps_its_first_outcome() {
    let delegated = |ticket: u32| Served::Delegated {
        ticket,
        name: "LED_TEST".to_string(),
        owner: FSMAddress::Led,
        deadline: 9,
    };
    let mut poll = Poll::new();
    assert_eq!(poll.pending(Some("X")), Some("X"));
    poll.note(Served::Nothing);
    poll.note(delegated(1));
    assert_eq!(poll.pending(None), Some("LED_TEST"));
    poll.note(delegated(2));
    poll.note(Served::Nothing);
    match DiagIdle.process(poll.outcome) {
        IdleStep::Await(w) => assert_eq!((w.ticket, w.deadline), (1, 9)),
        other => panic!("{:?}", other),
    }
    let mut poll = Poll::new();
    poll.note(delegated(1));
    poll.note(Served::Reboot);
    assert_eq!(poll.pending(None), Some("LED_TEST"));
    poll.note(delegated(2));
    assert!(matches!(poll.outcome, Served::Reboot));
    assert!(matches!(DiagIdle.process(poll.outcome), IdleStep::Restart));
    assert!(matches!(DiagIdle.process(Served::Nothing), IdleStep::Hold));
    assert!(matches!(DiagIdle.process(Served::Reboot), IdleStep::Restart));
    let mut inbox = VecDeque::new();
    inbox.push_back(FSMCommand::LEDOff);
    DiagIdle.drain(&mut inbox);
    assert!(inbox.is_empty());
}

#[test]
fn waiting_ends_with_the_answer_or_the_budget() {
    let w = DiagAwaitOwner {
        ticket: 5,
        name: "GO_HOME".to_string(),
        owner: FSMAddress::Motion,
        deadline: 100,
    };
    let mut console = Vec::new();
    let mut inbox = VecDeque::new();
    inbox.push_back(reply(4, done(true, "stale")));
    inbox.push_back(reply(5, DiagOutcome::Progress("MOVING_HOME".to_string())));
    assert_eq!(w.process(&mut inbox, 99, &mut console), AwaitStep::Hold);
    assert_eq!(out(&console), ["MOVING_HOME"]);
    inbox.push_back(reply(5, done(true, "home")));
    inbox.push_back(FSMCommand::LEDOff);
    assert_eq!(w.process(&mut inbox, 99, &mut console), AwaitStep::ToIdle);
    assert_eq!(out(&console), ["MOVING_HOME", "RESULT GO_HOME true 0 home"]);
    assert_eq!(inbox.len(), 1);
    console.clear();
    assert_eq!(w.process(&mut inbox, 100, &mut console), AwaitStep::ToIdle);
    assert_eq!(
        out(&console),
        [
            "ERROR no reply from the motion machine within its budget",
            "RESULT GO_HOME false 0 no reply from the motion machine within its budget"
        ]
    );
}

#[test]
fn needs_have_owners_and_budgets() {
    assert_eq!(owner(CommandNeeds::StatusLed), Some(FSMAddress::Led));
    assert_eq!(owner(CommandNeeds::Motor), Some(FSMAddress::Motion));
    assert_eq!(owner(CommandNeeds::Storage), None);
    assert!(is_local(CommandNeeds::Storage) && !is_local(CommandNeeds::Motor));
    assert_eq!(reply_budget(CommandNeeds::Motor), 3_900 * SECOND);
    assert_eq!(reply_budget(CommandNeeds::Nothing), 5 * SECOND);
    assert_eq!(owner_name(FSMAddress::Led), "LED");
}

#[test]
fn local_commands_are_answered() {
    let versions = VersionLines { protocol: "PROTO 2".to_string(), firmware: "FW 1.1.5".to_string() };
    let ask = |c: DiagnosticCommand| {
        let mut io = TranscriptIo::default();
        let a = answer(&c, "NAME", "1.1.5", &versions, &mut io);
        (a, io.into_lines())
    };
    let given = |a: LocalAnswer| match a {
        LocalAnswer::Given(a) => a,
        other => panic!("{:?}", other),
    };
    let (a, lines) = ask(DiagnosticCommand::Ping);
    assert_eq!((given(a).message, lines), ("pong".to_string(), vec!["PONG".to_string()]));
    let (a, lines) = ask(DiagnosticCommand::FirmwareVersion);
    assert_eq!(given(a).details, [("version".to_string(), "1.1.5".to_string())]);
    assert_eq!(lines, ["PROTO 2", "FW 1.1.5"]);
    let (_, lines) = ask(DiagnosticCommand::GetCapabilities);
    assert_eq!(lines, [capabilities_csv()]);
    assert_eq!(
        capabilities_csv(),
        "SERIAL,STATUS,PING,I2C_SCAN,REBOOT,OLED,HDC1080,RTC,LED_TEST,CONFIG"
    );
    let (a, lines) = ask(DiagnosticCommand::Reboot);
    assert!(given(a).reboot_requested);
    assert_eq!(lines, ["OK Rebooting"]);
    let (a, lines) = ask(DiagnosticCommand::InvalidSetEnv { line: "x".to_string() });
    assert_eq!(given(a).message, "SET_ENV: expected <key>=<value>");
    assert_eq!(lines, ["ERROR Bad SET_ENV format"]);
    let (a, _) = ask(DiagnosticCommand::GoHome);
    assert_eq!(given(a).message, "NAME is classified as locally answerable but has no handler");
    let (a, _) = ask(DiagnosticCommand::WriteEnvFile);
    assert_eq!(given(a).message, "WRITE_ENV_FILE: this board has no filesystem to write to");
    assert!(matches!(ask(DiagnosticCommand::I2cScan).0, LocalAnswer::ScanBus));
    assert!(matches!(ask(DiagnosticCommand::Hdc1080Read).0, LocalAnswer::ReadSensor));
    assert!(matches!(ask(DiagnosticCommand::RtcCheck).0, LocalAnswer::ReadClock));
    assert!(matches!(ask(DiagnosticCommand::SaveConfig).0, LocalAnswer::SaveConfig));
    assert!(matches!(ask(DiagnosticCommand::GetConfig).0, LocalAnswer::GetConfig));
    assert!(matches!(ask(DiagnosticCommand::ConfigMode).0, LocalAnswer::ConfigMode));
    let oled = DiagnosticCommand::OledTest { payload: "X".to_string() };
    assert!(matches!(ask(oled).0, LocalAnswer::DriveDisplay { payload } if payload == "X"));
}

#[test]
fn settings_are_staged_and_committed() {
    let mut staging = ConfigStaging::new();
    let mut io = TranscriptIo::default();
    let k = key("wifi.ssid", "wifi_ssid", "wifi", "ssid", false);
    let a = set_env(
        "wifi.ssid",
        "net",
        &SetEnvVerdict::Accepted { key: key("wifi.ssid", "wifi_ssid", "wifi", "ssid", false) },
        &mut staging,
        &mut io,
    );
    assert_eq!(a.details, [("staged".to_string(), "1".to_string())]);
    set_env(
        "wifi.ssid",
        "net2",
        &SetEnvVerdict::Accepted { key: key("wifi.ssid", "wifi_ssid", "wifi", "ssid", false) },
        &mut staging,
        &mut io,
    );
    assert_eq!((staging.len(), staging.get("wifi.ssid")), (1, Some("net2")));
    let a = set_env(
        "zzz",
        "1",
        &SetEnvVerdict::Rejected { reason: "unknown key".to_string() },
        &mut staging,
        &mut io,
    );
    assert_eq!(a.message, "SET_ENV zzz: unknown key");
    assert_eq!(read_value(&k, &staging, &Some("old".to_string()), &placeholders()), "net2");
    assert!(matches!(save_config(&staging), SaveStep::WriteValue(0)));
    match save_written(&staging, 0, &Err("full".to_string()), &mut io) {
        SaveStep::Done(a) => {
            assert_eq!(a.message, "SAVE_CONFIG wifi.ssid: could not write (full)")
        }
        other => panic!("{:?}", other),
    }
    assert!(matches!(save_written(&staging, 0, &Ok(()), &mut io), SaveStep::MarkProvisioned));
    let a = save_marked(&mut staging, &Err("nvs".to_string()), &mut io);
    assert_eq!(a.message, "SAVE_CONFIG: could not mark the tower provisioned (nvs)");
    assert_eq!(staging.len(), 1);
    let a = save_marked(&mut staging, &Ok(()), &mut io);
    assert_eq!(a.details, [("committed".to_string(), "1".to_string())]);
    assert_eq!(staging.len(), 0);
    assert!(matches!(save_config(&staging), SaveStep::MarkProvisioned));
    assert!(!write_env_file(&mut io).passed);
}

#[test]
fn reports_hide_secrets() {
    let mut staging = ConfigStaging::new();
    let mut io = TranscriptIo::default();
    let secret = || key("wifi.pass", "wifi_pass", "wifi", "pass", true);
    let p = placeholders();
    assert_eq!(read_value(&secret(), &staging, &None, &p), "<unset>");
    assert_eq!(read_value(&secret(), &staging, &Some(String::new()), &p), "<unset>");
    assert_eq!(read_value(&secret(), &staging, &Some("hunter".to_string()), &p), "<set>");
    staging.stage(&secret(), "x");
    assert_eq!(read_value(&secret(), &staging, &None, &p), "<set>");
    let known = GetEnvKey::Known {
        setting: setting(key("id", "device_id", "", "id", false), Some("t7")),
    };
    let a = get_env("id", &known, &staging, &p, &mut io);
    assert_eq!(a.details, [("id".to_string(), "t7".to_string())]);
    let unknown = GetEnvKey::Unknown { reason: "unknown key".to_string() };
    assert_eq!(get_env("q", &unknown, &staging, &p, &mut io).message, "GET_ENV q: unknown key");
    let settings = vec![
        setting(key("id", "device_id", "", "id", false), Some("t7")),
        setting(key("wifi.ssid", "wifi_ssid", "wifi", "ssid", false), Some("net")),
        setting(secret(), None),
        setting(key("site.tz", "tz", "site", "tz", false), None),
    ];
    let mut io = TranscriptIo::default();
    let a = get_config(&settings, &staging, &p, &mut io);
    assert_eq!(a.details, [("sections".to_string(), "2".to_string())]);
    assert_eq!(
        io.into_lines(),
        ["id=t7", "[wifi]", "ssid=net", "pass=<set>", "[site]", "tz="]
    );
    let sections = nvs_configuration(&settings, &staging, &p);
    assert_eq!(sections.len(), 2);
    assert_eq!(sections[0].name, "wifi");
    assert_eq!(sections[0].entries.len(), 2);
    assert_eq!(sections[1].entries, [("tz".to_string(), String::new())]);
    let mut io = TranscriptIo::default();
    let stored = vec![Some("a".to_string()), Some(String::new()), None];
    let a = config_mode(&Ok(Some(1)), &stored, &staging, &mut io);
    assert_eq!(
        format!("{:?}", a.details),
        "[(\"provisioned\", \"yes\"), (\"stored\", \"1\"), (\"staged\", \"1\"), (\"keys\", \"3\")]"
    );
    let a = config_mode(&Err("bad".to_string()), &stored, &staging, &mut io);
    assert_eq!(a.message, "CONFIG_MODE failed: NVS is not readable (bad)");
}

#[test]
fn first_wave_settings_are_committed_too() {
    let mut staging = ConfigStaging::new();
    let mut io = TranscriptIo::default();
    let p = placeholders();
    let no = SetEnvVerdict::Rejected { reason: "no".to_string() };
    assert_eq!(environment::set_env("k", "v", &no, &mut staging, &mut io), Err("no".to_string()));
    let yes = SetEnvVerdict::Accepted { key: key("k", "kk", "s", "n", false) };
    assert_eq!(environment::set_env("k", "v", &yes, &mut staging, &mut io), Ok(()));
    let unknown = GetEnvKey::Unknown { reason: "who".to_string() };
    assert_eq!(
        environment::get_env("z", &unknown, &staging, &p, &mut io),
        Err("who".to_string())
    );
    let known = GetEnvKey::Known { setting: setting(key("k", "kk", "s", "n", false), None) };
    assert_eq!(environment::get_env("k", &known, &staging, &p, &mut io), Ok("v".to_string()));
    assert_eq!(environment::save_config(&staging), CommitStep::WriteValue(0));
    assert_eq!(
        environment::save_written(&staging, 0, false, "write failed", &mut io),
        CommitStep::Failed
    );
    assert_eq!(
        environment::save_written(&staging, 0, true, "", &mut io),
        CommitStep::MarkProvisioned
    );
    assert!(!environment::save_marked(&mut staging, false, &mut io));
    assert!(environment::save_marked(&mut staging, true, &mut io));
    assert_eq!(staging.len(), 0);
    assert_eq!(
        io.into_lines(),
        [
            "ERROR SET_ENV k: no",
            "ERROR GET_ENV z: who",
            "ERROR SAVE_CONFIG k: write failed",
            "ERROR SAVE_CONFIG could not mark the tower provisioned"
        ]
    );
}

#[test]
fn only_an_identified_sensor_passes() {
    let step = |e: Hdc1080Event| {
        let mut io = TranscriptIo::default();
        (hdc1080_read(&e, true, &mut io), io.into_lines())
    };
    let fails = |e: Hdc1080Event, message: &str| match step(e).0 {
        Hdc1080Step::Done(a) => assert_eq!((a.passed, a.message.as_str()), (false, message)),
        other => panic!("{:?}", other),
    };
    assert!(matches!(step(Hdc1080Event::Locked(true)).0, Hdc1080Step::Detect));
    assert!(matches!(step(Hdc1080Event::Fitted(true)).0, Hdc1080Step::Configure));
    assert!(matches!(step(Hdc1080Event::Opened(Ok(()))).0, Hdc1080Step::Configure));
    assert!(matches!(step(Hdc1080Event::Configured(Ok(()))).0, Hdc1080Step::ReadDeviceId));
    let (s, lines) = step(Hdc1080Event::DeviceId(Ok(0x1050)));
    assert!(matches!(s, Hdc1080Step::ReadManufacturerId));
    assert_eq!(lines, ["HDC1080 device_id: 0x1050"]);
    assert!(matches!(
        step(Hdc1080Event::ManufacturerId(Ok(0x5449))).0,
        Hdc1080Step::ReadSerialId
    ));
    let (s, lines) = step(Hdc1080Event::SerialId(Ok((1, 0xAB, 0xFFFF))));
    assert!(matches!(s, Hdc1080Step::Measure));
    assert_eq!(lines, ["HDC1080 serial_id: 0001-00AB-FFFF"]);
    match step(Hdc1080Event::Measured(Ok(("21.5".to_string(), "40".to_string())))) {
        (Hdc1080Step::Done(a), lines) => {
            assert!(a.passed);
            assert_eq!(lines, ["HDC1080 Correct read: temp:21.5 hum:40"]);
        }
        other => panic!("{:?}", other),
    }
    fails(
        Hdc1080Event::Locked(false),
        "HDC1080_READ: the sensor is in use elsewhere and did not free up in time",
    );
    fails(Hdc1080Event::Fitted(false), "HDC1080_READ: no HDC1080 was detected at boot");
    fails(Hdc1080Event::Opened(Err("x".to_string())), "HDC1080 init failed: x");
    fails(Hdc1080Event::Configured(Err("x".to_string())), "HDC1080 init failed: x");
    fails(
        Hdc1080Event::DeviceId(Ok(1)),
        "HDC1080 wrong device_id: read 0x0001, expected 0x1050",
    );
    fails(
        Hdc1080Event::ManufacturerId(Ok(2)),
        "HDC1080 wrong manufacturer_id: read 0x0002, expected 0x5449",
    );
    fails(Hdc1080Event::DeviceId(Err("x".to_string())), "HDC1080 get_device_id failed: x");
    fails(
        Hdc1080Event::ManufacturerId(Err("x".to_string())),
        "HDC1080 get_manufacturer_id failed: x",
    );
    fails(Hdc1080Event::SerialId(Err("x".to_string())), "HDC1080 get_serial_id failed: x");
    fails(Hdc1080Event::Measured(Err("x".to_string())), "HDC1080 read failed: x");
    let mut io = TranscriptIo::default();
    let lenient = hdc1080_read(&Hdc1080Event::SerialId(Err("x".to_string())), false, &mut io);
    assert!(matches!(lenient, Hdc1080Step::Measure));
}

#[test]
fn the_bus_is_scanned() {
    let devices = expected_i2c_devices();
    let probes: Vec<BusProbe> = devices
        .into_iter()
        .map(|(address, name)| BusProbe { address, name, answered: address != 0x40 })
        .collect();
    let mut io = TranscriptIo::default();
    let a = i2c_scan(&probes, &mut io);
    assert_eq!(
        format!("{:?}", a.details),
        "[(\"found\", \"SSD1306 OLED,DS3231\"), (\"missing\", \"HDC1080\")]"
    );
    assert_eq!(
        io.into_lines(),
        ["I2C device 0x3C: SSD1306 OLED", "I2C no response 0x40: HDC1080", "I2C device 0x68: DS3231"]
    );
    let mut io = TranscriptIo::default();
    let a = i2c_scan(&Vec::new(), &mut io);
    assert_eq!(a.message, "I2C_SCAN: no device answered, the bus itself is not responding");
}

#[test]
fn the_clock_is_checked() {
    let reading = ClockReading {
        date: LocalDate { year: 2025, month: 6, day: 1 },
        hour: 9,
        minute: 8,
        second: 7,
    };
    let mut io = TranscriptIo::default();
    let a = rtc_check(&RtcReading::Time { reading, sane: true }, &reading, &mut io);
    assert!(a.passed);
    assert_eq!(io.lines, ["TIME: 2025-06-01 09:08:07"]);
    let a = rtc_check(&RtcReading::Time { reading, sane: false }, &reading, &mut io);
    assert_eq!(
        a.message,
        "RTC_CHECK failed: DS3231 reads 2025-06-01 09:08:07, outside the plausible range — battery or never set"
    );
    assert_eq!(a.details.len(), 1);
    let a = rtc_check(&RtcReading::Busy, &reading, &mut io);
    assert_eq!(a.message, "RTC_CHECK: the clock is in use elsewhere and did not free up in time");
    let a = rtc_check(&RtcReading::NoTime, &reading, &mut io);
    assert_eq!(a.message, "RTC_CHECK failed: DS3231 did not return a time");
}

#[test]
fn patterns_are_walked() {
    let all = || {
        vec![
            OledPattern { name: "FULL".to_string(), blank: false },
            OledPattern { name: "OFF".to_string(), blank: true },
        ]
    };
    let mut io = TranscriptIo::default();
    assert_eq!(oled_request("  FULL \n"), "FULL");
    assert!(oled_present(true, 0x3C, &mut io).is_ok());
    assert!(matches!(oled_present(false, 0x3C, &mut io), Err(a)
        if a.message == "OLED_TEST: no response at 0x3C"));
    assert!(matches!(oled_initialised(&Err("i2c".to_string()), &mut io), Err(a)
        if a.message == "OLED_TEST: initialisation failed: i2c"));
    assert!(matches!(drive_oled_pattern("", None, all(), false, &mut io), Err(a)
        if a.message.starts_with("OLED_TEST: name one pattern during a tracking move")));
    assert!(matches!(drive_oled_pattern("X", None, all(), true, &mut io), Err(a)
        if a.message == "OLED_TEST: unknown pattern 'X', expected one of FULL,OFF"));
    let mut io = TranscriptIo::default();
    let mut walk = match drive_oled_pattern("", None, all(), true, &mut io) {
        Ok(w) => w,
        Err(a) => panic!("{:?}", a),
    };
    assert!(matches!(walk.begin(&mut io), OledNext::Draw { hold_ms: 0 }));
    assert!(matches!(walk.after_draw(&Ok(()), &mut io), OledNext::Draw { hold_ms: 700 }));
    match walk.after_draw(&Ok(()), &mut io) {
        OledNext::Done(a) => assert_eq!(
            format!("{:?}", a.details),
            "[(\"patterns\", \"2\"), (\"shown\", \"FULL,OFF\")]"
        ),
        other => panic!("{:?}", other),
    }
    assert_eq!(io.into_lines(), ["OLED pattern FULL", "OLED pattern OFF", "OK"]);
    let mut io = TranscriptIo::default();
    let one = OledPattern { name: "FULL".to_string(), blank: false };
    let mut walk = match drive_oled_pattern("full", Some(one), all(), false, &mut io) {
        Ok(w) => w,
        Err(a) => panic!("{:?}", a),
    };
    assert!(matches!(walk.after_draw(&Err("nak".to_string()), &mut io), OledNext::Done(a)
        if a.message == "OLED_TEST: writing FULL failed: nak"));
}

#[test]
fn led_tests_say_what_was_written() {
    let mut io = TranscriptIo::default();
    let driven = LedTest::Driven { red: 1, green: 20, blue: 255, outcome: Ok(()) };
    let a = drive_status_led("teal", &driven, &mut io);
    assert_eq!(
        format!("{:?}", a.details),
        "[(\"color\", \"TEAL\"), (\"rgb\", \"1,20,255\")]"
    );
    drive_status_led("restore", &LedTest::Restored, &mut io);
    let unknown = LedTest::UnknownColor { names: "RED,GREEN".to_string() };
    let a = drive_status_led("plaid", &unknown, &mut io);
    assert_eq!(
        a.message,
        "LED_TEST: unknown colour 'plaid', expected one of RED,GREEN, RESTORE, or an R,G,B triplet"
    );
    assert_eq!(
        io.into_lines()[..2],
        ["LED driven teal rgb 1,20,255", "LED restored to the runtime status colour"]
    );
    assert!(led_restores("Restore") && !led_restores("RED"));
}

#[test]
fn going_home_is_reported_and_stored() {
    let mut io = TranscriptIo::default();
    assert!(matches!(go_home(false, &mut io), Err(a)
        if a.message == "GO_HOME unavailable: motion is not initialised yet"));
    assert!(go_home(true, &mut io).is_ok());
    let mut p = HomingProgress::new(10);
    assert!(!p.on_tick(10 + 5 * SECOND - 1));
    assert!(p.on_tick(10 + 5 * SECOND));
    assert!(!p.on_tick(11 + 5 * SECOND));
    let mut ctx = MotionContext {
        home_heading_deg: Single { bits: 60.0f32.to_bits() },
        motion_mode: MotionMode::EncoderGuarded,
        actual_heading: Single { bits: 0 },
        persist_nvs: true,
        need_rehome_stepper_only: true,
    };
    let mut journal = Vec::new();
    let mut motor = Vec::new();
    assert!(matches!(go_home_searched(false, &mut ctx, &mut io, &mut motor), Err(a) if !a.passed));
    assert!(ctx.need_rehome_stepper_only && motor.is_empty());
    assert_eq!(ctx.actual_heading.bits, 0);
    assert!(go_home_searched(true, &mut ctx, &mut io, &mut motor).is_ok());
    assert!(matches!(motor[..], [MotorCommand::UpdatePosition(h)] if h.bits == 60.0f32.to_bits()));
    let a = go_home_finished(&mut ctx, true, 3, "60", &mut io, &mut journal);
    assert!(a.passed && !ctx.need_rehome_stepper_only);
    assert_eq!(ctx.actual_heading.bits, 60.0f32.to_bits());
    assert_eq!(journal.len(), 3);
    journal.clear();
    go_home_finished(&mut ctx, false, 3, "60", &mut io, &mut journal);
    assert!(journal.is_empty());
}

#[test]
fn a_transcript_starts_empty() {
    let t = DiagnosticsTranscript::default();
    assert_eq!((t.status, t.message.as_str(), t.reboot_requested), ("", "", false));
    let mut io = TranscriptIo::default();
    io.write_line("a");
    io.write_error("b");
    assert_eq!(io.into_lines(), ["a", "ERROR b"]);
}
