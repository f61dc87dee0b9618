use tower::config::switchboard::{
    AdminSwitches, AdminTestsSwitches, BootHomingSwitches, RecoveryMoveSpec, RecoverySwitches,
};
use tower::config_manager::ConfigManager;
use tower::diagnostics::admin_mode::{
    bench_homing_done, homing_done, persistence_read_back, publish_if, run, run_bench,
    run_encoder_test, run_motor_test, run_persistence_test, run_wifi_mqtt_test, AdminStep,
    CommandOutcome, IdleRun, JogCounts, PersistenceStep, ADMIN_HOMING_FAILED,
};
use tower::diagnostics::answer::Answer;
use tower::diagnostics::boot_recovery::{AfterRecovery, EncoderReading, MoveVerdict, RecoveryRun};
use tower::diagnostics::cmd_handler::{
    topic_cmd, topic_cmd_resp, Channel, Command, CommandHandler, Handled, HomingReading, Received,
    TestStep,
};
use tower::diagnostics::command::{CommandNeeds, DiagnosticCommand, ParsedCommand};
use tower::diagnostics::commands::{self, motion_mode_name, CmdCtx};
use tower::diagnostics::executor::{
    board_transcript, capabilities_csv, config_failure_message, count_stored,
    direct_first_wave_lines, execute_config_command, execute_config_mode,
    execute_first_wave_command, failure_message, is_config_command, is_control_command,
    mqtt_control_command, success_message, supports_first_wave_command, BoardOutcome,
    ConfigOutcome, FirstWaveRoute,
};
use tower::diagnostics::motion_commands::{
    self, exit_install, move_by, move_commands, move_finished, outcome_str, parse_degrees,
    set_home_here, BoundTexts, DegreesField, MotionCmdCtx, MotionCommand, StoreAction, TurnMade,
};
use tower::diagnostics::mqtt::new_shared_command_state;
use tower::diagnostics::serial::{
    MinimalStep, SerialDiagnosticsPoll, SerialDiagnosticsRuntime, SerialStep,
};
use tower::diagnostics::transcript::{DiagnosticsTranscript, TranscriptIo};
use tower::diagnostics::transport::{
    self, announce_install_ready, motion_reply, receive, Inbound, InstallReady, ReplyData, Route,
};
use tower::ieee::Single;
use tower::logic::fsm::diagnostics::console::ConsoleOut;
use tower::logic::fsm::motion::context::MotorCommand;
use tower::logic::fsm::network::WifiState;
use tower::logic::types::{Direction, MotionMode, MoveOutcome};
use tower::text_map::TextMap;

fn single(x: f32) -> Single {
    Single { bits: x.to_bits() }
}

fn admin(enabled: bool) -> AdminSwitches {
    AdminSwitches {
        enabled,
        run_recovery_on_start: true,
        run_homing_on_start: true,
        tests: AdminTestsSwitches {
            motor_test: true,
            encoder_test: false,
            persistence_test: true,
            wifi_mqtt_test: true,
        },
        stop_after: true,
    }
}

const HOMING: BootHomingSwitches = BootHomingSwitches { enabled: true, dir: Direction::Cw };

fn parsed(command: DiagnosticCommand, name: &str) -> ParsedCommand {
    ParsedCommand { command, name: name.to_string(), needs: CommandNeeds::Nothing }
}

fn out(console: &Vec<ConsoleOut>) -> Vec<String> {
    console
        .iter()
        .map(|o| match o {
            ConsoleOut::Line(l) => l.clone(),
            ConsoleOut::Result { command, passed, details, message } => {
                format!("RESULT {command} {passed} {} {message}", details.len())
            }
        })
        .collect()
}

#[test]
fn admin_mode_runs_in_order() {
    assert_eq!((homing_done(true), bench_homing_done(true)), (None, None));
    assert_eq!(homing_done(false), Some(ADMIN_HOMING_FAILED));
    assert_eq!(bench_homing_done(false), Some("Critical failure: Admin homing failed!"));
    assert_eq!(
        run(&admin(false), &HOMING, false),
        Err("Critical failure: Admin mode selected but disabled in switchboard! at Tower 1 (Office Tower)")
    );
    let steps = run(&admin(false), &HOMING, true).unwrap_or_default();
    assert_eq!(
        steps,
        [
            AdminStep::PublishVersion,
            AdminStep::Recovery,
            AdminStep::Homing { dir: Direction::Cw },
            AdminStep::MotorTest,
            AdminStep::PersistenceTest,
            AdminStep::WifiMqttTest,
            AdminStep::Idle
        ]
    );
    let steps = run_bench(&admin(true), &HOMING).unwrap_or_default();
    assert_eq!(steps.len(), 4);
    assert!(run_bench(&admin(false), &HOMING).is_err());
    let mut idle = IdleRun::new();
    for i in 1..10 {
        assert!(idle.note(CommandOutcome::Processed));
        assert_eq!(idle.processed, i);
    }
    assert!(!idle.note(CommandOutcome::Processed));
    let mut idle = IdleRun::new();
    assert!(!idle.note(CommandOutcome::NoneWaiting));
    assert!(!idle.note(CommandOutcome::Failed));
}

#[test]
fn bench_tests_report() {
    assert!(publish_if(false, "t", "p").is_none());
    let mut journal = Vec::new();
    match run_persistence_test(Some(4), true, false, &mut journal) {
        PersistenceStep::Skip(Some(p)) => {
            assert_eq!(p.topic, "device1/admin/persistence_test");
            assert_eq!(p.payload, "PERSIST_TEST SKIP: persist_nvs=false (prev_ctr=4)");
        }
        other => panic!("{:?}", other),
    }
    assert!(matches!(
        run_persistence_test(Some(u32::MAX), true, true, &mut journal),
        PersistenceStep::ReadBack { prev: u32::MAX, next: 0 }
    ));
    assert!(matches!(
        run_persistence_test(None, true, true, &mut journal),
        PersistenceStep::ReadBack { prev: 0, next: 1 }
    ));
    assert_eq!(
        format!("{:?}", journal[1]),
        "U32 { key: \"admin_persist_ctr\", value: 1 }"
    );
    let (ok, p) = persistence_read_back(4, 5, Some(5), true);
    assert!(ok);
    assert_eq!(
        p.map(|p| p.payload),
        Some("PERSIST_TEST PASS: prev_ctr=4 wrote_next=5 readback=5".to_string())
    );
    let (ok, p) = persistence_read_back(4, 5, None, true);
    assert!(!ok);
    assert_eq!(
        p.map(|p| p.payload),
        Some("PERSIST_TEST FAIL: prev_ctr=4 wrote_next=5 readback=0".to_string())
    );
    let (ok, p) = run_wifi_mqtt_test(WifiState::Connected, "Connected(1.2.3.4)", false, true);
    assert!(!ok);
    assert_eq!(
        p.map(|p| p.payload),
        Some("WIFI_MQTT_TEST: wifi_ok=true mqtt_ok=false wifi_state=Connected(1.2.3.4)".to_string())
    );
    let (ok, p) = run_motor_test(&MoveOutcome::Completed, &MoveOutcome::AbortedStall, true);
    assert!(!ok);
    assert_eq!(
        p.map(|p| p.payload),
        Some("MOTOR_TEST FAIL: jog_deg=8 out_cw=Completed out_ccw=AbortedStall".to_string())
    );
    let counts = JogCounts { start: 5, mid: -15, end: 4 };
    let (ok, p) = run_encoder_test(&counts, &MoveOutcome::Completed, &MoveOutcome::Completed, true);
    assert!(ok);
    assert_eq!(
        p.map(|p| p.payload),
        Some("ENCODER_TEST PASS: jog_deg=8 out_cw=Completed cw_delta=-20 out_ccw=Completed ccw_delta=19 (start=5 mid=-15 end=4)".to_string())
    );
    let still = JogCounts { start: 5, mid: 5, end: 5 };
    let (ok, _) = run_encoder_test(&still, &MoveOutcome::Completed, &MoveOutcome::Completed, true);
    assert!(!ok);
}

#[test]
fn recovery_moves_are_verified() {
    let mut cfg = RecoverySwitches {
        enabled: true,
        moves: vec![
            RecoveryMoveSpec { dir: Direction::Cw, deg: single(10.0) },
            RecoveryMoveSpec { dir: Direction::Ccw, deg: single(10.0) },
        ],
        verify_with_encoder: true,
        verify_tol_deg: single(1.0),
        stop_on_verify_fail: true,
        stop_after: false,
        disable_stall_detection: true,
    };
    let mut motor = Vec::new();
    let mut run = RecoveryRun::begin(&cfg, true, &mut motor);
    assert!(matches!(run.next_move(&cfg), Some(m) if m.dir == Direction::Cw));
    let good = EncoderReading { start: 100, end: 205, expected_delta: 100 };
    assert_eq!(run.on_move(&cfg, 5, good), MoveVerdict::Reached { err_ticks: 5 });
    let bad = EncoderReading { start: 100, end: 0, expected_delta: -106 };
    assert_eq!(run.on_move(&cfg, 5, bad), MoveVerdict::Missed { err_ticks: 6 });
    assert!(!run.all_ok && run.next_move(&cfg).is_none());
    assert_eq!(run.finish(&cfg, &mut motor), AfterRecovery::Continue);
    assert_eq!(format!("{:?}", motor), "[SetStallDetection(false), SetStallDetection(true)]");
    let mut run = RecoveryRun::begin(&cfg, true, &mut motor);
    run.on_move(&cfg, 5, bad);
    assert!(run.next_move(&cfg).is_none());
    cfg.stop_on_verify_fail = false;
    cfg.stop_after = true;
    let mut run = RecoveryRun::begin(&cfg, true, &mut motor);
    run.on_move(&cfg, 5, bad);
    assert!(run.next_move(&cfg).is_some() && !run.all_ok);
    cfg.verify_with_encoder = false;
    assert_eq!(run.on_move(&cfg, 5, bad), MoveVerdict::Unverified);
    assert_eq!(run.finish(&cfg, &mut motor), AfterRecovery::Idle);
}

#[test]
fn admin_commands_are_answered() {
    let channel = Channel { device_id: "t7", publish: true };
    assert_eq!(CommandHandler::init("t7"), "t7/admin/cmd");
    assert_ne!(topic_cmd("t7"), topic_cmd_resp("t7"));
    assert!(matches!(CommandHandler::process_one(&channel, None), Received::Nothing));
    assert!(matches!(
        CommandHandler::process_one(&channel, Some(("x", b"{}"))),
        Received::Nothing
    ));
    assert!(matches!(
        CommandHandler::process_one(&channel, Some(("t7/admin/cmd", b"{}"))),
        Received::Text(t) if t == "{}"
    ));
    match CommandHandler::process_one(&channel, Some(("t7/admin/cmd", &[0xC0]))) {
        Received::NotText(Some(p)) => {
            assert_eq!(p.topic, "t7/admin/cmd/resp");
            assert_eq!(
                p.payload,
                r#"{"error":"invalid_encoding","msg":"Command payload must be UTF-8"}"#
            );
        }
        other => panic!("{:?}", other),
    }
    assert_eq!(
        CommandHandler::not_a_command(&channel, "EOF").map(|p| p.payload),
        Some(r#"{"error":"parse_error","msg":"Invalid JSON: EOF"}"#.to_string())
    );
    let mut built_in = TextMap::new();
    built_in.insert("k", "3");
    built_in.insert("b", "true");
    let mut config = ConfigManager::new(None, true, built_in);
    let mut journal = Vec::new();
    let mut go = |c: Command| match CommandHandler::execute(&channel, c, &mut config, &mut journal) {
        Handled::Done(p) => p.map(|p| p.payload).unwrap_or_default(),
        Handled::Failed(m) => format!("failed: {m}"),
        Handled::RunTest(t) => format!("test: {t}"),
        Handled::ReportStatus => "status".to_string(),
    };
    assert_eq!(
        go(Command::SetMode { mode: "ADMIN".to_string() }),
        r#"{"cmd":"set_mode","test":"ADMIN","result":"Runtime mode set to: admin"}"#
    );
    assert_eq!(
        go(Command::SetMode { mode: "x".to_string() }),
        "failed: Invalid mode: x. Must be 'admin' or 'normal'"
    );
    assert_eq!(
        go(Command::SetConfig { key: "k".to_string(), value: "5".to_string() }),
        r#"{"cmd":"set_config","test":"k","result":"Config 'k' updated"}"#
    );
    assert_eq!(
        go(Command::GetConfig { key: Some("k".to_string()) }),
        r#"{"cmd":"get_config","test":"k","result":"{"key":"k","value":5}"}"#
    );
    assert_eq!(
        go(Command::GetConfig { key: Some("b".to_string()) }),
        r#"{"cmd":"get_config","test":"b","result":"{"key":"b","value":true}"}"#
    );
    assert_eq!(
        go(Command::GetConfig { key: Some("q".to_string()) }),
        r#"{"cmd":"get_config","test":"q","result":"{"key":"q","value":null,"note":"No override found, using .env/default"}"}"#
    );
    assert_eq!(
        go(Command::GetConfig { key: None }),
        r#"{"cmd":"get_config","test":"all","result":"{"k":5}"}"#
    );
    assert_eq!(
        go(Command::ResetConfig),
        r#"{"cmd":"reset_config","test":"","result":"All runtime config overrides cleared"}"#
    );
    assert_eq!(
        go(Command::GetConfig { key: Some("k".to_string()) }),
        r#"{"cmd":"get_config","test":"k","result":"{"key":"k","value":3}"}"#
    );
    assert_eq!(go(Command::RunTest { test: "motor".to_string() }), "test: motor");
    assert_eq!(go(Command::GetStatus), "status");
    assert_eq!(
        format!("{:?}", journal),
        "[Str { key: \"runtime_mode\", value: \"admin\" }, Str { key: \"overrides\", value: \"{\\\"k\\\":5}\" }, Str { key: \"overrides\", value: \"{}\" }]"
    );
    let status = CommandHandler::get_status("12.5", true, "Connected");
    assert_eq!(status, r#"{"location":12.5,"mqtt_connected":true,"wifi_state":"Connected"}"#);
    assert!(CommandHandler::report_status(&channel, &status).is_some());
    let quiet = Channel { device_id: "t7", publish: false };
    assert!(CommandHandler::report_status(&quiet, &status).is_none());
}

#[test]
fn single_tests_run_and_home() {
    let channel = Channel { device_id: "t7", publish: true };
    assert!(matches!(CommandHandler::run_test(&channel, "dance", &admin(true)), Err(e)
        if e == "Unknown test: dance"));
    let (cfg, started) = match CommandHandler::run_test(&channel, "encoder", &admin(false)) {
        Ok(x) => x,
        Err(e) => panic!("{}", e),
    };
    assert!(cfg.tests.encoder_test && !cfg.tests.motor_test && !cfg.stop_after);
    assert!(!cfg.run_homing_on_start && !cfg.run_recovery_on_start && !cfg.enabled);
    assert_eq!(
        started.map(|p| p.payload),
        Some(r#"{"status":"starting","test":"encoder"}"#.to_string())
    );
    let result = match CommandHandler::test_ran(&channel, "encoder", &cfg, &HOMING, None) {
        TestStep::Rehome { dir, result } => {
            assert_eq!(dir, Direction::Cw);
            result
        }
        other => panic!("{:?}", other),
    };
    assert_eq!(
        result,
        "Test 'encoder' completed successfully. Check logs for PASS/FAIL details."
    );
    let mut heading = single(1.0);
    let mut journal = Vec::new();
    let mut reading = HomingReading {
        found: false,
        location: single(60.0),
        mode: MotionMode::EncoderGuarded,
        encoder_ticks: 2,
    };
    match CommandHandler::test_rehomed(
        &channel, "encoder", "R", &reading, true, &mut heading, &mut journal,
    ) {
        TestStep::Finished { result, completed } => {
            assert_eq!(result, "R. WARNING: Re-homing failed - position may be incorrect!");
            assert!(completed.is_some());
        }
        other => panic!("{:?}", other),
    }
    assert!(journal.is_empty() && heading.bits == 1.0f32.to_bits());
    reading.found = true;
    match CommandHandler::test_rehomed(
        &channel, "encoder", "R", &reading, true, &mut heading, &mut journal,
    ) {
        TestStep::Finished { result, completed } => {
            assert_eq!(result, "R. Re-homed successfully.");
            assert_eq!(
                completed.map(|p| p.payload),
                Some(r#"{"status":"completed","test":"encoder","result":"R. Re-homed successfully."}"#.to_string())
            );
        }
        other => panic!("{:?}", other),
    }
    assert_eq!((heading.bits, journal.len()), (60.0f32.to_bits(), 3));
    for name in ["nvs", "persistence", "wifi", "wifi_mqtt"] {
        let (cfg, _) = match CommandHandler::run_test(&channel, name, &admin(true)) {
            Ok(x) => x,
            Err(e) => panic!("{}", e),
        };
        match CommandHandler::test_ran(&channel, name, &cfg, &HOMING, Some("boom")) {
            TestStep::Finished { result, .. } => {
                assert_eq!(result, format!("Test '{name}' execution failed: boom"))
            }
            other => panic!("{:?}", other),
        }
    }
    assert_eq!(
        CommandHandler::report_test(&channel, "nvs", "R").map(|p| p.payload),
        Some(r#"{"cmd":"run_test","test":"nvs","result":"R"}"#.to_string())
    );
}

fn install() -> MotionCmdCtx {
    MotionCmdCtx {
        install_mode: true,
        tracking_enabled: true,
        install_max_step_deg: single(30.0),
        soft_limits_enabled: true,
        soft_limit_min_deg: single(60.0),
        soft_limit_max_deg: single(300.0),
        home_heading_deg: single(60.0),
        actual_heading: single(100.0),
        heading_trusted: false,
        reboot_requested: false,
    }
}

fn degrees(raw: &str, value: Option<f32>) -> Option<DegreesField> {
    Some(DegreesField { raw: raw.to_string(), value: value.map(single) })
}

const TEXTS: BoundTexts<'static> =
    BoundTexts { requested: "-110", cap: "30", heading: "300.00", min: "60", max: "300" };

#[test]
fn degrees_are_read_with_care() {
    assert_eq!(
        parse_degrees(&None).map(|s| s.bits),
        Err("move_by requires a `degrees` field".to_string())
    );
    assert_eq!(
        parse_degrees(&degrees("\"x\"", None)).map(|s| s.bits),
        Err("`degrees` must be a number (got \"x\")".to_string())
    );
    assert_eq!(
        parse_degrees(&degrees("1e99", Some(f32::INFINITY))).map(|s| s.bits),
        Err("`degrees` must be a finite number".to_string())
    );
    assert_eq!(
        parse_degrees(&degrees("-0.0", Some(-0.0))).map(|s| s.bits),
        Err("`degrees` must be non-zero".to_string())
    );
    assert_eq!(
        parse_degrees(&degrees("-5", Some(-5.0))).map(|s| s.bits),
        Ok((-5.0f32).to_bits())
    );
    let mut ctx = install();
    assert!(move_by(&ctx, &degrees("-5", Some(-5.0))).is_ok());
    ctx.install_mode = false;
    assert_eq!(
        move_by(&ctx, &None).map(|s| s.bits),
        Err("refused: tracking is enabled; move_by is only accepted on an Install or Admin image".to_string())
    );
    ctx.tracking_enabled = false;
    assert!(ctx.movement_allowed());
}

#[test]
fn turns_are_bounded() {
    let mut ctx = install();
    assert_eq!(
        ctx.bound(single(-110.0), single(0.0), &TEXTS).map(|s| s.bits),
        Err("`degrees` must be within ±30 while the heading is untrusted (got -110)".to_string())
    );
    assert_eq!(
        ctx.bound(single(-30.0), single(0.0), &TEXTS).map(|s| s.bits),
        Ok((-30.0f32).to_bits())
    );
    ctx.heading_trusted = true;
    assert_eq!(ctx.soft_target(single(350.0)).bits, 300.0f32.to_bits());
    assert_eq!(
        ctx.bound(single(50.0), single(0.0), &TEXTS).map(|s| s.bits),
        Err("refused: heading 300.00 is already at the soft limit (60..300)".to_string())
    );
    assert_eq!(
        ctx.bound(single(50.0), single(20.0), &TEXTS).map(|s| s.bits),
        Ok(20.0f32.to_bits())
    );
    ctx.soft_limits_enabled = false;
    assert_eq!(
        ctx.bound(single(50.0), single(0.0), &TEXTS).map(|s| s.bits),
        Ok(50.0f32.to_bits())
    );
}

#[test]
fn an_installation_leaves_no_encoder_position() {
    let mut ctx = install();
    let mut motor = move_commands(77, true, true);
    assert_eq!(
        format!("{:?}", motor),
        "[SetStallDetection(false), MoveBy(77), SetStallDetection(true)]"
    );
    assert_eq!(move_commands(77, false, true).len(), 1);
    let mut store = Vec::new();
    let turn = TurnMade {
        requested: single(-20.0),
        applied: single(-10.0),
        to_heading: single(90.0),
        ignore_encoder: true,
        lmsw_active: false,
    };
    let r = move_finished(&mut ctx, &MoveOutcome::AbortedStall, &turn, &mut motor, &mut store);
    assert_eq!((r.outcome, r.to_heading.bits), ("aborted_stall", 100.0f32.to_bits()));
    assert!(store.is_empty());
    let r = move_finished(&mut ctx, &MoveOutcome::Completed, &turn, &mut motor, &mut store);
    assert_eq!((r.outcome, r.to_heading.bits), ("completed", 90.0f32.to_bits()));
    assert!(r.guardrails_bypassed && r.from_heading.bits == 100.0f32.to_bits());
    assert!(matches!(store[1], StoreAction::ClearEncoderSnapshot));
    assert!(matches!(motor[3], MotorCommand::UpdatePosition(_)));
    store.clear();
    motor.clear();
    assert!(matches!(set_home_here(&mut ctx, false, &mut motor, &mut store), Err(e)
        if e.starts_with("refused: limit switch is not pressed")));
    let r = set_home_here(&mut ctx, true, &mut motor, &mut store);
    assert!(matches!(r, Ok(h) if h.heading_trusted && h.heading.bits == 60.0f32.to_bits()));
    assert!(ctx.heading_trusted && matches!(store[1], StoreAction::ClearEncoderSnapshot));
    assert!(matches!(motor[0], MotorCommand::ForceZeroIfLimitSwitchPressed));
    store.clear();
    let r = exit_install(&mut ctx, false, &mut store);
    assert!(matches!(r, Ok(e) if e.note.contains("~40 min")));
    assert!(ctx.reboot_requested && matches!(store[0], StoreAction::SaveInstallDone));
    ctx.install_mode = false;
    assert!(matches!(exit_install(&mut ctx, true, &mut store), Err(e)
        if e == "refused: not an Install image"));
    assert_eq!(outcome_str(&MoveOutcome::AbortedPowerMissing), "aborted_power_missing");
    assert_eq!(outcome_str(&MoveOutcome::AbortedOvershoot), "aborted_overshoot");
    assert_eq!(motion_commands::dispatch("set_home_here"), Some(MotionCommand::SetHomeHere));
    assert_eq!(motion_commands::dispatch("exit_install"), Some(MotionCommand::ExitInstall));
    assert_eq!(motion_commands::dispatch("get_status"), None);
}

#[test]
fn the_transport_replies_to_everything() {
    let ctx = CmdCtx {
        device_id: "t7",
        firmware_version: "1.1.5",
        mqtt_connected: true,
        wifi_connected: true,
        motion_mode: motion_mode_name(MotionMode::StepperOnly),
        current_heading: single(90.0),
    };
    assert_eq!(ctx.motion_mode, "stepper_only");
    assert_eq!(motion_mode_name(MotionMode::EncoderGuarded), "encoder_guarded");
    assert!(commands::dispatch("reboot", &ctx).is_none());
    assert_eq!(transport::subscribe("t7"), "tower/t7/cmd/diagnostics");
    assert!(matches!(receive("t7", None), Inbound::Nothing));
    assert!(matches!(receive("t7", Some(("tower/t8/cmd/diagnostics", b"x"))), Inbound::Ignored));
    assert!(matches!(receive("t7", Some(("tower/t7/cmd/diagnostics", b"x"))), Inbound::Text(t)
        if t == "x"));
    match receive("t7", Some(("tower/t7/cmd/diagnostics", &[0xFF]))) {
        Inbound::NotText(e) => {
            assert_eq!((e.status(), e.cmd.as_str()), ("error", "unknown"));
            assert!(matches!(e.outcome, Err(m) if m == "payload must be UTF-8"));
        }
        other => panic!("{:?}", other),
    }
    let ask = |cmd: &str, lent: bool| {
        let c = transport::Command { cmd: cmd.to_string(), request_id: Some("r1".to_string()) };
        transport::process_one("t7", &Some(c), &ctx, lent)
    };
    match transport::process_one("t7", &None, &ctx, true) {
        Route::Publish(e) => assert!(matches!(e.outcome, Err(m)
            if m == "payload must be valid JSON with a `cmd` field")),
        other => panic!("{:?}", other),
    }
    match ask("get_status", true) {
        Route::Publish(e) => {
            assert_eq!((e.status(), e.request_id.as_str()), ("ok", "r1"));
            assert_eq!(e.topic, "tower/t7/cmd/diagnostics/ack");
            assert!(matches!(e.outcome, Ok(ReplyData::Status(s)) if s.firmware_version == "1.1.5"));
        }
        other => panic!("{:?}", other),
    }
    assert!(matches!(ask("move_by", true), Route::Motion(MotionCommand::MoveBy)));
    match ask("move_by", false) {
        Route::Publish(e) => assert!(matches!(e.outcome, Err(m) if m == "unsupported command")),
        other => panic!("{:?}", other),
    }
    let c = transport::Command { cmd: "move_by".to_string(), request_id: None };
    let e = motion_reply("t7", &c, Err("refused".to_string()));
    assert_eq!((e.request_id.as_str(), e.cmd.as_str(), e.status()), ("", "move_by", "error"));
    let ready = InstallReady {
        heading_trusted: false,
        lmsw_active: true,
        max_step_deg: single(30.0),
        tracking_inhibited: true,
    };
    let e = announce_install_ready("t7", ready);
    assert_eq!((e.cmd.as_str(), e.status()), ("install_ready", "ok"));
}

#[test]
fn the_serial_line_is_served() {
    let mut s = SerialDiagnosticsRuntime::new();
    let mut console = Vec::new();
    s.announce_phase("WIFI", "PHASE WIFI", &mut console);
    s.announce_phase("WIFI", "PHASE WIFI", &mut console);
    s.announce_phase("HOMING", "PHASE HOMING", &mut console);
    assert_eq!(out(&console), ["PHASE WIFI", "PHASE HOMING"]);
    console.clear();
    let led = parsed(DiagnosticCommand::LedTest { color: "RED".to_string() }, "LED_TEST");
    let busy = vec!["ERROR BUSY HOMING".to_string()];
    assert!(matches!(s.poll_minimal(&led, true, &busy, &mut console), MinimalStep::DriveLed { color }
        if color == "RED"));
    s.led_driven(Answer::pass(Vec::new(), "x"), false, &mut console);
    s.led_driven(Answer::fail("bad".to_string()), true, &mut console);
    assert!(matches!(s.poll_minimal(&led, false, &busy, &mut console), MinimalStep::Answered));
    assert_eq!(
        out(&console),
        [
            "CMD_RECEIVED", "LED_TEST produced no output", "RESULT LED_TEST true 0 ",
            "RESULT LED_TEST false 0 bad", "CMD_RECEIVED", "ERROR BUSY HOMING"
        ]
    );
    console.clear();
    let mut state = new_shared_command_state();
    let relay = parsed(DiagnosticCommand::RelayMotor { state: "ON".to_string() }, "RELAY_MOTOR");
    assert_eq!(s.poll(&relay, &mut state, 0, &mut console), SerialStep::Refused);
    assert_eq!(
        out(&console),
        [
            "CMD_RECEIVED",
            "ERROR RELAY_MOTOR is not enabled in first-wave diagnostics",
            "RESULT RELAY_MOTOR false 0 RELAY_MOTOR is not enabled in first-wave diagnostics"
        ]
    );
    console.clear();
    let home = parsed(DiagnosticCommand::GoHome, "GO_HOME");
    assert_eq!(s.poll(&home, &mut state, 0, &mut console), SerialStep::Execute { control: true });
    assert!(state.inflight_control.is_some());
    assert_eq!(s.poll(&home, &mut state, 0, &mut console), SerialStep::Refused);
    assert_eq!(
        out(&console)[2..],
        [
            "ERROR BUSY another diagnostics control command is already in progress",
            "RESULT GO_HOME false 0 BUSY another diagnostics control command is already in progress"
        ]
    );
    console.clear();
    let transcript = DiagnosticsTranscript {
        status: "completed",
        message: "done".to_string(),
        lines: Vec::new(),
        reboot_requested: true,
        details: Vec::new(),
    };
    assert_eq!(
        s.executed(&home, transcript, false, true, &mut state, &mut console),
        SerialDiagnosticsPoll::RebootRequested
    );
    assert!(state.inflight_control.is_none());
    assert_eq!(out(&console), ["done", "RESULT GO_HOME true 0 done"]);
    let failed = DiagnosticsTranscript {
        status: "failed",
        message: "no".to_string(),
        ..DiagnosticsTranscript::default()
    };
    assert_eq!(
        s.executed(&home, failed, true, false, &mut state, &mut console),
        SerialDiagnosticsPoll::CommandProcessed
    );
    assert_eq!(out(&console)[2], "RESULT GO_HOME false 0 no");
}

#[test]
fn first_wave_commands_are_routed() {
    assert_eq!(
        capabilities_csv(),
        "MQTT,SERIAL,STATUS,RTC,HDC1080,GO_HOME,REBOOT,PING,CONFIG,I2C_SCAN,LED_TEST,OLED"
    );
    assert_eq!(direct_first_wave_lines("firmware_version", "FW"), Some(vec!["FW".to_string()]));
    assert_eq!(direct_first_wave_lines("ping", "FW"), None);
    assert!(supports_first_wave_command(&DiagnosticCommand::Ping));
    assert!(!supports_first_wave_command(&DiagnosticCommand::MotorMove { argument: "1".to_string() }));
    assert!(is_config_command(&DiagnosticCommand::GetConfig));
    assert!(is_control_command(&DiagnosticCommand::SaveConfig));
    assert!(!is_control_command(&DiagnosticCommand::GetConfig));
    assert!(matches!(mqtt_control_command("hdc1080_read"), Some(DiagnosticCommand::Hdc1080Read)));
    assert!(mqtt_control_command("ping").is_none());
    let mut io = TranscriptIo::default();
    let config = parsed(DiagnosticCommand::GetConfig, "GET_CONFIG");
    assert!(matches!(
        execute_first_wave_command(&config, true, &mut io),
        FirstWaveRoute::Configuration
    ));
    match execute_first_wave_command(&config, false, &mut io) {
        FirstWaveRoute::Refused(t) => assert_eq!(
            t.message,
            "GET_CONFIG unavailable: configuration storage is not lendable during a tracking move"
        ),
        other => panic!("{:?}", other),
    }
    let ping = parsed(DiagnosticCommand::Ping, "PING");
    assert!(matches!(execute_first_wave_command(&ping, false, &mut io), FirstWaveRoute::Board));
    let t = board_transcript(&ping, &BoardOutcome::Completed, Vec::new());
    assert_eq!((t.status, t.message.as_str()), ("completed", "PING completed"));
    let t = board_transcript(&ping, &BoardOutcome::RebootRequested, Vec::new());
    assert!(t.reboot_requested);
    let failed = BoardOutcome::Failed { message: "m".to_string() };
    assert_eq!(board_transcript(&ping, &failed, Vec::new()).status, "failed");
    assert_eq!(
        failure_message(&BoardOutcome::NotEnabled { name: "X".to_string() }, "PING"),
        "X is not enabled in first-wave diagnostics"
    );
    assert_eq!(
        failure_message(&BoardOutcome::ConfigurationUnreported, "PING"),
        "PING could not report configuration"
    );
    assert_eq!(success_message(&DiagnosticCommand::RtcCheck, "RTC"), "RTC check completed");
    let t = execute_config_command(&config, &ConfigOutcome::Completed, 3, 1);
    assert_eq!(format!("{:?}", t.details), "[(\"sections\", \"3\")]");
    let rejected = ConfigOutcome::Rejected { reason: "why".to_string() };
    assert_eq!(config_failure_message(&rejected, "SET_ENV"), "SET_ENV failed: why");
    assert_eq!(
        config_failure_message(&ConfigOutcome::NotConfiguration, "PING"),
        "PING is not a configuration command"
    );
    assert_eq!(
        config_failure_message(&ConfigOutcome::ConfigurationUnreported, "GET_CONFIG"),
        "GET_CONFIG could not report configuration"
    );
    let stored = vec![Some("a".to_string()), Some(String::new()), None];
    assert_eq!(count_stored(&stored), 1);
    let t = execute_config_mode(Ok(None), &stored, 2, &mut io);
    assert_eq!(t.message, "Configuration storage is readable");
    let t = execute_config_mode(Err("bad".to_string()), &stored, 2, &mut io);
    assert_eq!(t.message, "CONFIG_MODE failed: NVS is not readable: bad");
}
