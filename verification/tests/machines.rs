use std::collections::VecDeque;

use tower::diagnostics::command::DiagnosticCommand;
use tower::diagnostics::probes::LedTest;
use tower::logic::fsm::buttons::{ButtonLevels, ButtonsCheckPressed, ButtonsContext};
use tower::logic::fsm::led::{
    drive_test, runtime_look, LEDCheck, LEDContext, LEDDiagnosticHold, LedStep, RuntimeLook,
};
use tower::logic::fsm::led_states::{
    LEDHold, LEDMaintenance, LEDMaintenanceMovingCCW, LEDMaintenanceMovingCW, LEDOff, LedDisplay,
    LedState,
};
use tower::logic::fsm::mail::{
    receive, receive_latest, reply_done, reply_progress, send, DiagRequest, FSMAddress,
    FSMCommand, FSMState, Mail,
};
use tower::logic::fsm::maintenance::{
    MaintenanceContext, MaintenanceEnter, MaintenanceExit, MaintenanceMoveCCW, MaintenanceMoveCW,
    MaintenanceNotMoving, MaintenanceState,
};

fn levels(maintenance: bool, ccw: bool, cw: bool) -> ButtonLevels {
    ButtonLevels { maintenance, ccw, cw }
}

fn shown(mail: &Vec<Mail>) -> String {
    format!("{:?}", mail.iter().map(|m| format!("{:?}>{:?}", m.to, m.message)).collect::<Vec<_>>())
}

fn led_request(ticket: u32, color: &str) -> FSMCommand {
    FSMCommand::DiagnosticRequest(DiagRequest {
        ticket,
        command: DiagnosticCommand::LedTest { color: color.to_string() },
    })
}

#[test]
fn addresses_fill_the_table() {
    let all = [
        FSMAddress::Motion, FSMAddress::Network, FSMAddress::Buttons, FSMAddress::Led,
        FSMAddress::Diagnostics,
    ];
    assert_eq!(FSMAddress::count(), 5);
    for (i, a) in all.into_iter().enumerate() {
        assert_eq!(a.index(), i);
    }
    assert!(!FSMState::default().maintenance_mode);
}

#[test]
fn mail_arrives_in_order() {
    let mut out = Vec::new();
    send(&mut out, FSMAddress::Led, FSMCommand::LEDOff);
    reply_progress(&mut out, 3, "half".to_string());
    reply_done(&mut out, 3, true, vec![("k".to_string(), "v".to_string())], "ok".to_string());
    assert_eq!(out.len(), 3);
    assert_eq!(out[1].to, FSMAddress::Diagnostics);
    let mut inbox: VecDeque<FSMCommand> = out.into_iter().map(|m| m.message).collect();
    assert!(matches!(receive(&mut inbox), Some(FSMCommand::LEDOff)));
    assert_eq!(inbox.len(), 2);
    match receive_latest(&mut inbox) {
        Some(FSMCommand::DiagnosticReply(r)) => assert_eq!(r.ticket, 3),
        other => panic!("{:?}", other),
    }
    assert!(receive(&mut inbox).is_none());
    assert!(receive_latest(&mut inbox).is_none());
}

#[test]
fn a_held_button_is_reported_once() {
    let mut ctx = ButtonsContext::new();
    let mut out = Vec::new();
    let machine = ButtonsCheckPressed;
    machine.process(&mut ctx, levels(true, false, true), &mut out);
    assert_eq!(shown(&out), "[\"Motion>MaintenancePressed\", \"Motion>CWPressed\"]");
    machine.process(&mut ctx, levels(true, false, true), &mut out);
    assert_eq!(out.len(), 2);
    machine.process(&mut ctx, levels(false, true, false), &mut out);
    machine.process(&mut ctx, levels(true, true, false), &mut out);
    assert_eq!(out.len(), 4);
    assert!(matches!(out[2].message, FSMCommand::CCWPressed));
    assert!(matches!(out[3].message, FSMCommand::MaintenancePressed));
}

#[test]
fn the_led_follows_the_runtime() {
    assert_eq!(runtime_look(None), RuntimeLook::Idle);
    assert_eq!(runtime_look(Some(FSMState { maintenance_mode: true })), RuntimeLook::Maintenance);
    let mut ctx = LEDContext::new();
    assert_eq!(ctx.show_runtime(RuntimeLook::Idle), Some(RuntimeLook::Idle));
    ctx.painted(RuntimeLook::Idle, false);
    assert_eq!(ctx.show_runtime(RuntimeLook::Idle), Some(RuntimeLook::Idle));
    ctx.painted(RuntimeLook::Idle, true);
    assert_eq!(ctx.show_runtime(RuntimeLook::Idle), None);
    assert_eq!(ctx.show_runtime(RuntimeLook::Maintenance), Some(RuntimeLook::Maintenance));
}

#[test]
fn a_test_colour_is_driven_and_held() {
    let mut inbox = VecDeque::new();
    let mut out = Vec::new();
    inbox.push_back(FSMCommand::PerformOTA);
    inbox.push_back(FSMCommand::DiagnosticRequest(DiagRequest {
        ticket: 1,
        command: DiagnosticCommand::GoHome,
    }));
    inbox.push_back(led_request(2, "RED"));
    inbox.push_back(led_request(3, "restore"));
    match LEDCheck.process(&mut inbox, &mut out) {
        LedStep::Drive { ticket, color } => assert_eq!((ticket, color.as_str()), (2, "RED")),
        other => panic!("{:?}", other),
    }
    assert_eq!(out.len(), 1);
    assert!(shown(&out).contains("routed to the LED machine, which does not own that hardware"));
    assert_eq!(inbox.len(), 1);

    let mut ctx = LEDContext { shown: Some(RuntimeLook::Idle) };
    let driven = drive_test(
        &mut ctx,
        &mut out,
        2,
        "RED",
        &LedTest::Driven { red: 255, green: 0, blue: 0, outcome: Ok(()) },
    );
    assert!(driven);
    assert_eq!(ctx.shown, None);
    assert_eq!(out.len(), 3);
    assert!(matches!(LEDCheck.after_drive(true), LedStep::ToDiagnosticHold));
    assert!(matches!(LEDCheck.after_drive(false), LedStep::FollowRuntime));

    let maintenance = Some(FSMState { maintenance_mode: true });
    assert!(matches!(
        LEDDiagnosticHold.process(maintenance, &mut inbox, &mut out),
        LedStep::ToCheck
    ));
    assert_eq!(inbox.len(), 1);
    assert!(matches!(LEDDiagnosticHold.process(None, &mut inbox, &mut out), LedStep::ToCheck));
    assert_eq!(out.len(), 5);
    assert!(matches!(LEDDiagnosticHold.process(None, &mut inbox, &mut out), LedStep::HoldColor));
    assert!(matches!(LEDDiagnosticHold.after_drive(true), LedStep::HoldColor));
    assert!(matches!(LEDDiagnosticHold.after_drive(false), LedStep::HoldColor));
}

#[test]
fn a_colour_that_is_not_driven_keeps_the_look() {
    let mut ctx = LEDContext { shown: Some(RuntimeLook::Maintenance) };
    let mut out = Vec::new();
    let failed = LedTest::Driven { red: 1, green: 2, blue: 3, outcome: Err("bus".to_string()) };
    assert!(!drive_test(&mut ctx, &mut out, 4, "TEAL", &failed));
    assert_eq!(ctx.shown, Some(RuntimeLook::Maintenance));
    assert_eq!(out.len(), 1);
    assert!(!drive_test(&mut ctx, &mut out, 5, "PLAID", &LedTest::UnknownColor { names: "RED".to_string() }));
    assert_eq!(out.len(), 2);
}

#[test]
fn led_states_show_and_return() {
    let mut inbox = VecDeque::new();
    assert_eq!(LEDHold.process(&mut inbox), LedState::Hold);
    inbox.push_back(FSMCommand::LEDOff);
    inbox.push_back(FSMCommand::LEDMaintenanceMovingCW);
    assert_eq!(LEDHold.process(&mut inbox), LedState::MaintenanceMovingCW);
    assert!(inbox.is_empty());
    inbox.push_back(FSMCommand::PerformOTA);
    assert_eq!(LEDHold.process(&mut inbox), LedState::Hold);
    assert_eq!(LEDOff.process(), (LedDisplay::Dark, LedState::Hold));
    assert_eq!(LEDMaintenance.process(), (LedDisplay::Maintenance, LedState::Hold));
    assert_eq!(
        LEDMaintenanceMovingCCW.process(),
        (LedDisplay::MaintenanceMovingCCW, LedState::Hold)
    );
    assert_eq!(LEDMaintenanceMovingCW.process(), (LedDisplay::MaintenanceMovingCW, LedState::Hold));
}

#[test]
fn buttons_move_the_tower_by_hand() {
    let mut ctx = MaintenanceContext::new();
    let (s, m) = MaintenanceEnter.process(&mut ctx, levels(false, true, false));
    assert_eq!((s, m.len()), (MaintenanceState::Enter, 0));
    let (s, m) = MaintenanceEnter.process(&mut ctx, levels(true, false, false));
    assert_eq!(s, MaintenanceState::NotMoving);
    assert!(matches!(m[0], FSMCommand::LEDMaintenance));
    let (s, _) = MaintenanceNotMoving.process(&mut ctx, levels(true, false, false));
    assert_eq!(s, MaintenanceState::NotMoving);
    let (s, m) = MaintenanceNotMoving.process(&mut ctx, levels(false, true, false));
    assert_eq!(s, MaintenanceState::MoveCCW);
    assert!(matches!(m[0], FSMCommand::LEDMaintenanceMovingCCW));
    let (s, m) = MaintenanceMoveCCW.process(&mut ctx, levels(false, true, false));
    assert_eq!(s, MaintenanceState::MoveCCW);
    assert!(matches!(m[1], FSMCommand::MotionMoveBy(30_000)));
    let (s, _) = MaintenanceMoveCCW.process(&mut ctx, levels(false, false, true));
    assert_eq!(s, MaintenanceState::MoveCW);
    let (s, m) = MaintenanceMoveCW.process(&mut ctx, levels(false, false, true));
    assert_eq!(s, MaintenanceState::MoveCW);
    assert!(matches!(m[1], FSMCommand::MotionMoveBy(-30_000)));
    let (s, m) = MaintenanceMoveCW.process(&mut ctx, levels(true, true, false));
    assert_eq!(s, MaintenanceState::Exit);
    assert!(matches!(m[0], FSMCommand::LEDOff));
    assert_eq!(MaintenanceExit.process(), MaintenanceState::Enter);
}
