//! Commands that the diagnostics machine answers itself.

use vstd::prelude::*;

use crate::diagnostics::answer::{failed, passed, with_error, Answer, AnswerView};
use crate::diagnostics::command::{CommandNeeds, CommandView, DiagnosticCommand};
use crate::diagnostics::transcript::{one_detail, TranscriptIo};
use crate::logic::fsm::diagnostics::config::write_env_file;
use crate::text::{concat2, join, joined, texts};

verus! {

/// How long a diagnostic may wait for the sensor lock.
pub const SENSOR_LOCK_BUDGET_MS: u64 = 2000;

/// The capabilities that the console reports, in order.
pub open spec fn capability_list() -> Seq<Seq<char>> {
    seq![
        "SERIAL"@,
        "STATUS"@,
        "PING"@,
        "I2C_SCAN"@,
        "REBOOT"@,
        "OLED"@,
        "HDC1080"@,
        "RTC"@,
        "LED_TEST"@,
        "CONFIG"@,
    ]
}

/// The capabilities that the console reports.
pub fn capabilities() -> (r: Vec<String>)
    ensures
        texts(r@) == capability_list(),
{
    let mut r: Vec<String> = Vec::new();
    r.push("SERIAL".to_owned());
    r.push("STATUS".to_owned());
    r.push("PING".to_owned());
    r.push("I2C_SCAN".to_owned());
    r.push("REBOOT".to_owned());
    r.push("OLED".to_owned());
    r.push("HDC1080".to_owned());
    r.push("RTC".to_owned());
    r.push("LED_TEST".to_owned());
    r.push("CONFIG".to_owned());
    assert(texts(r@) =~= capability_list());
    r
}

/// The capabilities, separated by commas.
pub fn capabilities_csv() -> (r: String)
    ensures
        r@ == joined(capability_list(), ","@),
{
    let list = capabilities();
    join(&list, ",")
}

pub open spec fn answers_locally(needs: CommandNeeds) -> bool {
    match needs {
        CommandNeeds::Nothing => true,
        CommandNeeds::SharedBus => true,
        CommandNeeds::Sensor => true,
        CommandNeeds::Storage => true,
        CommandNeeds::Reset => true,
        _ => false,
    }
}

/// Whether the diagnostics machine can answer without asking another.
pub fn is_local(needs: CommandNeeds) -> (r: bool)
    ensures
        r == answers_locally(needs),
{
    match needs {
        CommandNeeds::Nothing => true,
        CommandNeeds::SharedBus => true,
        CommandNeeds::Sensor => true,
        CommandNeeds::Storage => true,
        CommandNeeds::Reset => true,
        _ => false,
    }
}

/// Every need is met here, or by exactly one other machine, or by none: what is
/// answered here has no other owner.
pub proof fn local_commands_have_no_other_owner(needs: CommandNeeds)
    requires
        answers_locally(needs),
    ensures
        crate::logic::fsm::diagnostics::delegate::owner_of(needs) is None,
{
}

/// The protocol layer's renderings of who speaks.
#[derive(Debug)]
pub struct VersionLines {
    pub protocol: String,
    pub firmware: String,
}

/// How a local command is answered.
#[derive(Debug)]
pub enum LocalAnswer {
    /// The answer is given.
    Given(Answer),
    /// It takes a look at the hardware or at storage.
    ScanBus,
    DriveDisplay { payload: String },
    ReadSensor,
    ReadClock,
    SetEnv { key: String, value: String },
    GetEnv { key: String },
    SaveConfig,
    GetConfig,
    ConfigMode,
}

#[verifier::ext_equal]
pub enum LocalView {
    Given(AnswerView),
    ScanBus,
    DriveDisplay { payload: Seq<char> },
    ReadSensor,
    ReadClock,
    SetEnv { key: Seq<char>, value: Seq<char> },
    GetEnv { key: Seq<char> },
    SaveConfig,
    GetConfig,
    ConfigMode,
}

impl View for LocalAnswer {
    type V = LocalView;

    open spec fn view(&self) -> LocalView {
        match self {
            LocalAnswer::Given(answer) => LocalView::Given(answer@),
            LocalAnswer::ScanBus => LocalView::ScanBus,
            LocalAnswer::DriveDisplay { payload } => LocalView::DriveDisplay {
                payload: payload@,
            },
            LocalAnswer::ReadSensor => LocalView::ReadSensor,
            LocalAnswer::ReadClock => LocalView::ReadClock,
            LocalAnswer::SetEnv { key, value } => LocalView::SetEnv { key: key@, value: value@ },
            LocalAnswer::GetEnv { key } => LocalView::GetEnv { key: key@ },
            LocalAnswer::SaveConfig => LocalView::SaveConfig,
            LocalAnswer::GetConfig => LocalView::GetConfig,
            LocalAnswer::ConfigMode => LocalView::ConfigMode,
        }
    }
}

pub open spec fn unhandled(name: Seq<char>) -> Seq<char> {
    name + " is classified as locally answerable but has no handler"@
}

/// How a command is answered.
pub open spec fn local_answer(
    command: CommandView,
    name: Seq<char>,
    firmware_version: Seq<char>,
) -> LocalView {
    match command {
        CommandView::Ping => LocalView::Given(passed(Seq::empty(), "pong"@)),
        CommandView::FirmwareVersion => LocalView::Given(
            passed(seq![("version"@, firmware_version)], ""@),
        ),
        CommandView::GetCapabilities => LocalView::Given(
            passed(seq![("capabilities"@, joined(capability_list(), ","@))], ""@),
        ),
        CommandView::I2cScan => LocalView::ScanBus,
        CommandView::OledTest { payload } => LocalView::DriveDisplay { payload },
        CommandView::Hdc1080Read => LocalView::ReadSensor,
        CommandView::RtcCheck => LocalView::ReadClock,
        CommandView::SetEnv { key, value } => LocalView::SetEnv { key, value },
        CommandView::InvalidSetEnv { .. } => LocalView::Given(
            failed("SET_ENV: expected <key>=<value>"@),
        ),
        CommandView::GetEnv { key } => LocalView::GetEnv { key },
        CommandView::SaveConfig => LocalView::SaveConfig,
        CommandView::GetConfig => LocalView::GetConfig,
        CommandView::ConfigMode => LocalView::ConfigMode,
        CommandView::WriteEnvFile => LocalView::Given(
            failed("WRITE_ENV_FILE: this board has no filesystem to write to"@),
        ),
        CommandView::Reboot => LocalView::Given(
            AnswerView {
                passed: true,
                details: Seq::empty(),
                message: "Rebooting"@,
                reboot_requested: true,
            },
        ),
        _ => LocalView::Given(failed(unhandled(name))),
    }
}

/// The lines that answering a command writes here.
pub open spec fn local_lines(
    command: CommandView,
    name: Seq<char>,
    versions: VersionLines,
) -> Seq<Seq<char>> {
    match command {
        CommandView::Ping => seq!["PONG"@],
        CommandView::FirmwareVersion => seq![versions.protocol@, versions.firmware@],
        CommandView::GetCapabilities => seq![joined(capability_list(), ","@)],
        CommandView::InvalidSetEnv { .. } => seq!["ERROR Bad SET_ENV format"@],
        CommandView::WriteEnvFile => with_error(
            Seq::empty(),
            "WRITE_ENV_FILE: this board has no filesystem to write to"@,
        ),
        CommandView::Reboot => seq!["OK Rebooting"@],
        CommandView::I2cScan => Seq::empty(),
        CommandView::OledTest { .. } => Seq::empty(),
        CommandView::Hdc1080Read => Seq::empty(),
        CommandView::RtcCheck => Seq::empty(),
        CommandView::SetEnv { .. } => Seq::empty(),
        CommandView::GetEnv { .. } => Seq::empty(),
        CommandView::SaveConfig => Seq::empty(),
        CommandView::GetConfig => Seq::empty(),
        CommandView::ConfigMode => Seq::empty(),
        _ => with_error(Seq::empty(), unhandled(name)),
    }
}

fn no_details() -> (r: Vec<(String, String)>)
    ensures
        crate::text::text_pairs(r@) == Seq::<(Seq<char>, Seq<char>)>::empty(),
{
    let r: Vec<(String, String)> = Vec::new();
    assert(crate::text::text_pairs(r@) =~= Seq::<(Seq<char>, Seq<char>)>::empty());
    r
}

/// Answer a command, or say what its answer takes.
pub fn answer(
    command: &DiagnosticCommand,
    name: &str,
    firmware_version: &str,
    versions: &VersionLines,
    io: &mut TranscriptIo,
) -> (r: LocalAnswer)
    ensures
        r@ == local_answer(command@, name@, firmware_version@),
        final(io)@ == old(io)@ + local_lines(command@, name@, *versions),
{
    let ghost before = io@;
    let r = match command {
        DiagnosticCommand::Ping => {
            io.write_line("PONG");
            LocalAnswer::Given(Answer::pass(no_details(), "pong"))
        },
        DiagnosticCommand::FirmwareVersion => {
            io.write_line(versions.protocol.as_str());
            io.write_line(versions.firmware.as_str());
            LocalAnswer::Given(
                Answer::pass(one_detail("version", firmware_version.to_owned()), ""),
            )
        },
        DiagnosticCommand::GetCapabilities => {
            let csv = capabilities_csv();
            io.write_line(csv.as_str());
            LocalAnswer::Given(Answer::pass(one_detail("capabilities", csv), ""))
        },
        DiagnosticCommand::I2cScan => LocalAnswer::ScanBus,
        DiagnosticCommand::OledTest { payload } => LocalAnswer::DriveDisplay {
            payload: payload.as_str().to_owned(),
        },
        DiagnosticCommand::Hdc1080Read => LocalAnswer::ReadSensor,
        DiagnosticCommand::RtcCheck => LocalAnswer::ReadClock,
        DiagnosticCommand::SetEnv { key, value } => LocalAnswer::SetEnv {
            key: key.as_str().to_owned(),
            value: value.as_str().to_owned(),
        },
        DiagnosticCommand::InvalidSetEnv { .. } => {
            io.write_line("ERROR Bad SET_ENV format");
            LocalAnswer::Given(Answer::fail("SET_ENV: expected <key>=<value>".to_owned()))
        },
        DiagnosticCommand::GetEnv { key } => LocalAnswer::GetEnv { key: key.as_str().to_owned() },
        DiagnosticCommand::SaveConfig => LocalAnswer::SaveConfig,
        DiagnosticCommand::GetConfig => LocalAnswer::GetConfig,
        DiagnosticCommand::ConfigMode => LocalAnswer::ConfigMode,
        DiagnosticCommand::WriteEnvFile => LocalAnswer::Given(write_env_file(io)),
        DiagnosticCommand::Reboot => {
            io.write_line("OK Rebooting");
            LocalAnswer::Given(
                Answer {
                    passed: true,
                    details: no_details(),
                    message: "Rebooting".to_owned(),
                    reboot_requested: true,
                },
            )
        },
        _ => {
            let message = concat2(
                name,
                " is classified as locally answerable but has no handler",
            );
            LocalAnswer::Given(Answer::fail_aloud(message, io))
        },
    };
    assert(io@ =~= before + local_lines(command@, name@, *versions));
    r
}

} // verus!
