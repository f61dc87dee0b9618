//! The diagnostics command vocabulary.

use vstd::prelude::*;

verus! {

/// A parsed diagnostics command line.
///
/// Parsing a line and naming the result belong to the protocol layer; the logic
/// here only tells the commands apart and reads their arguments.
#[derive(Debug)]
pub enum DiagnosticCommand {
    Ping,
    FirmwareVersion,
    GetCapabilities,
    I2cScan,
    LedTest { color: String },
    OledTest { payload: String },
    Hdc1080Read,
    RtcCheck,
    GoHome,
    Reboot,
    MotorMove { argument: String },
    RelayMotor { state: String },
    RelayHotspot { state: String },
    ConfigMode,
    SetEnv { key: String, value: String },
    /// A `SET_ENV` line without a usable `<key>=<value>`.
    InvalidSetEnv { line: String },
    GetEnv { key: String },
    SaveConfig,
    GetConfig,
    WriteEnvFile,
    /// Anything else the protocol layer recognises.
    Other { line: String },
}

/// A [`DiagnosticCommand`] with its arguments as character sequences.
pub enum CommandView {
    Ping,
    FirmwareVersion,
    GetCapabilities,
    I2cScan,
    LedTest { color: Seq<char> },
    OledTest { payload: Seq<char> },
    Hdc1080Read,
    RtcCheck,
    GoHome,
    Reboot,
    MotorMove { argument: Seq<char> },
    RelayMotor { state: Seq<char> },
    RelayHotspot { state: Seq<char> },
    ConfigMode,
    SetEnv { key: Seq<char>, value: Seq<char> },
    InvalidSetEnv { line: Seq<char> },
    GetEnv { key: Seq<char> },
    SaveConfig,
    GetConfig,
    WriteEnvFile,
    Other { line: Seq<char> },
}

impl View for DiagnosticCommand {
    type V = CommandView;

    open spec fn view(&self) -> CommandView {
        match self {
            DiagnosticCommand::Ping => CommandView::Ping,
            DiagnosticCommand::FirmwareVersion => CommandView::FirmwareVersion,
            DiagnosticCommand::GetCapabilities => CommandView::GetCapabilities,
            DiagnosticCommand::I2cScan => CommandView::I2cScan,
            DiagnosticCommand::LedTest { color } => CommandView::LedTest { color: color@ },
            DiagnosticCommand::OledTest { payload } => CommandView::OledTest { payload: payload@ },
            DiagnosticCommand::Hdc1080Read => CommandView::Hdc1080Read,
            DiagnosticCommand::RtcCheck => CommandView::RtcCheck,
            DiagnosticCommand::GoHome => CommandView::GoHome,
            DiagnosticCommand::Reboot => CommandView::Reboot,
            DiagnosticCommand::MotorMove { argument } => CommandView::MotorMove {
                argument: argument@,
            },
            DiagnosticCommand::RelayMotor { state } => CommandView::RelayMotor { state: state@ },
            DiagnosticCommand::RelayHotspot { state } => CommandView::RelayHotspot {
                state: state@,
            },
            DiagnosticCommand::ConfigMode => CommandView::ConfigMode,
            DiagnosticCommand::SetEnv { key, value } => CommandView::SetEnv {
                key: key@,
                value: value@,
            },
            DiagnosticCommand::InvalidSetEnv { line } => CommandView::InvalidSetEnv { line: line@ },
            DiagnosticCommand::GetEnv { key } => CommandView::GetEnv { key: key@ },
            DiagnosticCommand::SaveConfig => CommandView::SaveConfig,
            DiagnosticCommand::GetConfig => CommandView::GetConfig,
            DiagnosticCommand::WriteEnvFile => CommandView::WriteEnvFile,
            DiagnosticCommand::Other { line } => CommandView::Other { line: line@ },
        }
    }
}

impl Clone for DiagnosticCommand {
    fn clone(&self) -> (r: Self)
        ensures
            r@ == self@,
    {
        match self {
            DiagnosticCommand::Ping => DiagnosticCommand::Ping,
            DiagnosticCommand::FirmwareVersion => DiagnosticCommand::FirmwareVersion,
            DiagnosticCommand::GetCapabilities => DiagnosticCommand::GetCapabilities,
            DiagnosticCommand::I2cScan => DiagnosticCommand::I2cScan,
            DiagnosticCommand::LedTest { color } => DiagnosticCommand::LedTest {
                color: color.clone(),
            },
            DiagnosticCommand::OledTest { payload } => DiagnosticCommand::OledTest {
                payload: payload.clone(),
            },
            DiagnosticCommand::Hdc1080Read => DiagnosticCommand::Hdc1080Read,
            DiagnosticCommand::RtcCheck => DiagnosticCommand::RtcCheck,
            DiagnosticCommand::GoHome => DiagnosticCommand::GoHome,
            DiagnosticCommand::Reboot => DiagnosticCommand::Reboot,
            DiagnosticCommand::MotorMove { argument } => DiagnosticCommand::MotorMove {
                argument: argument.clone(),
            },
            DiagnosticCommand::RelayMotor { state } => DiagnosticCommand::RelayMotor {
                state: state.clone(),
            },
            DiagnosticCommand::RelayHotspot { state } => DiagnosticCommand::RelayHotspot {
                state: state.clone(),
            },
            DiagnosticCommand::ConfigMode => DiagnosticCommand::ConfigMode,
            DiagnosticCommand::SetEnv { key, value } => DiagnosticCommand::SetEnv {
                key: key.clone(),
                value: value.clone(),
            },
            DiagnosticCommand::InvalidSetEnv { line } => DiagnosticCommand::InvalidSetEnv {
                line: line.clone(),
            },
            DiagnosticCommand::GetEnv { key } => DiagnosticCommand::GetEnv { key: key.clone() },
            DiagnosticCommand::SaveConfig => DiagnosticCommand::SaveConfig,
            DiagnosticCommand::GetConfig => DiagnosticCommand::GetConfig,
            DiagnosticCommand::WriteEnvFile => DiagnosticCommand::WriteEnvFile,
            DiagnosticCommand::Other { line } => DiagnosticCommand::Other { line: line.clone() },
        }
    }
}

/// What a command needs in order to be answered.
#[derive(Debug, Clone, Copy, PartialEq, Eq, Structural)]
pub enum CommandNeeds {
    /// Answerable from the protocol layer alone.
    Nothing,
    /// One self-contained transaction on the shared bus.
    SharedBus,
    /// The sensors, behind their lock.
    Sensor,
    /// Provisioned configuration.
    Storage,
    /// A restart of the board.
    Reset,
    /// The status LED.
    StatusLed,
    /// The motor.
    Motor,
    /// Not enabled in this firmware.
    Unsupported,
}

/// A command as the protocol layer hands it over: parsed, named and classified.
#[derive(Debug)]
pub struct ParsedCommand {
    pub command: DiagnosticCommand,
    /// The name the terminal `RESULT` line carries.
    pub name: String,
    pub needs: CommandNeeds,
}

} // verus!
