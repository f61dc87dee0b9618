//! The first-wave diagnostics commands: which are supported, where they are
//! answered, and what their transcript says.

use vstd::prelude::*;

use crate::diagnostics::command::{CommandView, DiagnosticCommand, ParsedCommand};
use crate::diagnostics::transcript::{
    one_detail, push_detail, DiagnosticsTranscript, TranscriptIo, TranscriptView,
};
use crate::text::{concat2, decimal, decimal_text, join, joined, same_text, text_pairs, texts};

verus! {

/// The capabilities that first-wave diagnostics report, in order.
pub open spec fn first_wave_capability_list() -> Seq<Seq<char>> {
    seq![
        "MQTT"@,
        "SERIAL"@,
        "STATUS"@,
        "RTC"@,
        "HDC1080"@,
        "GO_HOME"@,
        "REBOOT"@,
        "PING"@,
        "CONFIG"@,
        "I2C_SCAN"@,
        "LED_TEST"@,
        "OLED"@,
    ]
}

/// The capabilities that first-wave diagnostics report.
pub fn first_wave_capabilities() -> (r: Vec<String>)
    ensures
        texts(r@) == first_wave_capability_list(),
{
    let mut r: Vec<String> = Vec::new();
    r.push("MQTT".to_owned());
    r.push("SERIAL".to_owned());
    r.push("STATUS".to_owned());
    r.push("RTC".to_owned());
    r.push("HDC1080".to_owned());
    r.push("GO_HOME".to_owned());
    r.push("REBOOT".to_owned());
    r.push("PING".to_owned());
    r.push("CONFIG".to_owned());
    r.push("I2C_SCAN".to_owned());
    r.push("LED_TEST".to_owned());
    r.push("OLED".to_owned());
    assert(texts(r@) =~= first_wave_capability_list());
    r
}

/// The capabilities, separated by commas.
pub fn capabilities_csv() -> (r: String)
    ensures
        r@ == joined(first_wave_capability_list(), ","@),
{
    let list = first_wave_capabilities();
    join(&list, ",")
}

/// The lines of a command that needs no execution, `None` for any other.
pub open spec fn direct_lines(cmd: Seq<char>, version_line: Seq<char>) -> Option<Seq<Seq<char>>> {
    if cmd == "firmware_version"@ {
        Some(seq![version_line])
    } else if cmd == "get_capabilities"@ {
        Some(seq![joined(first_wave_capability_list(), ","@)])
    } else {
        None
    }
}

/// The lines of a command that needs no execution. `version_line` is the protocol
/// layer's rendering of the firmware version.
pub fn direct_first_wave_lines(cmd: &str, version_line: &str) -> (r: Option<Vec<String>>)
    ensures
        match r {
            Some(lines) => direct_lines(cmd@, version_line@) == Some(texts(lines@)),
            None => direct_lines(cmd@, version_line@) is None,
        },
{
    let mut lines: Vec<String> = Vec::new();
    if same_text(cmd, "firmware_version") {
        lines.push(version_line.to_owned());
        assert(texts(lines@) =~= seq![version_line@]);
        Some(lines)
    } else if same_text(cmd, "get_capabilities") {
        lines.push(capabilities_csv());
        assert(texts(lines@) =~= seq![joined(first_wave_capability_list(), ","@)]);
        Some(lines)
    } else {
        None
    }
}

pub open spec fn is_config(command: CommandView) -> bool {
    match command {
        CommandView::ConfigMode => true,
        CommandView::SetEnv { .. } => true,
        CommandView::InvalidSetEnv { .. } => true,
        CommandView::GetEnv { .. } => true,
        CommandView::SaveConfig => true,
        CommandView::GetConfig => true,
        CommandView::WriteEnvFile => true,
        _ => false,
    }
}

pub open spec fn is_supported(command: CommandView) -> bool {
    match command {
        CommandView::Ping => true,
        CommandView::I2cScan => true,
        CommandView::LedTest { .. } => true,
        CommandView::OledTest { .. } => true,
        CommandView::FirmwareVersion => true,
        CommandView::GetCapabilities => true,
        CommandView::RtcCheck => true,
        CommandView::Hdc1080Read => true,
        CommandView::GoHome => true,
        CommandView::Reboot => true,
        _ => is_config(command),
    }
}

pub open spec fn is_control(command: CommandView) -> bool {
    match command {
        CommandView::RtcCheck => true,
        CommandView::Hdc1080Read => true,
        CommandView::I2cScan => true,
        CommandView::LedTest { .. } => true,
        CommandView::OledTest { .. } => true,
        CommandView::GoHome => true,
        CommandView::Reboot => true,
        CommandView::SaveConfig => true,
        _ => false,
    }
}

/// Whether first-wave diagnostics answer the command at all.
pub fn supports_first_wave_command(command: &DiagnosticCommand) -> (r: bool)
    ensures
        r == is_supported(command@),
{
    match command {
        DiagnosticCommand::Ping => true,
        DiagnosticCommand::I2cScan => true,
        DiagnosticCommand::LedTest { .. } => true,
        DiagnosticCommand::OledTest { .. } => true,
        DiagnosticCommand::FirmwareVersion => true,
        DiagnosticCommand::GetCapabilities => true,
        DiagnosticCommand::RtcCheck => true,
        DiagnosticCommand::Hdc1080Read => true,
        DiagnosticCommand::GoHome => true,
        DiagnosticCommand::Reboot => true,
        _ => is_config_command(command),
    }
}

/// Whether the command reads or writes provisioned configuration.
///
/// `CONFIG_MODE` counts: what it reports lives in storage, not on the board.
pub fn is_config_command(command: &DiagnosticCommand) -> (r: bool)
    ensures
        r == is_config(command@),
{
    match command {
        DiagnosticCommand::ConfigMode => true,
        DiagnosticCommand::SetEnv { .. } => true,
        DiagnosticCommand::InvalidSetEnv { .. } => true,
        DiagnosticCommand::GetEnv { .. } => true,
        DiagnosticCommand::SaveConfig => true,
        DiagnosticCommand::GetConfig => true,
        DiagnosticCommand::WriteEnvFile => true,
        _ => false,
    }
}

/// Whether the command takes the control slot. `SET_ENV` only stages into memory;
/// `SAVE_CONFIG` is the one that writes.
pub fn is_control_command(command: &DiagnosticCommand) -> (r: bool)
    ensures
        r == is_control(command@),
{
    match command {
        DiagnosticCommand::RtcCheck => true,
        DiagnosticCommand::Hdc1080Read => true,
        DiagnosticCommand::I2cScan => true,
        DiagnosticCommand::LedTest { .. } => true,
        DiagnosticCommand::OledTest { .. } => true,
        DiagnosticCommand::GoHome => true,
        DiagnosticCommand::Reboot => true,
        DiagnosticCommand::SaveConfig => true,
        _ => false,
    }
}

/// The control command that a remote command word asks for.
pub open spec fn remote_control(cmd: Seq<char>) -> Option<CommandView> {
    if cmd == "rtc_check"@ {
        Some(CommandView::RtcCheck)
    } else if cmd == "hdc1080_read"@ {
        Some(CommandView::Hdc1080Read)
    } else if cmd == "go_home"@ || cmd == "request_rehome"@ {
        Some(CommandView::GoHome)
    } else {
        None
    }
}

/// The control command that a remote command word asks for.
pub fn mqtt_control_command(cmd: &str) -> (r: Option<DiagnosticCommand>)
    ensures
        match r {
            Some(command) => remote_control(cmd@) == Some(command@),
            None => remote_control(cmd@) is None,
        },
{
    if same_text(cmd, "rtc_check") {
        Some(DiagnosticCommand::RtcCheck)
    } else if same_text(cmd, "hdc1080_read") {
        Some(DiagnosticCommand::Hdc1080Read)
    } else if same_text(cmd, "go_home") || same_text(cmd, "request_rehome") {
        Some(DiagnosticCommand::GoHome)
    } else {
        None
    }
}

/// Every control command that can be asked for remotely is supported and takes the
/// control slot, and none of them is answered without execution.
pub proof fn remote_control_commands_are_control_commands(cmd: Seq<char>, version_line: Seq<char>)
    requires
        remote_control(cmd) is Some,
    ensures
        is_supported(remote_control(cmd)->0),
        is_control(remote_control(cmd)->0),
        !is_config(remote_control(cmd)->0),
        direct_lines(cmd, version_line) is None,
{
    reveal_strlit("rtc_check");
    reveal_strlit("hdc1080_read");
    reveal_strlit("go_home");
    reveal_strlit("request_rehome");
    reveal_strlit("firmware_version");
    reveal_strlit("get_capabilities");
    assert("rtc_check"@.len() == 9);
    assert("hdc1080_read"@.len() == 12);
    assert("go_home"@.len() == 7);
    assert("request_rehome"@.len() == 14);
    assert("firmware_version"@.len() == 16);
    assert("get_capabilities"@.len() == 16);
}

pub open spec fn success_text(command: CommandView, name: Seq<char>) -> Seq<char> {
    match command {
        CommandView::FirmwareVersion => "Firmware version reported"@,
        CommandView::GetCapabilities => "Diagnostics capabilities reported"@,
        CommandView::RtcCheck => "RTC check completed"@,
        CommandView::Hdc1080Read => "HDC1080 diagnostic completed"@,
        CommandView::GoHome => "Diagnostics go_home completed successfully"@,
        _ => name + " completed"@,
    }
}

/// What a completed command is reported as.
pub fn success_message(command: &DiagnosticCommand, name: &str) -> (r: String)
    ensures
        r@ == success_text(command@, name@),
{
    match command {
        DiagnosticCommand::FirmwareVersion => "Firmware version reported".to_owned(),
        DiagnosticCommand::GetCapabilities => "Diagnostics capabilities reported".to_owned(),
        DiagnosticCommand::RtcCheck => "RTC check completed".to_owned(),
        DiagnosticCommand::Hdc1080Read => "HDC1080 diagnostic completed".to_owned(),
        DiagnosticCommand::GoHome => "Diagnostics go_home completed successfully".to_owned(),
        _ => concat2(name, " completed"),
    }
}

/// How running a command on the board ended.
#[derive(Debug)]
pub enum BoardOutcome {
    /// The command completed.
    Completed,
    /// The command completed and asked for a restart.
    RebootRequested,
    /// A board function failed with a message.
    Failed { message: String },
    /// The board or the environment does not offer the named command.
    NotEnabled { name: String },
    /// The configuration could not be reported.
    ConfigurationUnreported,
}

pub open spec fn failure_text(outcome: BoardOutcome, name: Seq<char>) -> Seq<char> {
    match outcome {
        BoardOutcome::Failed { message } => message@,
        BoardOutcome::NotEnabled { name: refused } => refused@
            + " is not enabled in first-wave diagnostics"@,
        _ => name + " could not report configuration"@,
    }
}

/// What a failed command is reported as.
pub fn failure_message(outcome: &BoardOutcome, name: &str) -> (r: String)
    ensures
        r@ == failure_text(*outcome, name@),
{
    match outcome {
        BoardOutcome::Failed { message } => message.as_str().to_owned(),
        BoardOutcome::NotEnabled { name: refused } => concat2(
            refused.as_str(),
            " is not enabled in first-wave diagnostics",
        ),
        _ => concat2(name, " could not report configuration"),
    }
}

/// Where a first-wave command goes.
#[derive(Debug)]
pub enum FirstWaveRoute {
    /// To the configuration store.
    Configuration,
    /// To the board.
    Board,
    /// Nowhere; the transcript says why.
    Refused(DiagnosticsTranscript),
}

/// A failed transcript with nothing but its message.
pub open spec fn bare_failure(message: Seq<char>) -> TranscriptView {
    TranscriptView {
        status: "failed"@,
        message,
        lines: Seq::empty(),
        reboot_requested: false,
        details: Seq::empty(),
    }
}

fn failed_transcript(message: String) -> (r: DiagnosticsTranscript)
    ensures
        r@ == bare_failure(message@),
{
    let r = DiagnosticsTranscript {
        status: "failed",
        message,
        lines: Vec::new(),
        reboot_requested: false,
        details: Vec::new(),
    };
    assert(r@ =~= bare_failure(message@));
    r
}

/// Why a first-wave command is refused, if it is.
pub open spec fn refusal(parsed: ParsedCommand, storage_lendable: bool) -> Option<Seq<char>> {
    if is_config(parsed.command@) {
        if storage_lendable {
            None
        } else {
            Some(
                parsed.name@
                    + " unavailable: configuration storage is not lendable during a tracking move"@,
            )
        }
    } else if is_supported(parsed.command@) {
        None
    } else {
        Some(parsed.name@ + " is not enabled in first-wave diagnostics"@)
    }
}

/// Who answers a first-wave command.
pub open spec fn route_leads(
    parsed: ParsedCommand,
    storage_lendable: bool,
    lines: Seq<Seq<char>>,
    lines_after: Seq<Seq<char>>,
    r: FirstWaveRoute,
) -> bool {
    match r {
        FirstWaveRoute::Configuration => is_config(parsed.command@) && storage_lendable
            && lines_after == lines,
        FirstWaveRoute::Board => !is_config(parsed.command@) && is_supported(parsed.command@)
            && lines_after == lines,
        FirstWaveRoute::Refused(transcript) => {
            &&& refusal(parsed, storage_lendable) is Some
            &&& transcript@ == bare_failure(refusal(parsed, storage_lendable)->0)
            &&& lines_after == lines.push(
                "ERROR "@ + refusal(parsed, storage_lendable)->0,
            )
        },
    }
}

/// Decide who answers a first-wave command. A refusal is written to `io` as well.
pub fn execute_first_wave_command(
    parsed: &ParsedCommand,
    storage_lendable: bool,
    io: &mut TranscriptIo,
) -> (r: FirstWaveRoute)
    ensures
        route_leads(*parsed, storage_lendable, old(io)@, final(io)@, r),
{
    if is_config_command(&parsed.command) {
        if storage_lendable {
            return FirstWaveRoute::Configuration;
        }
        let message = concat2(
            parsed.name.as_str(),
            " unavailable: configuration storage is not lendable during a tracking move",
        );
        io.write_error(message.as_str());
        return FirstWaveRoute::Refused(failed_transcript(message));
    }
    if !supports_first_wave_command(&parsed.command) {
        let message = concat2(parsed.name.as_str(), " is not enabled in first-wave diagnostics");
        io.write_error(message.as_str());
        return FirstWaveRoute::Refused(failed_transcript(message));
    }
    FirstWaveRoute::Board
}

/// The transcript of a command that ran on the board.
pub open spec fn board_transcript_view(
    parsed: ParsedCommand,
    outcome: BoardOutcome,
    details: Seq<(Seq<char>, Seq<char>)>,
) -> TranscriptView {
    TranscriptView {
        status: match outcome {
            BoardOutcome::Completed => "completed"@,
            BoardOutcome::RebootRequested => "completed"@,
            _ => "failed"@,
        },
        message: match outcome {
            BoardOutcome::Completed => success_text(parsed.command@, parsed.name@),
            BoardOutcome::RebootRequested => "Diagnostics command requested a reboot"@,
            _ => failure_text(outcome, parsed.name@),
        },
        lines: Seq::empty(),
        reboot_requested: outcome is RebootRequested,
        details,
    }
}

/// The transcript of a command that ran on the board. What it measured is reported
/// whether it completed or not.
pub fn board_transcript(
    parsed: &ParsedCommand,
    outcome: &BoardOutcome,
    details: Vec<(String, String)>,
) -> (r: DiagnosticsTranscript)
    ensures
        r@ == board_transcript_view(*parsed, *outcome, text_pairs(details@)),
{
    let status = match outcome {
        BoardOutcome::Completed => "completed",
        BoardOutcome::RebootRequested => "completed",
        _ => "failed",
    };
    let message = match outcome {
        BoardOutcome::Completed => success_message(&parsed.command, parsed.name.as_str()),
        BoardOutcome::RebootRequested => "Diagnostics command requested a reboot".to_owned(),
        _ => failure_message(outcome, parsed.name.as_str()),
    };
    let reboot_requested = matches!(outcome, BoardOutcome::RebootRequested);
    let r = DiagnosticsTranscript { status, message, lines: Vec::new(), reboot_requested, details };
    assert(r@.lines =~= Seq::empty());
    r
}

/// How running a configuration command ended.
#[derive(Debug)]
pub enum ConfigOutcome {
    Completed,
    /// The environment refused, for the reason given.
    Rejected { reason: String },
    /// The command is not one of the configuration set.
    NotConfiguration,
    ConfigurationUnreported,
}

pub open spec fn config_failure_text(outcome: ConfigOutcome, name: Seq<char>) -> Seq<char> {
    match outcome {
        ConfigOutcome::Rejected { reason } => name + " failed: "@ + reason@,
        ConfigOutcome::NotConfiguration => name + " is not a configuration command"@,
        _ => name + " could not report configuration"@,
    }
}

/// What a failed configuration command is reported as.
pub fn config_failure_message(outcome: &ConfigOutcome, name: &str) -> (r: String)
    ensures
        r@ == config_failure_text(*outcome, name@),
{
    match outcome {
        ConfigOutcome::Rejected { reason } => crate::text::concat3(
            name,
            " failed: ",
            reason.as_str(),
        ),
        ConfigOutcome::NotConfiguration => concat2(name, " is not a configuration command"),
        _ => concat2(name, " could not report configuration"),
    }
}

/// The transcript of a configuration command.
pub open spec fn config_transcript_view(
    parsed: ParsedCommand,
    outcome: ConfigOutcome,
    sections: nat,
    staged: nat,
) -> TranscriptView {
    if outcome is Completed {
        TranscriptView {
            status: "completed"@,
            message: success_text(parsed.command@, parsed.name@),
            lines: Seq::empty(),
            reboot_requested: false,
            details: match parsed.command@ {
                CommandView::GetConfig => seq![("sections"@, decimal_text(sections))],
                CommandView::SaveConfig => seq![("committed"@, decimal_text(staged))],
                _ => Seq::empty(),
            },
        }
    } else {
        bare_failure(config_failure_text(outcome, parsed.name@))
    }
}

/// The transcript of a configuration command. `sections` counts the sections of
/// the configuration, `staged` the values that were staged before the command ran.
pub fn execute_config_command(
    parsed: &ParsedCommand,
    outcome: &ConfigOutcome,
    sections: usize,
    staged: usize,
) -> (r: DiagnosticsTranscript)
    ensures
        r@ == config_transcript_view(*parsed, *outcome, sections as nat, staged as nat),
{
    match outcome {
        ConfigOutcome::Completed => {
            let details = match &parsed.command {
                DiagnosticCommand::GetConfig => one_detail("sections", decimal(sections as u64)),
                DiagnosticCommand::SaveConfig => one_detail("committed", decimal(staged as u64)),
                _ => Vec::new(),
            };
            let r = DiagnosticsTranscript {
                status: "completed",
                message: success_message(&parsed.command, parsed.name.as_str()),
                lines: Vec::new(),
                reboot_requested: false,
                details,
            };
            assert(r@ =~= config_transcript_view(
                *parsed,
                *outcome,
                sections as nat,
                staged as nat,
            ));
            r
        },
        _ => failed_transcript(config_failure_message(outcome, parsed.name.as_str())),
    }
}

/// How many of the stored values are present and not empty.
pub open spec fn stored_count(stored: Seq<Option<String>>) -> nat
    decreases stored.len(),
{
    if stored.len() == 0 {
        0
    } else {
        let here: nat = match stored.last() {
            Some(value) => if value@.len() > 0 {
                1
            } else {
                0
            },
            None => 0,
        };
        stored_count(stored.drop_last()) + here
    }
}

/// Count the stored values that are present and not empty.
pub fn count_stored(stored: &Vec<Option<String>>) -> (r: usize)
    ensures
        r == stored_count(stored@),
        r <= stored@.len(),
{
    let mut count: usize = 0;
    let mut i: usize = 0;
    while i < stored.len()
        invariant
            0 <= i <= stored.len(),
            count == stored_count(stored@.take(i as int)),
            count <= i,
        decreases stored.len() - i,
    {
        proof {
            assert(stored@.take(i + 1).drop_last() =~= stored@.take(i as int));
            assert(stored@.take(i + 1).last() == stored@[i as int]);
        }
        match &stored[i] {
            Some(value) => {
                if !value.as_str().is_empty() {
                    count = count + 1;
                }
            },
            None => {},
        }
        i = i + 1;
    }
    assert(stored@.take(stored.len() as int) =~= stored@);
    count
}

/// What `CONFIG_MODE` reports of readable storage.
pub open spec fn config_mode_details(
    provisioned: Option<u8>,
    stored: Seq<Option<String>>,
    staged: nat,
) -> Seq<(Seq<char>, Seq<char>)> {
    seq![
        (
            "provisioned"@,
            if provisioned == Some(1u8) {
                "yes"@
            } else {
                "no"@
            },
        ),
        ("stored"@, decimal_text(stored_count(stored))),
        ("staged"@, decimal_text(staged)),
        ("keys"@, decimal_text(stored.len())),
    ]
}

/// The details that `CONFIG_MODE` reports of readable storage.
pub fn config_mode_report(
    provisioned: Option<u8>,
    stored: &Vec<Option<String>>,
    staged: usize,
) -> (r: Vec<(String, String)>)
    ensures
        text_pairs(r@) == config_mode_details(provisioned, stored@, staged as nat),
{
    let flag = match provisioned {
        Some(1) => "yes",
        _ => "no",
    };
    let mut details = one_detail("provisioned", flag.to_owned());
    push_detail(&mut details, "stored", decimal(count_stored(stored) as u64));
    push_detail(&mut details, "staged", decimal(staged as u64));
    push_detail(&mut details, "keys", decimal(stored.len() as u64));
    assert(text_pairs(details@) =~= config_mode_details(provisioned, stored@, staged as nat));
    details
}

/// What answering `CONFIG_MODE` leads to.
pub open spec fn mode_leads(
    provisioned: Result<Option<u8>, String>,
    stored: Seq<Option<String>>,
    staged: nat,
    lines: Seq<Seq<char>>,
    lines_after: Seq<Seq<char>>,
    r: TranscriptView,
) -> bool {
    match provisioned {
        Err(reason) => {
            let message = "CONFIG_MODE failed: NVS is not readable: "@ + reason@;
            r == bare_failure(message) && lines_after == lines.push("ERROR "@ + message)
        },
        Ok(flag) => r == (TranscriptView {
            status: "completed"@,
            message: "Configuration storage is readable"@,
            lines: Seq::empty(),
            reboot_requested: false,
            details: config_mode_details(flag, stored, staged),
        }) && lines_after == lines.push("CONFIG_MODE OK"@),
    }
}

/// Answer `CONFIG_MODE`: is the provisioning path usable, and what does it hold?
///
/// `provisioned` is what reading the provisioned flag gave, `stored` what each
/// configuration key holds.
pub fn execute_config_mode(
    provisioned: Result<Option<u8>, String>,
    stored: &Vec<Option<String>>,
    staged: usize,
    io: &mut TranscriptIo,
) -> (r: DiagnosticsTranscript)
    ensures
        mode_leads(provisioned, stored@, staged as nat, old(io)@, final(io)@, r@),
{
    match provisioned {
        Err(reason) => {
            let message = concat2("CONFIG_MODE failed: NVS is not readable: ", reason.as_str());
            io.write_error(message.as_str());
            failed_transcript(message)
        },
        Ok(flag) => {
            io.write_line("CONFIG_MODE OK");
            let details = config_mode_report(flag, stored, staged);
            let r = DiagnosticsTranscript {
                status: "completed",
                message: "Configuration storage is readable".to_owned(),
                lines: Vec::new(),
                reboot_requested: false,
                details,
            };
            assert(r@.lines =~= Seq::empty());
            r
        },
    }
}

} // verus!
