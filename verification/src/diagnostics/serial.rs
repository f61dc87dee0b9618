//! The serial frontend of first-wave diagnostics.
//!
//! Every command gets `CMD_RECEIVED`, what it writes, and one terminal `RESULT`.

use vstd::prelude::*;

use crate::diagnostics::answer::{Answer, AnswerView};
use crate::diagnostics::command::{CommandView, DiagnosticCommand, ParsedCommand};
use crate::diagnostics::executor::{
    is_control, is_control_command, is_supported, supports_first_wave_command,
};
use crate::diagnostics::mqtt::{
    complete_control_command, reserve_local_control_command, CommandState, CommandStateView,
    InflightView,
};
use crate::diagnostics::transcript::{DiagnosticsTranscript, TranscriptView};
use crate::logic::fsm::diagnostics::console::{
    console_view, finish, refusal_out, refuse, result_count, write_line, ConsoleOut, OutView,
};
use crate::text::{concat2, opt_text, same_text, text_pairs, texts};

verus! {

/// What came of one look at the serial line.
#[derive(Debug, Clone, Copy, PartialEq, Eq, Structural)]
pub enum SerialDiagnosticsPoll {
    Idle,
    CommandProcessed,
    /// A command asked for a restart, which only the main loop may make.
    RebootRequested,
}

/// The serial frontend.
#[derive(Debug)]
pub struct SerialDiagnosticsRuntime {
    /// The phase that was announced last.
    pub last_phase: Option<String>,
}

/// What a command needs next.
#[derive(Debug, Clone, Copy, PartialEq, Eq, Structural)]
pub enum SerialStep {
    /// Nothing: it was refused.
    Refused,
    /// Its execution. A control command holds the control slot meanwhile.
    Execute { control: bool },
}

/// What a command needs while a move is in progress.
#[derive(Debug)]
pub enum MinimalStep {
    /// Nothing: it was answered.
    Answered,
    /// The status LED in this colour.
    DriveLed { color: String },
}

/// What a busy tower answers a control command with.
pub open spec fn busy_out(command: Seq<char>) -> Seq<OutView> {
    seq![
        OutView::Line(
            "ERROR BUSY another diagnostics control command is already in progress"@,
        ),
        OutView::Result {
            command,
            passed: false,
            details: Seq::empty(),
            message: "BUSY another diagnostics control command is already in progress"@,
        },
    ]
}

pub open spec fn not_enabled(name: Seq<char>) -> Seq<char> {
    name + " is not enabled in first-wave diagnostics"@
}

/// What a command puts out before it is executed.
pub open spec fn begin_out(parsed: ParsedCommand, busy: bool) -> Seq<OutView> {
    let received = seq![OutView::Line("CMD_RECEIVED"@)];
    if !is_supported(parsed.command@) {
        received + refusal_out(parsed.name@, not_enabled(parsed.name@))
    } else if is_control(parsed.command@) && busy {
        received + busy_out(parsed.name@)
    } else {
        received
    }
}

/// Whether a command is executed.
pub open spec fn is_executed(parsed: ParsedCommand, busy: bool) -> bool {
    is_supported(parsed.command@) && !(is_control(parsed.command@) && busy)
}

/// The channel's state while a command is executed.
pub open spec fn reserved(state: CommandStateView, parsed: ParsedCommand, now: u64)
    -> CommandStateView {
    if is_executed(parsed, state.inflight is Some) && is_control(parsed.command@) {
        CommandStateView {
            inflight: Some(
                InflightView { request_id: Seq::empty(), cmd: parsed.name@, queued_at: now },
            ),
            ..state
        }
    } else {
        state
    }
}

/// What a command needs next.
pub open spec fn serial_step(parsed: ParsedCommand, busy: bool) -> SerialStep {
    if is_executed(parsed, busy) {
        SerialStep::Execute { control: is_control(parsed.command@) }
    } else {
        SerialStep::Refused
    }
}

/// The channel's state after a command, which gives the control slot back if it held it.
pub open spec fn given_back(state: CommandStateView, control: bool) -> CommandStateView {
    if control {
        state.completed(""@)
    } else {
        state
    }
}

/// What an executed command asks of the main loop.
pub open spec fn executed_poll(transcript: TranscriptView) -> SerialDiagnosticsPoll {
    if transcript.reboot_requested {
        SerialDiagnosticsPoll::RebootRequested
    } else {
        SerialDiagnosticsPoll::CommandProcessed
    }
}

/// What a command puts out once it was executed: its summary if it wrote nothing,
/// then its result.
pub open spec fn end_out(parsed: ParsedCommand, transcript: TranscriptView, wrote_any: bool)
    -> Seq<OutView> {
    (if wrote_any {
        Seq::empty()
    } else {
        seq![OutView::Line(transcript.message)]
    }) + seq![
        OutView::Result {
            command: parsed.name@,
            passed: transcript.status == "completed"@,
            details: transcript.details,
            message: transcript.message,
        },
    ]
}

/// The outputs that follow what a LED test wrote.
pub open spec fn led_out(answer: AnswerView, wrote_any: bool) -> Seq<OutView> {
    (if wrote_any {
        Seq::empty()
    } else {
        seq![OutView::Line("LED_TEST produced no output"@)]
    }) + seq![
        if answer.passed {
            OutView::Result {
                command: "LED_TEST"@,
                passed: true,
                details: answer.details,
                message: ""@,
            }
        } else {
            OutView::Result {
                command: "LED_TEST"@,
                passed: false,
                details: Seq::empty(),
                message: answer.message,
            }
        },
    ]
}

/// The outputs with a phase announced, unless it was announced last.
pub open spec fn announced(
    last: Option<Seq<char>>,
    phase: Seq<char>,
    line: Seq<char>,
    out: Seq<OutView>,
) -> Seq<OutView> {
    if last == Some(phase) {
        out
    } else {
        out.push(OutView::Line(line))
    }
}

/// Lines, as outputs.
pub open spec fn lines_out(lines: Seq<Seq<char>>) -> Seq<OutView> {
    lines.map_values(|line: Seq<char>| OutView::Line(line))
}

/// What a command leads to while a move is in progress.
pub open spec fn minimal_leads(
    command: CommandView,
    led_lent: bool,
    responses: Seq<Seq<char>>,
    before: Seq<OutView>,
    after: Seq<OutView>,
    r: MinimalStep,
) -> bool {
    match command {
        CommandView::LedTest { color } if led_lent => {
            &&& r matches MinimalStep::DriveLed { color: c } && c@ == color
            &&& after == before.push(
                OutView::Line("CMD_RECEIVED"@),
            )
        },
        _ => {
            &&& r is Answered
            &&& after == before.push(
                OutView::Line("CMD_RECEIVED"@),
            ) + lines_out(responses)
        },
    }
}

fn write_lines(console: &mut Vec<ConsoleOut>, lines: &Vec<String>)
    ensures
        console_view(final(console)@) == console_view(old(console)@) + lines_out(texts(lines@)),
{
    let ghost begun = console_view(console@);
    let ghost all = lines_out(texts(lines@));
    let mut i: usize = 0;
    assert(console_view(console@) =~= begun + all.take(0));
    while i < lines.len()
        invariant
            0 <= i <= lines@.len(),
            all == lines_out(texts(lines@)),
            begun == console_view(old(console)@),
            console_view(console@) == begun + all.take(i as int),
        decreases lines@.len() - i,
    {
        write_line(console, lines[i].as_str());
        proof {
            assert(all.take(i + 1) =~= all.take(i as int).push(OutView::Line(lines@[i as int]@)));
            assert(console_view(console@) =~= begun + all.take(i + 1));
        }
        i = i + 1;
    }
    assert(all.take(lines@.len() as int) =~= all);
}

fn write_busy(console: &mut Vec<ConsoleOut>, command: &str, line: &str)
    requires
        line@ == "ERROR BUSY another diagnostics control command is already in progress"@,
    ensures
        console_view(final(console)@) == console_view(old(console)@) + busy_out(command@),
{
    let details: Vec<(String, String)> = Vec::new();
    assert(text_pairs(details@) =~= Seq::empty());
    write_line(console, line);
    finish(
        console,
        command,
        false,
        details,
        "BUSY another diagnostics control command is already in progress",
    );
    assert(console_view(console@) =~= console_view(old(console)@) + busy_out(command@));
}

impl SerialDiagnosticsRuntime {
    pub fn new() -> (r: Self)
        ensures
            r.last_phase is None,
    {
        SerialDiagnosticsRuntime { last_phase: None }
    }

    /// Announce what the tower is doing, unless that was announced last. The line is
    /// the protocol layer's rendering of the phase.
    pub fn announce_phase(&mut self, phase: &str, phase_line: &str, console: &mut Vec<ConsoleOut>)
        ensures
            opt_text(final(self).last_phase) == Some(phase@),
            console_view(final(console)@) == announced(
                opt_text(old(self).last_phase),
                phase@,
                phase_line@,
                console_view(old(console)@),
            ),
    {
        let repeated = match &self.last_phase {
            Some(last) => same_text(last.as_str(), phase),
            None => false,
        };
        if repeated {
            return;
        }
        write_line(console, phase_line);
        self.last_phase = Some(phase.to_owned());
    }

    /// Answer a command while a move is in progress. Only the status LED can be lent
    /// then; `responses` is what the protocol layer answers any other command with.
    pub fn poll_minimal(
        &self,
        parsed: &ParsedCommand,
        led_lent: bool,
        responses: &Vec<String>,
        console: &mut Vec<ConsoleOut>,
    ) -> (r: MinimalStep)
        ensures
            minimal_leads(
                parsed.command@,
                led_lent,
                texts(responses@),
                console_view(old(console)@),
                console_view(final(console)@),
                r,
            ),
    {
        write_line(console, "CMD_RECEIVED");
        match &parsed.command {
            DiagnosticCommand::LedTest { color } => {
                if led_lent {
                    return MinimalStep::DriveLed { color: color.as_str().to_owned() };
                }
            },
            _ => {},
        }
        write_lines(console, responses);
        MinimalStep::Answered
    }

    /// Finish a LED test that ran while a move is in progress.
    pub fn led_driven(&self, answer: Answer, wrote_any: bool, console: &mut Vec<ConsoleOut>)
        ensures
            console_view(final(console)@) == console_view(old(console)@) + led_out(
                answer@,
                wrote_any,
            ),
    {
        let ghost view = answer@;
        if !wrote_any {
            write_line(console, "LED_TEST produced no output");
        }
        if answer.passed {
            finish(console, "LED_TEST", true, answer.details, "");
        } else {
            let details: Vec<(String, String)> = Vec::new();
            assert(text_pairs(details@) =~= Seq::empty());
            finish(console, "LED_TEST", false, details, answer.message.as_str());
        }
        assert(console_view(console@) =~= console_view(old(console)@) + led_out(view, wrote_any));
    }

    /// Begin a command.
    pub fn poll(
        &self,
        parsed: &ParsedCommand,
        state: &mut CommandState,
        now: u64,
        console: &mut Vec<ConsoleOut>,
    ) -> (r: SerialStep)
        ensures
            r == serial_step(*parsed, old(state)@.inflight is Some),
            final(state)@ == reserved(old(state)@, *parsed, now),
            old(state)@.wf() ==> final(state)@.wf(),
            console_view(final(console)@) == console_view(old(console)@) + begin_out(
                *parsed,
                old(state)@.inflight is Some,
            ),
    {
        let ghost begun = console_view(console@);
        write_line(console, "CMD_RECEIVED");
        let name = parsed.name.as_str();
        if !supports_first_wave_command(&parsed.command) {
            let message = concat2(name, " is not enabled in first-wave diagnostics");
            refuse(console, name, message.as_str());
            assert(console_view(console@) =~= begun + begin_out(
                *parsed,
                old(state)@.inflight is Some,
            ));
            return SerialStep::Refused;
        }
        let control = is_control_command(&parsed.command);
        if control {
            match reserve_local_control_command(state, name, now) {
                Ok(_) => {},
                Err(message) => {
                    write_busy(console, name, message.as_str());
                    assert(console_view(console@) =~= begun + begin_out(*parsed, true));
                    return SerialStep::Refused;
                },
            }
        }
        assert(console_view(console@) =~= begun + begin_out(*parsed, old(state)@.inflight is Some));
        SerialStep::Execute { control }
    }

    /// Finish a command that was executed: say how it ended, and give the control
    /// slot back.
    pub fn executed(
        &self,
        parsed: &ParsedCommand,
        transcript: DiagnosticsTranscript,
        wrote_any: bool,
        control: bool,
        state: &mut CommandState,
        console: &mut Vec<ConsoleOut>,
    ) -> (r: SerialDiagnosticsPoll)
        ensures
            r == executed_poll(transcript@),
            final(state)@ == given_back(old(state)@, control),
            old(state)@.wf() ==> final(state)@.wf(),
            console_view(final(console)@) == console_view(old(console)@) + end_out(
                *parsed,
                transcript@,
                wrote_any,
            ),
    {
        let ghost view = transcript@;
        if !wrote_any {
            write_line(console, transcript.message.as_str());
        }
        let passed = same_text(transcript.status, "completed");
        finish(
            console,
            parsed.name.as_str(),
            passed,
            transcript.details,
            transcript.message.as_str(),
        );
        assert(console_view(console@) =~= console_view(old(console)@) + end_out(
            *parsed,
            view,
            wrote_any,
        ));
        if control {
            let _ = complete_control_command(state, "");
        }
        if transcript.reboot_requested {
            SerialDiagnosticsPoll::RebootRequested
        } else {
            SerialDiagnosticsPoll::CommandProcessed
        }
    }
}

/// Every command gets one result: a refused command before it would be executed, an
/// executed one after.
pub proof fn every_serial_command_gets_one_result(
    parsed: ParsedCommand,
    busy: bool,
    transcript: TranscriptView,
    wrote_any: bool,
)
    ensures
        result_count(begin_out(parsed, busy)) == (if is_executed(parsed, busy) {
            0nat
        } else {
            1nat
        }),
        result_count(end_out(parsed, transcript, wrote_any)) == 1,
{
    reveal_with_fuel(result_count, 4);
    let begun = begin_out(parsed, busy);
    if !is_executed(parsed, busy) {
        assert(begun.drop_last().drop_last() =~= seq![OutView::Line("CMD_RECEIVED"@)]);
    }
}

/// An executed control command gives the control slot back.
pub proof fn a_serial_command_gives_the_slot_back(
    state: CommandStateView,
    parsed: ParsedCommand,
    now: u64,
)
    requires
        state.inflight is None,
        is_control(parsed.command@),
        is_supported(parsed.command@),
    ensures
        reserved(state, parsed, now).inflight is Some,
        reserved(state, parsed, now).completed(""@).inflight is None,
{
    reveal_strlit("");
    assert(""@ =~= Seq::empty());
}

} // verus!
