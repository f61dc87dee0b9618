//! What goes out on the console.

use vstd::prelude::*;

use crate::text::text_pairs;

verus! {

/// One output of the console.
#[derive(Debug)]
pub enum ConsoleOut {
    Line(String),
    /// The terminal `RESULT` of a command, which the protocol layer renders.
    Result { command: String, passed: bool, details: Vec<(String, String)>, message: String },
}

#[verifier::ext_equal]
pub enum OutView {
    Line(Seq<char>),
    Result {
        command: Seq<char>,
        passed: bool,
        details: Seq<(Seq<char>, Seq<char>)>,
        message: Seq<char>,
    },
}

impl View for ConsoleOut {
    type V = OutView;

    open spec fn view(&self) -> OutView {
        match self {
            ConsoleOut::Line(line) => OutView::Line(line@),
            ConsoleOut::Result { command, passed, details, message } => OutView::Result {
                command: command@,
                passed: *passed,
                details: text_pairs(details@),
                message: message@,
            },
        }
    }
}

/// What a console has been told to put out, in order.
pub open spec fn console_view(console: Seq<ConsoleOut>) -> Seq<OutView> {
    console.map_values(|o: ConsoleOut| o@)
}

/// How many terminal results a run of outputs holds.
pub open spec fn result_count(out: Seq<OutView>) -> nat
    decreases out.len(),
{
    if out.len() == 0 {
        0
    } else {
        let here: nat = if out.last() is Result {
            1
        } else {
            0
        };
        result_count(out.drop_last()) + here
    }
}

/// Put one line on the wire.
pub fn write_line(console: &mut Vec<ConsoleOut>, line: &str)
    ensures
        console_view(final(console)@) == console_view(old(console)@).push(OutView::Line(line@)),
{
    console.push(ConsoleOut::Line(line.to_owned()));
    assert(console_view(console@) =~= console_view(old(console)@).push(OutView::Line(line@)));
}

/// Put a line on the wire that reports an error.
pub fn write_error(console: &mut Vec<ConsoleOut>, message: &str)
    ensures
        console_view(final(console)@) == console_view(old(console)@).push(
            OutView::Line("ERROR "@ + message@),
        ),
{
    let line = crate::text::concat2("ERROR ", message);
    write_line(console, line.as_str());
}

/// Write the terminal `RESULT` of a command.
pub fn finish(
    console: &mut Vec<ConsoleOut>,
    command: &str,
    passed: bool,
    details: Vec<(String, String)>,
    message: &str,
)
    ensures
        console_view(final(console)@) == console_view(old(console)@).push(
            OutView::Result {
                command: command@,
                passed,
                details: text_pairs(details@),
                message: message@,
            },
        ),
{
    let ghost result = OutView::Result {
        command: command@,
        passed,
        details: text_pairs(details@),
        message: message@,
    };
    console.push(
        ConsoleOut::Result {
            command: command.to_owned(),
            passed,
            details,
            message: message.to_owned(),
        },
    );
    assert(console_view(console@) =~= console_view(old(console)@).push(result));
}

/// The outputs of a command that is refused: its error, then its result.
pub open spec fn refusal_out(command: Seq<char>, message: Seq<char>) -> Seq<OutView> {
    seq![
        OutView::Line("ERROR "@ + message),
        OutView::Result { command, passed: false, details: Seq::empty(), message },
    ]
}

/// Refuse a command.
pub fn refuse(console: &mut Vec<ConsoleOut>, command: &str, message: &str)
    ensures
        console_view(final(console)@) == console_view(old(console)@) + refusal_out(
            command@,
            message@,
        ),
{
    let details: Vec<(String, String)> = Vec::new();
    assert(text_pairs(details@) =~= Seq::empty());
    write_error(console, message);
    finish(console, command, false, details, message);
    assert(console_view(console@) =~= console_view(old(console)@) + refusal_out(
        command@,
        message@,
    ));
}

} // verus!
