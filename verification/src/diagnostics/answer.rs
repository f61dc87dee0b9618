//! What answering a command produced.

use vstd::prelude::*;

use crate::diagnostics::transcript::TranscriptIo;
use crate::text::text_pairs;

verus! {

/// What answering a command produced.
///
/// `passed` and `details` become the terminal `RESULT` line; `message` is the
/// summary a host shows when there are no structured details.
#[derive(Debug)]
pub struct Answer {
    pub passed: bool,
    pub details: Vec<(String, String)>,
    pub message: String,
    /// The command asked the board to restart, once the response is on the wire.
    pub reboot_requested: bool,
}

#[verifier::ext_equal]
pub struct AnswerView {
    pub passed: bool,
    pub details: Seq<(Seq<char>, Seq<char>)>,
    pub message: Seq<char>,
    pub reboot_requested: bool,
}

impl View for Answer {
    type V = AnswerView;

    open spec fn view(&self) -> AnswerView {
        AnswerView {
            passed: self.passed,
            details: text_pairs(self.details@),
            message: self.message@,
            reboot_requested: self.reboot_requested,
        }
    }
}

pub open spec fn passed(details: Seq<(Seq<char>, Seq<char>)>, message: Seq<char>) -> AnswerView {
    AnswerView { passed: true, details, message, reboot_requested: false }
}

pub open spec fn failed(message: Seq<char>) -> AnswerView {
    AnswerView { passed: false, details: Seq::empty(), message, reboot_requested: false }
}

/// The lines with one more that reports `message` as an error.
pub open spec fn with_error(lines: Seq<Seq<char>>, message: Seq<char>) -> Seq<Seq<char>> {
    lines.push("ERROR "@ + message)
}

impl Answer {
    pub fn pass(details: Vec<(String, String)>, message: &str) -> (r: Self)
        ensures
            r@ == passed(text_pairs(details@), message@),
    {
        Answer { passed: true, details, message: message.to_owned(), reboot_requested: false }
    }

    pub fn fail(message: String) -> (r: Self)
        ensures
            r@ == failed(message@),
    {
        let r = Answer { passed: false, details: Vec::new(), message, reboot_requested: false };
        assert(r@ =~= failed(message@));
        r
    }

    /// Report a failure on the wire and answer with it.
    pub fn fail_aloud(message: String, io: &mut TranscriptIo) -> (r: Self)
        ensures
            r@ == failed(message@),
            final(io)@ == with_error(old(io)@, message@),
    {
        io.write_error(message.as_str());
        Answer::fail(message)
    }
}

} // verus!
