//! What a diagnostics command reports.

use vstd::prelude::*;

use crate::text::{text_pairs, texts};

verus! {

/// The result of running a diagnostics command.
#[derive(Debug)]
pub struct DiagnosticsTranscript {
    pub status: &'static str,
    pub message: String,
    /// Output captured for a caller that reports after the fact.
    pub lines: Vec<String>,
    /// Set when the command asked the board to restart. Only the main loop may
    /// reset, once the response has cleared the wire.
    pub reboot_requested: bool,
    /// Structured key/value results, rendered into the terminal `RESULT` line.
    pub details: Vec<(String, String)>,
}

#[verifier::ext_equal]
pub struct TranscriptView {
    pub status: Seq<char>,
    pub message: Seq<char>,
    pub lines: Seq<Seq<char>>,
    pub reboot_requested: bool,
    pub details: Seq<(Seq<char>, Seq<char>)>,
}

impl View for DiagnosticsTranscript {
    type V = TranscriptView;

    open spec fn view(&self) -> TranscriptView {
        TranscriptView {
            status: self.status@,
            message: self.message@,
            lines: texts(self.lines@),
            reboot_requested: self.reboot_requested,
            details: text_pairs(self.details@),
        }
    }
}

impl Default for DiagnosticsTranscript {
    fn default() -> (r: Self)
        ensures
            r.status@ == ""@,
            r.message@ == Seq::<char>::empty(),
            r.lines@ == Seq::<String>::empty(),
            r.reboot_requested == false,
            r.details@ == Seq::<(String, String)>::empty(),
    {
        DiagnosticsTranscript {
            status: "",
            message: String::new(),
            lines: Vec::new(),
            reboot_requested: false,
            details: Vec::new(),
        }
    }
}

/// Collects the lines that a command writes, in order.
#[derive(Debug)]
pub struct TranscriptIo {
    pub lines: Vec<String>,
}

impl View for TranscriptIo {
    type V = Seq<Seq<char>>;

    open spec fn view(&self) -> Seq<Seq<char>> {
        texts(self.lines@)
    }
}

impl Default for TranscriptIo {
    fn default() -> (r: Self)
        ensures
            r@ == Seq::<Seq<char>>::empty(),
    {
        let r = TranscriptIo { lines: Vec::new() };
        assert(r@ =~= Seq::<Seq<char>>::empty());
        r
    }
}

impl TranscriptIo {
    /// Append one line.
    pub fn write_line(&mut self, msg: &str)
        ensures
            final(self)@ == old(self)@.push(msg@),
    {
        self.lines.push(msg.to_owned());
        assert(self@ =~= old(self)@.push(msg@));
    }

    /// Everything written, in order.
    pub fn into_lines(self) -> (r: Vec<String>)
        ensures
            r@ == self.lines@,
            texts(r@) == self@,
    {
        self.lines
    }

    /// Write a line that tells the host a command failed.
    pub fn write_error(&mut self, message: &str)
        ensures
            final(self)@ == old(self)@.push("ERROR "@ + message@),
    {
        let line = crate::text::concat2("ERROR ", message);
        self.write_line(line.as_str());
    }
}

/// A details list of one pair.
pub fn one_detail(key: &str, value: String) -> (r: Vec<(String, String)>)
    ensures
        text_pairs(r@) == seq![(key@, value@)],
{
    let mut r: Vec<(String, String)> = Vec::new();
    r.push((key.to_owned(), value));
    assert(text_pairs(r@) =~= seq![(key@, value@)]);
    r
}

/// Append a pair to a details list.
pub fn push_detail(details: &mut Vec<(String, String)>, key: &str, value: String)
    ensures
        text_pairs(final(details)@) == text_pairs(old(details)@).push((key@, value@)),
{
    details.push((key.to_owned(), value));
    assert(text_pairs(details@) =~= text_pairs(old(details)@).push((key@, value@)));
}

} // verus!
