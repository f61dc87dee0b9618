//! Provisioned settings on the first-wave path, where the standard handler writes
//! the closing line of a command itself.

use vstd::prelude::*;

use crate::diagnostics::configuration::{
    read_value, setting_value, staged_with, ConfigStaging, SecretPlaceholders, StagedView,
};
use crate::diagnostics::transcript::TranscriptIo;
use crate::logic::fsm::diagnostics::config::{save_ask, GetEnvKey, SaveAsk, SetEnvVerdict};
use crate::text::{concat2, concat3};

verus! {

fn reject(what: &str, key: &str, reason: &str, io: &mut TranscriptIo)
    ensures
        final(io)@ == old(io)@.push(what@ + key@ + ": "@ + reason@),
{
    let head = concat3(what, key, ": ");
    let line = concat2(head.as_str(), reason);
    io.write_line(line.as_str());
}

/// What holding a value leads to.
pub open spec fn held_leads(
    key: Seq<char>,
    value: Seq<char>,
    verdict: SetEnvVerdict,
    before: Seq<StagedView>,
    lines: Seq<Seq<char>>,
    after: Seq<StagedView>,
    lines_after: Seq<Seq<char>>,
    r: Result<(), String>,
) -> bool {
    match verdict {
        SetEnvVerdict::Rejected { reason } => {
            &&& r matches Err(e) && e@ == reason@
            &&& after == before
            &&& lines_after == lines.push("ERROR SET_ENV "@ + key + ": "@ + reason@)
        },
        SetEnvVerdict::Accepted { key: entry } => {
            &&& r is Ok
            &&& after == staged_with(
                before,
                StagedView { protocol: entry.protocol@, nvs: entry.nvs@, value },
            )
            &&& lines_after == lines
        },
    }
}

/// Hold an accepted value, without writing it. The error is the reason for a
/// rejection, which is also put on the wire.
pub fn set_env(
    key: &str,
    value: &str,
    verdict: &SetEnvVerdict,
    staging: &mut ConfigStaging,
    io: &mut TranscriptIo,
) -> (r: Result<(), String>)
    requires
        old(staging).wf(),
    ensures
        final(staging).wf(),
        held_leads(
            key@,
            value@,
            *verdict,
            old(staging)@,
            old(io)@,
            final(staging)@,
            final(io)@,
            r,
        ),
{
    match verdict {
        SetEnvVerdict::Rejected { reason } => {
            reject("ERROR SET_ENV ", key, reason.as_str(), io);
            Err(reason.as_str().to_owned())
        },
        SetEnvVerdict::Accepted { key: entry } => {
            staging.stage(entry, value);
            Ok(())
        },
    }
}

/// What asking for a value leads to.
pub open spec fn told_leads(
    key: Seq<char>,
    lookup: GetEnvKey,
    staged: Seq<StagedView>,
    placeholders: SecretPlaceholders,
    lines: Seq<Seq<char>>,
    lines_after: Seq<Seq<char>>,
    r: Result<String, String>,
) -> bool {
    match lookup {
        GetEnvKey::Unknown { reason } => {
            &&& r matches Err(e) && e@ == reason@
            &&& lines_after == lines.push("ERROR GET_ENV "@ + key + ": "@ + reason@)
        },
        GetEnvKey::Known { setting } => {
            &&& r matches Ok(value) && value@ == setting_value(
                setting,
                staged,
                placeholders,
            )
            &&& lines_after == lines
        },
    }
}

/// The value to report for a key. The error is the reason for a rejection, which is
/// also put on the wire.
pub fn get_env(
    key: &str,
    lookup: &GetEnvKey,
    staging: &ConfigStaging,
    placeholders: &SecretPlaceholders,
    io: &mut TranscriptIo,
) -> (r: Result<String, String>)
    requires
        staging.wf(),
    ensures
        told_leads(key@, *lookup, staging@, *placeholders, old(io)@, final(io)@, r),
{
    match lookup {
        GetEnvKey::Unknown { reason } => {
            reject("ERROR GET_ENV ", key, reason.as_str(), io);
            Err(reason.as_str().to_owned())
        },
        GetEnvKey::Known { setting } => Ok(
            read_value(&setting.key, staging, &setting.stored, placeholders),
        ),
    }
}

/// What a commit does next.
#[derive(Debug, Clone, Copy, PartialEq, Eq, Structural)]
pub enum CommitStep {
    WriteValue(usize),
    MarkProvisioned,
    Failed,
}

impl CommitStep {
    pub open spec fn ask(self) -> SaveAsk {
        match self {
            CommitStep::WriteValue(place) => SaveAsk::WriteValue(place as nat),
            CommitStep::MarkProvisioned => SaveAsk::MarkProvisioned,
            CommitStep::Failed => SaveAsk::Failed,
        }
    }
}

/// Begin to commit the staged set.
pub fn save_config(staging: &ConfigStaging) -> (r: CommitStep)
    ensures
        r.ask() == save_ask(staging@.len(), 0),
{
    if staging.len() == 0 {
        CommitStep::MarkProvisioned
    } else {
        CommitStep::WriteValue(0)
    }
}

/// What the attempt to write the value at `place` leads to.
pub open spec fn written_leads(
    staged: Seq<StagedView>,
    place: usize,
    landed: bool,
    write_failed: Seq<char>,
    lines: Seq<Seq<char>>,
    lines_after: Seq<Seq<char>>,
    r: CommitStep,
) -> bool {
    if landed {
        r.ask() == save_ask(staged.len(), (place + 1) as nat) && lines_after == lines
    } else {
        r is Failed && lines_after == lines.push(
            "ERROR SAVE_CONFIG "@ + staged[place as int].protocol + ": "@ + write_failed,
        )
    }
}

/// Go on after the value at `place` was written, or could not be. `write_failed` is
/// the protocol layer's reason for a failed write. A failure leaves the staged
/// values alone.
pub fn save_written(
    staging: &ConfigStaging,
    place: usize,
    landed: bool,
    write_failed: &str,
    io: &mut TranscriptIo,
) -> (r: CommitStep)
    requires
        place < staging@.len(),
    ensures
        written_leads(staging@, place, landed, write_failed@, old(io)@, final(io)@, r),
{
    let count: usize = staging.len();
    if !landed {
        assert(staging@[place as int] == staging.values@[place as int]@);
        reject(
            "ERROR SAVE_CONFIG ",
            staging.values[place].protocol.as_str(),
            write_failed,
            io,
        );
        return CommitStep::Failed;
    }
    if place + 1 < count {
        CommitStep::WriteValue(place + 1)
    } else {
        CommitStep::MarkProvisioned
    }
}

/// What the attempt to set the provisioned flag leads to.
pub open spec fn marked_leads(
    landed: bool,
    before: Seq<StagedView>,
    lines: Seq<Seq<char>>,
    after: Seq<StagedView>,
    lines_after: Seq<Seq<char>>,
    r: bool,
) -> bool {
    &&& r == landed
    &&& landed ==> after == Seq::<StagedView>::empty() && lines_after == lines
    &&& !landed ==> after == before && lines_after == lines.push(
        "ERROR SAVE_CONFIG could not mark the tower provisioned"@,
    )
}

/// Finish after the provisioned flag was set, or could not be; `true` if the commit
/// succeeded.
pub fn save_marked(staging: &mut ConfigStaging, landed: bool, io: &mut TranscriptIo) -> (r: bool)
    ensures
        marked_leads(landed, old(staging)@, old(io)@, final(staging)@, final(io)@, r),
{
    if landed {
        staging.clear();
        true
    } else {
        io.write_line("ERROR SAVE_CONFIG could not mark the tower provisioned");
        false
    }
}

} // verus!
