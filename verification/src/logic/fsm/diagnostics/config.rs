//! Provisioned configuration: reading it, staging it, committing it.
//!
//! `SET_ENV` holds a value in memory; `SAVE_CONFIG` writes the set and marks the
//! tower provisioned. A provisioning run that stops halfway leaves the tower on its
//! previous configuration.

use vstd::prelude::*;

use crate::diagnostics::answer::{failed, passed, with_error, Answer, AnswerView};
use crate::diagnostics::configuration::{
    opens_section, read_value, section_count, setting_value, staged_with, ConfigKey, ConfigStaging,
    SecretPlaceholders, StagedView, StoredSetting,
};
use crate::diagnostics::executor::{config_mode_details, config_mode_report};
use crate::diagnostics::transcript::{one_detail, TranscriptIo};
use crate::storage::snapshot_store::{NvsImage, NvsWriteView};
use crate::text::{concat2, concat3, decimal, decimal_text, same_text};

verus! {

/// What the protocol layer says of a `SET_ENV`.
#[derive(Debug)]
pub enum SetEnvVerdict {
    /// No such setting, or no such value for it; the reason is given.
    Rejected { reason: String },
    /// The value may be staged for this setting.
    Accepted { key: ConfigKey },
}

/// What a `SET_ENV` leads to.
pub open spec fn set_env_leads(
    key: Seq<char>,
    value: Seq<char>,
    verdict: SetEnvVerdict,
    before: Seq<StagedView>,
    lines: Seq<Seq<char>>,
    after: Seq<StagedView>,
    lines_after: Seq<Seq<char>>,
    r: AnswerView,
) -> bool {
    match verdict {
        SetEnvVerdict::Rejected { reason } => {
            let message = "SET_ENV "@ + key + ": "@ + reason@;
            &&& after == before
            &&& r == failed(message)
            &&& lines_after == with_error(lines, message)
        },
        SetEnvVerdict::Accepted { key: entry } => {
            &&& after == staged_with(
                before,
                StagedView { protocol: entry.protocol@, nvs: entry.nvs@, value },
            )
            &&& r == passed(seq![("staged"@, decimal_text(after.len()))], ""@)
            &&& lines_after == lines.push("OK"@)
        },
    }
}

/// `SET_ENV <key>=<value>`: hold an accepted value, without writing it.
pub fn set_env(
    key: &str,
    value: &str,
    verdict: &SetEnvVerdict,
    staging: &mut ConfigStaging,
    io: &mut TranscriptIo,
) -> (r: Answer)
    requires
        old(staging).wf(),
    ensures
        final(staging).wf(),
        set_env_leads(
            key@,
            value@,
            *verdict,
            old(staging)@,
            old(io)@,
            final(staging)@,
            final(io)@,
            r@,
        ),
{
    match verdict {
        SetEnvVerdict::Rejected { reason } => {
            let head = concat3("SET_ENV ", key, ": ");
            Answer::fail_aloud(concat2(head.as_str(), reason.as_str()), io)
        },
        SetEnvVerdict::Accepted { key: entry } => {
            staging.stage(entry, value);
            io.write_line("OK");
            Answer::pass(one_detail("staged", decimal(staging.len() as u64)), "")
        },
    }
}

/// What the protocol layer says of the key of a `GET_ENV`.
#[derive(Debug)]
pub enum GetEnvKey {
    Unknown { reason: String },
    Known { setting: StoredSetting },
}

/// What a `GET_ENV` leads to.
pub open spec fn get_env_leads(
    key: Seq<char>,
    lookup: GetEnvKey,
    staged: Seq<StagedView>,
    placeholders: SecretPlaceholders,
    lines: Seq<Seq<char>>,
    lines_after: Seq<Seq<char>>,
    r: AnswerView,
) -> bool {
    match lookup {
        GetEnvKey::Unknown { reason } => {
            let message = "GET_ENV "@ + key + ": "@ + reason@;
            r == failed(message) && lines_after == with_error(lines, message)
        },
        GetEnvKey::Known { setting } => {
            let value = setting_value(setting, staged, placeholders);
            &&& r == passed(seq![(setting.key.protocol@, value)], ""@)
            &&& lines_after == lines.push(key + "="@ + value)
        },
    }
}

/// `GET_ENV <key>`: report one value.
pub fn get_env(
    key: &str,
    lookup: &GetEnvKey,
    staging: &ConfigStaging,
    placeholders: &SecretPlaceholders,
    io: &mut TranscriptIo,
) -> (r: Answer)
    requires
        staging.wf(),
    ensures
        get_env_leads(key@, *lookup, staging@, *placeholders, old(io)@, final(io)@, r@),
{
    match lookup {
        GetEnvKey::Unknown { reason } => {
            let head = concat3("GET_ENV ", key, ": ");
            Answer::fail_aloud(concat2(head.as_str(), reason.as_str()), io)
        },
        GetEnvKey::Known { setting } => {
            let value = read_value(&setting.key, staging, &setting.stored, placeholders);
            let line = concat3(key, "=", value.as_str());
            io.write_line(line.as_str());
            Answer::pass(one_detail(setting.key.protocol.as_str(), value), "")
        },
    }
}

/// What committing the staged values does next.
#[derive(Debug)]
pub enum SaveStep {
    /// Write the staged value at this place under its key.
    WriteValue(usize),
    /// Every value landed: set the provisioned flag.
    MarkProvisioned,
    Done(Answer),
}

/// What a commit asks for, apart from the words of a failure.
pub enum SaveAsk {
    WriteValue(nat),
    MarkProvisioned,
    Failed,
}

impl View for SaveStep {
    type V = SaveAsk;

    open spec fn view(&self) -> SaveAsk {
        match self {
            SaveStep::WriteValue(place) => SaveAsk::WriteValue(*place as nat),
            SaveStep::MarkProvisioned => SaveAsk::MarkProvisioned,
            SaveStep::Done(_) => SaveAsk::Failed,
        }
    }
}

/// What a commit of `count` values asks for once those before `place` have landed.
pub open spec fn save_ask(count: nat, place: nat) -> SaveAsk {
    if place < count {
        SaveAsk::WriteValue(place)
    } else {
        SaveAsk::MarkProvisioned
    }
}

/// `SAVE_CONFIG`: begin to commit the staged set.
pub fn save_config(staging: &ConfigStaging) -> (r: SaveStep)
    ensures
        r@ == save_ask(staging@.len(), 0),
{
    if staging.len() == 0 {
        SaveStep::MarkProvisioned
    } else {
        SaveStep::WriteValue(0)
    }
}

/// What the attempt to write the value at `place` leads to.
pub open spec fn save_written_leads(
    staged: Seq<StagedView>,
    place: usize,
    outcome: Result<(), String>,
    lines: Seq<Seq<char>>,
    lines_after: Seq<Seq<char>>,
    r: SaveStep,
) -> bool {
    match outcome {
        Ok(_) => {
            &&& lines_after == lines
            &&& r@ == save_ask(staged.len(), (place + 1) as nat)
        },
        Err(e) => {
            let message = "SAVE_CONFIG "@ + staged[place as int].protocol
                + ": could not write ("@ + e@ + ")"@;
            &&& lines_after == with_error(lines, message)
            &&& r matches SaveStep::Done(answer) && answer@ == failed(message)
        },
    }
}

/// Go on after the value at `place` was written, or could not be. A failure leaves
/// the staged values alone, so that the commit can be tried again.
pub fn save_written(
    staging: &ConfigStaging,
    place: usize,
    outcome: &Result<(), String>,
    io: &mut TranscriptIo,
) -> (r: SaveStep)
    requires
        place < staging@.len(),
    ensures
        save_written_leads(staging@, place, *outcome, old(io)@, final(io)@, r),
{
    let count: usize = staging.len();
    match outcome {
        Ok(_) => {
            if place + 1 < count {
                SaveStep::WriteValue(place + 1)
            } else {
                SaveStep::MarkProvisioned
            }
        },
        Err(e) => {
            assert(staging@[place as int] == staging.values@[place as int]@);
            let head = concat3(
                "SAVE_CONFIG ",
                staging.values[place].protocol.as_str(),
                ": could not write (",
            );
            let message = concat3(head.as_str(), e.as_str(), ")");
            SaveStep::Done(Answer::fail_aloud(message, io))
        },
    }
}

/// What the attempt to set the provisioned flag leads to.
pub open spec fn save_marked_leads(
    outcome: Result<(), String>,
    before: Seq<StagedView>,
    lines: Seq<Seq<char>>,
    after: Seq<StagedView>,
    lines_after: Seq<Seq<char>>,
    r: AnswerView,
) -> bool {
    match outcome {
        Ok(_) => {
            &&& after == Seq::<StagedView>::empty()
            &&& lines_after == lines.push("OK"@)
            &&& r == passed(seq![("committed"@, decimal_text(before.len()))], ""@)
        },
        Err(e) => {
            let message = "SAVE_CONFIG: could not mark the tower provisioned ("@ + e@ + ")"@;
            &&& after == before
            &&& lines_after == with_error(lines, message)
            &&& r == failed(message)
        },
    }
}

/// Finish after the provisioned flag was set, or could not be.
pub fn save_marked(
    staging: &mut ConfigStaging,
    outcome: &Result<(), String>,
    io: &mut TranscriptIo,
) -> (r: Answer)
    ensures
        save_marked_leads(
            *outcome,
            old(staging)@,
            old(io)@,
            final(staging)@,
            final(io)@,
            r@,
        ),
{
    match outcome {
        Ok(_) => {
            let staged: usize = staging.len();
            staging.clear();
            io.write_line("OK");
            Answer::pass(one_detail("committed", decimal(staged as u64)), "")
        },
        Err(e) => {
            let message = concat3(
                "SAVE_CONFIG: could not mark the tower provisioned (",
                e.as_str(),
                ")",
            );
            Answer::fail_aloud(message, io)
        },
    }
}

/// What a commit of `count` values asks for after a run of writes, `true` standing
/// for one that landed.
pub open spec fn save_run(count: nat, landed: Seq<bool>) -> SaveAsk
    decreases landed.len(),
{
    if landed.len() == 0 {
        save_ask(count, 0)
    } else {
        match save_run(count, landed.drop_last()) {
            SaveAsk::WriteValue(place) => if landed.last() {
                save_ask(count, place + 1)
            } else {
                SaveAsk::Failed
            },
            other => other,
        }
    }
}

/// The provisioned flag is asked for only after every staged value has landed.
pub proof fn the_flag_comes_last(count: nat, landed: Seq<bool>)
    ensures
        save_run(count, landed) is MarkProvisioned ==> landed.len() >= count && forall|i: int|
            0 <= i < count ==> #[trigger] landed[i],
        save_run(count, landed) matches SaveAsk::WriteValue(place) ==> place == landed.len()
            && place < count && forall|i: int| 0 <= i < place ==> #[trigger] landed[i],
    decreases landed.len(),
{
    if landed.len() > 0 {
        let rest = landed.drop_last();
        the_flag_comes_last(count, rest);
        assert(forall|i: int| 0 <= i < rest.len() ==> rest[i] == landed[i]);
        match save_run(count, rest) {
            SaveAsk::WriteValue(place) => {
                assert forall|i: int| 0 <= i < place implies #[trigger] landed[i] by {
                    assert(rest[i]);
                }
            },
            SaveAsk::MarkProvisioned => {
                assert forall|i: int| 0 <= i < count implies #[trigger] landed[i] by {
                    assert(rest[i]);
                }
            },
            SaveAsk::Failed => {},
        }
    }
}

/// The writes of a commit whose first `n` values landed.
pub open spec fn commit_writes(staged: Seq<StagedView>, n: nat) -> Seq<NvsWriteView>
    decreases n,
{
    if n == 0 {
        Seq::empty()
    } else {
        commit_writes(staged, (n - 1) as nat).push(
            NvsWriteView::Str { key: staged[n - 1].nvs, value: staged[n - 1].value },
        )
    }
}

/// A commit that ran through leaves every staged value under its key, where no two
/// settings share a key.
pub proof fn a_commit_stores_every_value(image: NvsImage, staged: Seq<StagedView>, i: int)
    requires
        0 <= i < staged.len(),
        forall|a: int, b: int|
            0 <= a < b < staged.len() ==> (#[trigger] staged[a]).nvs != (#[trigger] staged[b]).nvs,
    ensures
        image.replayed(commit_writes(staged, staged.len())).str_at(staged[i].nvs) == Some(
            staged[i].value,
        ),
{
    commit_prefix(image, staged, staged.len(), i);
}

proof fn commit_prefix(image: NvsImage, staged: Seq<StagedView>, n: nat, i: int)
    requires
        0 <= i < n <= staged.len(),
        forall|a: int, b: int|
            0 <= a < b < staged.len() ==> (#[trigger] staged[a]).nvs != (#[trigger] staged[b]).nvs,
    ensures
        image.replayed(commit_writes(staged, n)).str_at(staged[i].nvs) == Some(staged[i].value),
    decreases n,
{
    let w = commit_writes(staged, n);
    let before = commit_writes(staged, (n - 1) as nat);
    assert(w.drop_last() =~= before);
    if i < n - 1 {
        commit_prefix(image, staged, (n - 1) as nat, i);
        assert(staged[i].nvs != staged[n - 1].nvs);
    }
}

/// The lines of a dump of the first `n` settings.
pub open spec fn dump_lines(
    settings: Seq<StoredSetting>,
    staged: Seq<StagedView>,
    placeholders: SecretPlaceholders,
    n: nat,
) -> Seq<Seq<char>>
    decreases n,
{
    if n == 0 {
        Seq::empty()
    } else {
        let before = dump_lines(settings, staged, placeholders, (n - 1) as nat);
        let s = settings[n - 1];
        let opened = if opens_section(settings, n - 1) {
            before.push("["@ + s.key.section@ + "]"@)
        } else {
            before
        };
        opened.push(s.key.name@ + "="@ + setting_value(s, staged, placeholders))
    }
}

/// `GET_CONFIG`: report every setting, with a header wherever the section changes.
pub fn get_config(
    settings: &Vec<StoredSetting>,
    staging: &ConfigStaging,
    placeholders: &SecretPlaceholders,
    io: &mut TranscriptIo,
) -> (r: Answer)
    requires
        staging.wf(),
    ensures
        r@ == passed(
            seq![("sections"@, decimal_text(section_count(settings@, settings@.len())))],
            ""@,
        ),
        final(io)@ == old(io)@ + dump_lines(
            settings@,
            staging@,
            *placeholders,
            settings@.len(),
        ),
{
    let ghost before = io@;
    let mut sections: usize = 0;
    let mut current: &str = "";
    let mut i: usize = 0;
    assert(io@ =~= before + dump_lines(settings@, staging@, *placeholders, 0));
    while i < settings.len()
        invariant
            staging.wf(),
            0 <= i <= settings.len(),
            sections <= i,
            sections == section_count(settings@, i as nat),
            current@ == (if i == 0 {
                ""@
            } else {
                settings@[i - 1].key.section@
            }),
            io@ == before + dump_lines(settings@, staging@, *placeholders, i as nat),
        decreases settings.len() - i,
    {
        let setting = &settings[i];
        if !same_text(setting.key.section.as_str(), current) {
            current = setting.key.section.as_str();
            sections = sections + 1;
            let header = concat3("[", current, "]");
            io.write_line(header.as_str());
        }
        let value = read_value(&setting.key, staging, &setting.stored, placeholders);
        let line = concat3(setting.key.name.as_str(), "=", value.as_str());
        io.write_line(line.as_str());
        assert(io@ =~= before + dump_lines(
            settings@,
            staging@,
            *placeholders,
            (i + 1) as nat,
        ));
        i = i + 1;
    }
    Answer::pass(one_detail("sections", decimal(sections as u64)), "")
}

/// What a `CONFIG_MODE` leads to.
pub open spec fn config_mode_leads(
    provisioned: Result<Option<u8>, String>,
    stored: Seq<Option<String>>,
    staged: nat,
    lines: Seq<Seq<char>>,
    lines_after: Seq<Seq<char>>,
    r: AnswerView,
) -> bool {
    match provisioned {
        Err(e) => {
            let message = "CONFIG_MODE failed: NVS is not readable ("@ + e@ + ")"@;
            r == failed(message) && lines_after == with_error(lines, message)
        },
        Ok(flag) => {
            &&& r == passed(config_mode_details(flag, stored, staged), ""@)
            &&& lines_after == lines.push("CONFIG_MODE OK"@)
        },
    }
}

/// `CONFIG_MODE`: is the provisioning path usable, and what does it hold?
pub fn config_mode(
    provisioned: &Result<Option<u8>, String>,
    stored: &Vec<Option<String>>,
    staging: &ConfigStaging,
    io: &mut TranscriptIo,
) -> (r: Answer)
    ensures
        config_mode_leads(*provisioned, stored@, staging@.len(), old(io)@, final(io)@, r@),
{
    match provisioned {
        Err(e) => {
            let message = concat3("CONFIG_MODE failed: NVS is not readable (", e.as_str(), ")");
            Answer::fail_aloud(message, io)
        },
        Ok(flag) => {
            io.write_line("CONFIG_MODE OK");
            Answer::pass(config_mode_report(*flag, stored, staging.len()), "")
        },
    }
}

/// `WRITE_ENV_FILE`: refused, because the board has no filesystem.
pub fn write_env_file(io: &mut TranscriptIo) -> (r: Answer)
    ensures
        r@ == failed("WRITE_ENV_FILE: this board has no filesystem to write to"@),
        final(io)@ == with_error(
            old(io)@,
            "WRITE_ENV_FILE: this board has no filesystem to write to"@,
        ),
{
    Answer::fail_aloud("WRITE_ENV_FILE: this board has no filesystem to write to".to_owned(), io)
}

} // verus!
