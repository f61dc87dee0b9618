//! What provisioning a tower may and may not do.

use vstd::prelude::*;

use crate::diagnostics::answer::AnswerView;
use crate::diagnostics::configuration::{
    named_sections, reported_value, section_count, section_runs, setting_value, staged_at,
    staged_at_is, staged_once, staged_value, staging_holds_the_latest_value, SecretPlaceholders,
    SectionView, StagedView, StoredSetting,
};
use crate::diagnostics::executor::stored_count;
use crate::logic::fsm::diagnostics::config::{
    config_mode_leads, dump_lines, get_env_leads, save_ask, save_marked_leads, save_written_leads,
    set_env_leads, GetEnvKey, SaveAsk, SaveStep, SetEnvVerdict,
};
use crate::text::decimal_text;

verus! {

/// A `SET_ENV` passes exactly where its value is accepted. An accepted value is the one
/// staged for the setting, under the setting's key; one that is rejected stages nothing.
pub proof fn only_an_accepted_value_is_staged(
    key: Seq<char>,
    value: Seq<char>,
    verdict: SetEnvVerdict,
    before: Seq<StagedView>,
    lines: Seq<Seq<char>>,
    after: Seq<StagedView>,
    lines_after: Seq<Seq<char>>,
    r: AnswerView,
    other: Seq<char>,
)
    requires
        staged_once(before),
        set_env_leads(key, value, verdict, before, lines, after, lines_after, r),
    ensures
        r.passed <==> verdict is Accepted,
        !r.reboot_requested,
        verdict is Rejected ==> after == before,
        verdict matches SetEnvVerdict::Accepted { key: entry } ==> {
            &&& staged_value(after, entry.protocol@) == Some(value)
            &&& other != entry.protocol@ ==> staged_value(after, other) == staged_value(
                before,
                other,
            )
            &&& exists|i: int|
                0 <= i < after.len() && (#[trigger] after[i]).protocol == entry.protocol@
                    && after[i].nvs == entry.nvs@ && after[i].value == value
            &&& before.len() <= after.len() <= before.len() + 1
            &&& after.len() == before.len() <==> staged_value(before, entry.protocol@) is Some
            &&& r.details.len() == 1
            &&& r.details[0].1 == decimal_text(after.len())
        },
        lines_after.len() == lines.len() + 1,
{
    match verdict {
        SetEnvVerdict::Accepted { key: entry } => {
            let v = StagedView { protocol: entry.protocol@, nvs: entry.nvs@, value };
            if other != v.protocol {
                staging_holds_the_latest_value(before, v, other);
            } else {
                let another = v.protocol.push('x');
                assert(another.len() != v.protocol.len());
                staging_holds_the_latest_value(before, v, another);
            }
            staged_at_is(before, v.protocol);
            match staged_at(before, v.protocol) {
                Some(i) => {
                    assert(after[i] == v);
                },
                None => {
                    assert(after[before.len() as int] == v);
                },
            }
        },
        _ => {},
    }
}

/// A setting that is no secret reads as what is staged for it, else as what is stored,
/// else as nothing. A secret reads as a placeholder that tells whether it is set.
pub proof fn a_read_prefers_what_is_staged(
    secret: bool,
    staged: Option<Seq<char>>,
    stored: Option<Seq<char>>,
    placeholders: SecretPlaceholders,
)
    ensures
        ({
            let r = reported_value(secret, staged, stored, placeholders);
            &&& !secret && staged is Some ==> r == staged->0
            &&& !secret && staged is None && stored is Some ==> r == stored->0
            &&& !secret && staged is None && stored is None ==> r.len() == 0
            &&& secret && staged is Some ==> r == placeholders.set@
            &&& secret && staged is None && stored is None ==> r == placeholders.unset@
            &&& secret && staged is None && stored is Some && (stored->0).len() == 0 ==> r
                == placeholders.unset@
            &&& secret && staged is None && stored is Some && (stored->0).len() > 0 ==> r
                == placeholders.set@
        }),
{
}

/// A `GET_ENV` passes exactly where the setting is known, and reports its value both on
/// the wire, after the key that was asked for, and in the details.
pub proof fn a_known_setting_is_reported(
    key: Seq<char>,
    lookup: GetEnvKey,
    staged: Seq<StagedView>,
    placeholders: SecretPlaceholders,
    lines: Seq<Seq<char>>,
    lines_after: Seq<Seq<char>>,
    r: AnswerView,
)
    requires
        get_env_leads(key, lookup, staged, placeholders, lines, lines_after, r),
    ensures
        r.passed <==> lookup is Known,
        lookup matches GetEnvKey::Known { setting } ==> {
            let value = setting_value(setting, staged, placeholders);
            &&& r.details.len() == 1
            &&& r.details[0] == (setting.key.protocol@, value)
            &&& lines_after == lines.push(key + "="@ + value)
        },
        lookup is Unknown ==> r.details.len() == 0 && lines_after == lines.push(
            "ERROR "@ + r.message,
        ),
{
}

/// A commit begins with the first value, goes on place by place as long as writes land,
/// and asks for the provisioned flag after the last; with nothing staged it asks for the
/// flag at once. A write that fails ends it.
pub proof fn a_commit_goes_on_as_long_as_writes_land(
    staged: Seq<StagedView>,
    place: usize,
    outcome: Result<(), String>,
    lines: Seq<Seq<char>>,
    lines_after: Seq<Seq<char>>,
    r: SaveStep,
)
    requires
        place < staged.len(),
        save_written_leads(staged, place, outcome, lines, lines_after, r),
    ensures
        r is Done <==> outcome is Err,
        r is WriteValue <==> outcome is Ok && place + 1 < staged.len(),
        r is MarkProvisioned <==> outcome is Ok && place + 1 == staged.len(),
        r matches SaveStep::WriteValue(next) ==> next == place + 1,
        r matches SaveStep::Done(answer) ==> !answer.passed && lines_after == lines.push(
            "ERROR "@ + answer.message@,
        ),
        outcome is Ok ==> lines_after == lines,
        save_ask(staged.len(), 0) == SaveAsk::WriteValue(0),
        save_ask(0, 0) is MarkProvisioned,
{
}

/// What is staged is forgotten exactly once the tower is marked provisioned: until then
/// the commit can be tried again.
pub proof fn staged_values_outlive_a_failed_commit(
    outcome: Result<(), String>,
    before: Seq<StagedView>,
    lines: Seq<Seq<char>>,
    after: Seq<StagedView>,
    lines_after: Seq<Seq<char>>,
    r: AnswerView,
)
    requires
        save_marked_leads(outcome, before, lines, after, lines_after, r),
    ensures
        r.passed <==> outcome is Ok,
        outcome is Ok ==> after.len() == 0,
        outcome is Err ==> after == before,
        outcome is Ok ==> r.details.len() == 1 && r.details[0].1 == decimal_text(before.len()),
        lines_after.len() == lines.len() + 1,
{
}

/// `CONFIG_MODE` passes exactly where storage can be read. A tower counts as provisioned
/// only with the flag at one, and a setting as stored only with a value in it.
pub proof fn readable_storage_is_reported(
    provisioned: Result<Option<u8>, String>,
    stored: Seq<Option<String>>,
    staged: nat,
    lines: Seq<Seq<char>>,
    lines_after: Seq<Seq<char>>,
    r: AnswerView,
)
    requires
        config_mode_leads(provisioned, stored, staged, lines, lines_after, r),
    ensures
        r.passed <==> provisioned is Ok,
        provisioned is Ok ==> lines_after == lines.push("CONFIG_MODE OK"@),
        provisioned is Err ==> lines_after == lines.push("ERROR "@ + r.message),
        provisioned matches Ok(flag) ==> {
            &&& r.details.len() == 4
            &&& flag == Some(1u8) ==> r.details[0] == ("provisioned"@, "yes"@)
            &&& flag != Some(1u8) ==> r.details[0] == ("provisioned"@, "no"@)
            &&& r.details[1] == ("stored"@, decimal_text(stored_count(stored)))
            &&& r.details[2] == ("staged"@, decimal_text(staged))
            &&& r.details[3] == ("keys"@, decimal_text(stored.len()))
        },
{
}

/// One more key with a value in it counts one more, one that is empty or absent none.
pub proof fn only_values_count_as_stored(stored: Seq<Option<String>>, value: Option<String>)
    ensures
        stored_count(Seq::empty()) == 0,
        stored_count(stored.push(value)) == stored_count(stored) + (if value is Some
            && (value->0)@.len() > 0 {
            1int
        } else {
            0int
        }),
{
    assert(stored.push(value).drop_last() =~= stored);
}

/// A dump holds a line for every setting, under its name and with its value, and a header
/// wherever a section begins; dumping one more setting leaves the lines before it alone.
pub proof fn a_dump_holds_every_setting(
    settings: Seq<StoredSetting>,
    staged: Seq<StagedView>,
    placeholders: SecretPlaceholders,
    n: nat,
)
    requires
        0 < n <= settings.len(),
    ensures
        ({
            let lines = dump_lines(settings, staged, placeholders, n);
            let before = dump_lines(settings, staged, placeholders, (n - 1) as nat);
            let setting = settings[n - 1];
            let begins = if n == 1 {
                setting.key.section@.len() > 0
            } else {
                setting.key.section@ != settings[n - 2].key.section@
            };
            &&& lines.last() == setting.key.name@ + "="@ + setting_value(
                setting,
                staged,
                placeholders,
            )
            &&& lines.len() == before.len() + (if begins {
                2int
            } else {
                1int
            })
            &&& begins ==> lines[before.len() as int] == "["@ + setting.key.section@ + "]"@
            &&& forall|i: int| 0 <= i < before.len() ==> #[trigger] lines[i] == before[i]
            &&& section_count(settings, n) == section_count(settings, (n - 1) as nat) + (
            if begins {
                1int
            } else {
                0int
            })
        }),
{
    reveal_strlit("");
    if n == 1 && settings[0].key.section@.len() == 0 {
        assert(settings[0].key.section@ =~= ""@);
    }
}

/// A group is left out of a dump exactly where it has no name.
pub proof fn only_nameless_groups_are_left_out(runs: Seq<SectionView>, run: SectionView)
    ensures
        named_sections(Seq::empty()).len() == 0,
        run.name.len() > 0 ==> named_sections(runs.push(run)) == named_sections(runs).push(run),
        run.name.len() == 0 ==> named_sections(runs.push(run)) == named_sections(runs),
{
    reveal(Seq::filter);
    assert(runs.push(run).drop_last() =~= runs);
}

/// Grouping by section keeps the order: the last setting is the last entry of the last
/// group, which bears its section's name; and neighbouring groups differ in their names.
pub proof fn groups_follow_the_sections(
    settings: Seq<StoredSetting>,
    staged: Seq<StagedView>,
    placeholders: SecretPlaceholders,
)
    requires
        settings.len() > 0,
    ensures
        ({
            let groups = section_runs(settings, staged, placeholders);
            let before = section_runs(settings.drop_last(), staged, placeholders);
            let setting = settings.last();
            let joins = settings.len() > 1 && settings[settings.len() - 2].key.section@
                == setting.key.section@;
            &&& groups.len() == before.len() + (if joins {
                0int
            } else {
                1int
            })
            &&& groups.last().name == setting.key.section@
            &&& groups.last().entries.last() == (
                setting.key.name@,
                setting_value(setting, staged, placeholders),
            )
            &&& groups.last().entries.len() == (if joins {
                before.last().entries.len() + 1
            } else {
                1
            })
            &&& forall|i: int|
                1 <= i < groups.len() ==> (#[trigger] groups[i]).name != groups[i - 1].name
            &&& forall|i: int|
                0 <= i < groups.len() ==> (#[trigger] groups[i]).entries.len() > 0
        }),
    decreases settings.len(),
{
    let rest = settings.drop_last();
    let before = section_runs(rest, staged, placeholders);
    if rest.len() > 0 {
        groups_follow_the_sections(rest, staged, placeholders);
        assert(before.last().name == rest.last().key.section@);
    } else {
        assert(before =~= Seq::empty());
    }
    let groups = section_runs(settings, staged, placeholders);
    assert forall|i: int| 1 <= i < groups.len() implies (#[trigger] groups[i]).name != groups[i
        - 1].name by {
        if i < before.len() {
            assert(before[i].name != before[i - 1].name);
        }
    }
}

} // verus!
