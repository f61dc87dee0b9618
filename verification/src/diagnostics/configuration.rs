//! Provisioned settings: the values that are staged and those that are stored.

use vstd::prelude::*;

use crate::text::{opt_text, same_text};

verus! {

/// A setting that can be provisioned.
#[derive(Debug)]
pub struct ConfigKey {
    /// The name that commands use.
    pub protocol: String,
    /// The key in flash.
    pub nvs: String,
    /// The section and the name that a dump reports it under.
    pub section: String,
    pub name: String,
    /// A secret is never reported, only whether it is set.
    pub secret: bool,
}

/// What stands in a report for a secret that is set, and for one that is not.
#[derive(Debug)]
pub struct SecretPlaceholders {
    pub set: String,
    pub unset: String,
}

impl SecretPlaceholders {
    pub open spec fn text(self, is_set: bool) -> Seq<char> {
        if is_set {
            self.set@
        } else {
            self.unset@
        }
    }
}

/// A value that waits to be committed.
#[derive(Debug)]
pub struct StagedValue {
    pub protocol: String,
    pub nvs: String,
    pub value: String,
}

#[verifier::ext_equal]
pub struct StagedView {
    pub protocol: Seq<char>,
    pub nvs: Seq<char>,
    pub value: Seq<char>,
}

impl View for StagedValue {
    type V = StagedView;

    open spec fn view(&self) -> StagedView {
        StagedView { protocol: self.protocol@, nvs: self.nvs@, value: self.value@ }
    }
}

/// Values held by `SET_ENV` and not yet committed by `SAVE_CONFIG`.
#[derive(Debug)]
pub struct ConfigStaging {
    pub values: Vec<StagedValue>,
}

impl View for ConfigStaging {
    type V = Seq<StagedView>;

    open spec fn view(&self) -> Seq<StagedView> {
        self.values@.map_values(|v: StagedValue| v@)
    }
}

/// No setting is staged twice.
pub open spec fn staged_once(staged: Seq<StagedView>) -> bool {
    forall|i: int, j: int|
        0 <= i < j < staged.len() ==> (#[trigger] staged[i]).protocol != (
        #[trigger] staged[j]).protocol
}

/// Where a setting stands among those staged.
pub open spec fn staged_at(staged: Seq<StagedView>, protocol: Seq<char>) -> Option<int>
    decreases staged.len(),
{
    if staged.len() == 0 {
        None
    } else if staged.last().protocol == protocol {
        Some(staged.len() - 1)
    } else {
        staged_at(staged.drop_last(), protocol)
    }
}

/// The staged value of a setting.
pub open spec fn staged_value(staged: Seq<StagedView>, protocol: Seq<char>) -> Option<Seq<char>> {
    match staged_at(staged, protocol) {
        Some(i) => Some(staged[i].value),
        None => None,
    }
}

/// What is staged after one more `SET_ENV`: a value for a setting staged before
/// takes its place.
pub open spec fn staged_with(staged: Seq<StagedView>, v: StagedView) -> Seq<StagedView> {
    match staged_at(staged, v.protocol) {
        Some(i) => staged.update(i, v),
        None => staged.push(v),
    }
}

/// Where a setting is found, it stands; where none is found, none stands.
pub proof fn staged_at_is(staged: Seq<StagedView>, protocol: Seq<char>)
    ensures
        match staged_at(staged, protocol) {
            Some(i) => 0 <= i < staged.len() && staged[i].protocol == protocol,
            None => forall|i: int|
                0 <= i < staged.len() ==> (#[trigger] staged[i]).protocol != protocol,
        },
    decreases staged.len(),
{
    if staged.len() > 0 && staged.last().protocol != protocol {
        let rest = staged.drop_last();
        staged_at_is(rest, protocol);
        assert(forall|i: int| 0 <= i < rest.len() ==> rest[i] == staged[i]);
        if staged_at(rest, protocol) is None {
            assert forall|i: int| 0 <= i < staged.len() implies (#[trigger] staged[i]).protocol
                != protocol by {
                if i < rest.len() {
                    assert(rest[i] == staged[i]);
                }
            }
        }
    }
}

proof fn staged_at_unique(staged: Seq<StagedView>, protocol: Seq<char>, i: int)
    requires
        staged_once(staged),
        0 <= i < staged.len(),
        staged[i].protocol == protocol,
    ensures
        staged_at(staged, protocol) == Some(i),
{
    staged_at_is(staged, protocol);
}

/// A value that was staged is the one that is reported and committed, and staging
/// it touches no other setting.
pub proof fn staging_holds_the_latest_value(
    staged: Seq<StagedView>,
    v: StagedView,
    other: Seq<char>,
)
    requires
        staged_once(staged),
        other != v.protocol,
    ensures
        staged_once(staged_with(staged, v)),
        staged_value(staged_with(staged, v), v.protocol) == Some(v.value),
        staged_value(staged_with(staged, v), other) == staged_value(staged, other),
{
    let after = staged_with(staged, v);
    staged_at_is(staged, v.protocol);
    staged_at_is(staged, other);
    assert(staged_once(after));
    match staged_at(staged, v.protocol) {
        Some(i) => {
            staged_at_unique(after, v.protocol, i);
        },
        None => {
            staged_at_unique(after, v.protocol, staged.len() as int);
        },
    }
    staged_at_is(after, other);
    match staged_at(staged, other) {
        Some(j) => {
            assert(after[j] == staged[j]);
            staged_at_unique(after, other, j);
        },
        None => {
            if staged_at(after, other) is Some {
                let k = staged_at(after, other)->0;
                assert(after[k].protocol == other);
                assert(k < staged.len() ==> after[k] == staged[k] || after[k] == v);
            }
        },
    }
}

impl ConfigStaging {
    pub open spec fn wf(self) -> bool {
        staged_once(self@)
    }

    pub fn new() -> (r: Self)
        ensures
            r@ == Seq::<StagedView>::empty(),
            r.wf(),
    {
        let r = ConfigStaging { values: Vec::new() };
        assert(r@ =~= Seq::<StagedView>::empty());
        r
    }

    /// How many values are staged.
    pub fn len(&self) -> (r: usize)
        ensures
            r == self@.len(),
    {
        self.values.len()
    }

    fn find(&self, protocol: &str) -> (r: Option<usize>)
        requires
            self.wf(),
        ensures
            match r {
                Some(i) => staged_at(self@, protocol@) == Some(i as int) && i < self@.len(),
                None => staged_at(self@, protocol@) is None,
            },
    {
        let mut i: usize = 0;
        while i < self.values.len()
            invariant
                self.wf(),
                0 <= i <= self@.len(),
                self@.len() == self.values@.len(),
                forall|j: int| 0 <= j < i ==> (#[trigger] self@[j]).protocol != protocol@,
            decreases self.values.len() - i,
        {
            assert(self@[i as int] == self.values@[i as int]@);
            if same_text(self.values[i].protocol.as_str(), protocol) {
                proof {
                    staged_at_unique(self@, protocol@, i as int);
                }
                return Some(i);
            }
            i = i + 1;
        }
        proof {
            staged_at_is(self@, protocol@);
        }
        None
    }

    /// The value that is staged for a setting.
    pub fn get(&self, protocol: &str) -> (r: Option<&str>)
        requires
            self.wf(),
        ensures
            match r {
                Some(value) => staged_value(self@, protocol@) == Some(value@),
                None => staged_value(self@, protocol@) is None,
            },
    {
        match self.find(protocol) {
            Some(i) => {
                assert(self@[i as int] == self.values@[i as int]@);
                Some(self.values[i].value.as_str())
            },
            None => None,
        }
    }

    /// Stage a value, in place of one staged for the same setting before.
    pub fn stage(&mut self, key: &ConfigKey, value: &str)
        requires
            old(self).wf(),
        ensures
            final(self)@ == staged_with(
                old(self)@,
                StagedView { protocol: key.protocol@, nvs: key.nvs@, value: value@ },
            ),
            final(self).wf(),
    {
        let ghost before = self@;
        let ghost v = StagedView { protocol: key.protocol@, nvs: key.nvs@, value: value@ };
        proof {
            staged_at_is(before, key.protocol@);
        }
        let place = self.find(key.protocol.as_str());
        let staged = StagedValue {
            protocol: key.protocol.as_str().to_owned(),
            nvs: key.nvs.as_str().to_owned(),
            value: value.to_owned(),
        };
        match place {
            Some(i) => {
                self.values[i] = staged;
                assert(self@ =~= before.update(i as int, v));
            },
            None => {
                self.values.push(staged);
                assert(self@ =~= before.push(v));
            },
        }
        assert(staged_once(self@));
    }

    /// Forget every staged value.
    pub fn clear(&mut self)
        ensures
            final(self)@ == Seq::<StagedView>::empty(),
            final(self).wf(),
    {
        self.values.clear();
        assert(self@ =~= Seq::<StagedView>::empty());
    }
}

/// What a read reports of a setting: the staged value if there is one, else the
/// stored one; of a secret only whether it is set.
pub open spec fn reported_value(
    secret: bool,
    staged: Option<Seq<char>>,
    stored: Option<Seq<char>>,
    placeholders: SecretPlaceholders,
) -> Seq<char> {
    if secret {
        placeholders.text(staged is Some || (stored is Some && (stored->0).len() > 0))
    } else if staged is Some {
        staged->0
    } else if stored is Some {
        stored->0
    } else {
        Seq::empty()
    }
}

/// The value that a read should report.
pub fn read_value(
    key: &ConfigKey,
    staging: &ConfigStaging,
    stored: &Option<String>,
    placeholders: &SecretPlaceholders,
) -> (r: String)
    requires
        staging.wf(),
    ensures
        r@ == reported_value(
            key.secret,
            staged_value(staging@, key.protocol@),
            opt_text(*stored),
            *placeholders,
        ),
{
    let staged = staging.get(key.protocol.as_str());
    if key.secret {
        let is_set = staged.is_some() || match stored {
            Some(value) => !value.as_str().is_empty(),
            None => false,
        };
        return if is_set {
            placeholders.set.as_str().to_owned()
        } else {
            placeholders.unset.as_str().to_owned()
        };
    }
    match staged {
        Some(value) => value.to_owned(),
        None => match stored {
            Some(value) => value.as_str().to_owned(),
            None => String::new(),
        },
    }
}

/// A secret cannot be told from a report: whatever its staged and stored values
/// are, the report is the same as long as it is set, or not set, in both.
pub proof fn a_report_hides_secrets(
    staged: Option<Seq<char>>,
    stored: Option<Seq<char>>,
    other_staged: Option<Seq<char>>,
    other_stored: Option<Seq<char>>,
    placeholders: SecretPlaceholders,
)
    requires
        (staged is Some || (stored is Some && (stored->0).len() > 0)) == (other_staged is Some || (
        other_stored is Some && (other_stored->0).len() > 0)),
    ensures
        reported_value(true, staged, stored, placeholders) == reported_value(
            true,
            other_staged,
            other_stored,
            placeholders,
        ),
{
}

/// A setting, with what its key holds in flash.
#[derive(Debug)]
pub struct StoredSetting {
    pub key: ConfigKey,
    pub stored: Option<String>,
}

/// What a dump reports of one setting.
pub open spec fn setting_value(
    setting: StoredSetting,
    staged: Seq<StagedView>,
    placeholders: SecretPlaceholders,
) -> Seq<char> {
    reported_value(
        setting.key.secret,
        staged_value(staged, setting.key.protocol@),
        opt_text(setting.stored),
        placeholders,
    )
}

/// Whether the setting at `i` opens a section: its section differs from that of the
/// setting before it.
pub open spec fn opens_section(settings: Seq<StoredSetting>, i: int) -> bool {
    settings[i].key.section@ != (if i == 0 {
        ""@
    } else {
        settings[i - 1].key.section@
    })
}

/// How many sections the first `n` settings open.
pub open spec fn section_count(settings: Seq<StoredSetting>, n: nat) -> nat
    decreases n,
{
    if n == 0 {
        0
    } else {
        let here: nat = if opens_section(settings, n - 1) {
            1
        } else {
            0
        };
        section_count(settings, (n - 1) as nat) + here
    }
}

/// A section of a dump and its entries.
#[derive(Debug)]
pub struct ConfigSection {
    pub name: String,
    pub entries: Vec<(String, String)>,
}

#[verifier::ext_equal]
pub struct SectionView {
    pub name: Seq<char>,
    pub entries: Seq<(Seq<char>, Seq<char>)>,
}

impl View for ConfigSection {
    type V = SectionView;

    open spec fn view(&self) -> SectionView {
        SectionView { name: self.name@, entries: crate::text::text_pairs(self.entries@) }
    }
}

pub open spec fn section_views(sections: Seq<ConfigSection>) -> Seq<SectionView> {
    sections.map_values(|s: ConfigSection| s@)
}

/// The runs of settings with the same section, in order.
pub open spec fn section_runs(
    settings: Seq<StoredSetting>,
    staged: Seq<StagedView>,
    placeholders: SecretPlaceholders,
) -> Seq<SectionView>
    decreases settings.len(),
{
    if settings.len() == 0 {
        Seq::empty()
    } else {
        let before = section_runs(settings.drop_last(), staged, placeholders);
        let s = settings.last();
        let entry = (s.key.name@, setting_value(s, staged, placeholders));
        if before.len() > 0 && before.last().name == s.key.section@ {
            before.update(
                before.len() - 1,
                SectionView {
                    name: before.last().name,
                    entries: before.last().entries.push(entry),
                },
            )
        } else {
            before.push(SectionView { name: s.key.section@, entries: seq![entry] })
        }
    }
}

/// The sections that have a name.
pub open spec fn named_sections(runs: Seq<SectionView>) -> Seq<SectionView> {
    runs.filter(|s: SectionView| s.name.len() > 0)
}

/// Group settings by section for a dump. Settings without a section are left out.
pub fn nvs_configuration(
    settings: &Vec<StoredSetting>,
    staging: &ConfigStaging,
    placeholders: &SecretPlaceholders,
) -> (r: Vec<ConfigSection>)
    requires
        staging.wf(),
    ensures
        section_views(r@) == named_sections(section_runs(settings@, staging@, *placeholders)),
{
    let mut runs: Vec<ConfigSection> = Vec::new();
    let mut i: usize = 0;
    assert(section_views(runs@) =~= section_runs(settings@.take(0), staging@, *placeholders));
    while i < settings.len()
        invariant
            staging.wf(),
            0 <= i <= settings.len(),
            section_views(runs@) == section_runs(
                settings@.take(i as int),
                staging@,
                *placeholders,
            ),
        decreases settings.len() - i,
    {
        let setting = &settings[i];
        let ghost before = section_views(runs@);
        let ghost t = settings@.take(i + 1);
        proof {
            assert(t.drop_last() =~= settings@.take(i as int));
            assert(t.last() == settings@[i as int]);
        }
        let value = read_value(&setting.key, staging, &setting.stored, placeholders);
        let name = setting.key.name.as_str().to_owned();
        let ghost entry = (name@, value@);
        let last = runs.pop();
        match last {
            Some(mut run) => {
                assert(before.last() == run@);
                assert(section_views(runs@) =~= before.drop_last());
                if same_text(run.name.as_str(), setting.key.section.as_str()) {
                    let ghost entries = run@.entries;
                    run.entries.push((name, value));
                    assert(run@.entries =~= entries.push(entry));
                    runs.push(run);
                    assert(section_views(runs@) =~= section_runs(t, staging@, *placeholders));
                } else {
                    runs.push(run);
                    assert(section_views(runs@) =~= before);
                    let section = open_section(setting.key.section.as_str(), name, value);
                    runs.push(section);
                    assert(section_views(runs@) =~= section_runs(t, staging@, *placeholders));
                }
            },
            None => {
                assert(before.len() == 0);
                let section = open_section(setting.key.section.as_str(), name, value);
                runs.push(section);
                assert(section_views(runs@) =~= section_runs(t, staging@, *placeholders));
            },
        }
        i = i + 1;
    }
    assert(settings@.take(settings.len() as int) =~= settings@);
    drop_nameless(runs)
}

fn open_section(section: &str, name: String, value: String) -> (r: ConfigSection)
    ensures
        r@ == (SectionView { name: section@, entries: seq![(name@, value@)] }),
{
    let mut entries: Vec<(String, String)> = Vec::new();
    entries.push((name, value));
    let r = ConfigSection { name: section.to_owned(), entries };
    assert(r@.entries =~= seq![(name@, value@)]);
    r
}

fn drop_nameless(runs: Vec<ConfigSection>) -> (r: Vec<ConfigSection>)
    ensures
        section_views(r@) == named_sections(section_views(runs@)),
{
    let ghost all = section_views(runs@);
    let ghost keep = |s: SectionView| s.name.len() > 0;
    let mut left = runs;
    let mut kept: Vec<ConfigSection> = Vec::new();
    assert(section_views(kept@) =~= all.take(0).filter(keep)) by {
        reveal(Seq::filter);
    }
    let mut i: usize = 0;
    let n: usize = left.len();
    while i < n
        invariant
            0 <= i <= n,
            n == all.len(),
            left@.len() == n - i,
            section_views(left@) == all.skip(i as int),
            keep == (|s: SectionView| s.name.len() > 0),
            section_views(kept@) == all.take(i as int).filter(keep),
        decreases n - i,
    {
        let ghost before = section_views(left@);
        let section = left.remove(0);
        proof {
            assert(section@ == before[0]);
            assert(before[0] == all[i as int]);
            assert(section_views(left@) =~= before.drop_first());
            assert(before.drop_first() =~= all.skip(i + 1));
            reveal(Seq::filter);
            assert(all.take(i + 1).drop_last() =~= all.take(i as int));
            assert(all.take(i + 1).last() == all[i as int]);
        }
        if !section.name.as_str().is_empty() {
            let ghost kept_before = section_views(kept@);
            kept.push(section);
            assert(section_views(kept@) =~= kept_before.push(section@));
        }
        i = i + 1;
    }
    assert(all.take(n as int) =~= all);
    kept
}

} // verus!
