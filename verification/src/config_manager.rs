//! Configuration values and their runtime overrides.
//!
//! A runtime override goes before the value that the image was built with, and that
//! before a default. Values are kept as JSON texts.

use vstd::prelude::*;

use crate::ieee::Double;
use crate::json::{
    json_members, json_object, json_scalar, members_of, object_of, plain_json, plain_members,
    reads_back, scalar_of, JsonScalar, ScalarView, MAX_JSON_DEPTH,
};
use crate::logic::daily_reset::opt_str_view;
use crate::std_text::{lowercase, lowercase_of};
use crate::text::{same_text, text_pairs};
use crate::text_map::{pairs_map, pairs_map_holds, TextMap};

verus! {

pub const NVS_KEY_OVERRIDES: &'static str = "overrides";
pub const NVS_KEY_RUNTIME_MODE: &'static str = "runtime_mode";

#[derive(Debug, Clone, Copy, PartialEq, Eq, Structural)]
pub enum RuntimeMode {
    Normal,
    Admin,
}

impl RuntimeMode {
    pub open spec fn text(self) -> Seq<char> {
        match self {
            RuntimeMode::Normal => "normal"@,
            RuntimeMode::Admin => "admin"@,
        }
    }

    /// The mode of a name in lower case.
    pub open spec fn named(lower: Seq<char>) -> Option<RuntimeMode> {
        if lower == "normal"@ {
            Some(RuntimeMode::Normal)
        } else if lower == "admin"@ {
            Some(RuntimeMode::Admin)
        } else {
            None
        }
    }

    pub fn as_str(&self) -> (r: &'static str)
        ensures
            r@ == self.text(),
    {
        match self {
            RuntimeMode::Normal => "normal",
            RuntimeMode::Admin => "admin",
        }
    }

    /// The mode of a name in lower case.
    pub fn from_lowercase(lower: &str) -> (r: Option<Self>)
        ensures
            r == RuntimeMode::named(lower@),
    {
        if same_text(lower, "normal") {
            Some(RuntimeMode::Normal)
        } else if same_text(lower, "admin") {
            Some(RuntimeMode::Admin)
        } else {
            None
        }
    }

    /// The mode of a name, whatever its case.
    pub fn from_str(s: &str) -> (r: Option<Self>)
        ensures
            r == RuntimeMode::named(lowercase_of(s@)),
    {
        let lower = lowercase(s);
        RuntimeMode::from_lowercase(lower.as_str())
    }
}

/// A mode's name stands for that mode.
pub proof fn mode_names_stand_for_modes(mode: RuntimeMode)
    ensures
        RuntimeMode::named(mode.text()) == Some(mode),
{
    reveal_strlit("normal");
    reveal_strlit("admin");
    assert("normal"@.len() == 6);
    assert("admin"@.len() == 5);
}

/// A manager that starts with `json` has these overrides.
pub open spec fn restores(json: Seq<char>, overrides: Map<Seq<char>, Seq<char>>) -> bool {
    members_of(json) is Some && pairs_map(members_of(json)->0) == overrides
}

/// Every override is a plain value.
pub open spec fn plain_overrides(overrides: Map<Seq<char>, Seq<char>>) -> bool {
    forall|key: Seq<char>| #[trigger] overrides.dom().contains(key) ==> plain_json(
        overrides[key],
        MAX_JSON_DEPTH as nat,
    )
}

/// The mode that flash holds, where it is used and holds one; else normal.
pub open spec fn stored_mode(persist_nvs: bool, stored: Option<Seq<char>>) -> RuntimeMode {
    match stored {
        Some(name) => match RuntimeMode::named(lowercase_of(name)) {
            Some(mode) => if persist_nvs {
                mode
            } else {
                RuntimeMode::Normal
            },
            None => RuntimeMode::Normal,
        },
        None => RuntimeMode::Normal,
    }
}

/// What has to be written to set the mode, if flash is used.
pub open spec fn mode_to_write(persist_nvs: bool, mode: RuntimeMode) -> Option<Seq<char>> {
    if persist_nvs {
        Some(mode.text())
    } else {
        None
    }
}

/// What asking for a value of a kind leads to.
pub open spec fn value_leads<T: ConfigValue>(value: Option<Seq<char>>, default: T, r: T) -> bool {
    match value {
        Some(json) => if T::rejection(scalar_of(json)) is None {
            r.holds(scalar_of(json))
        } else {
            r == default
        },
        None => r == default,
    }
}

/// Runtime overrides, the values that the image was built with, and whether overrides
/// are persisted.
#[derive(Debug)]
pub struct ConfigManager {
    pub overrides: TextMap,
    pub built_in: TextMap,
    pub persist_nvs: bool,
}

impl ConfigManager {
    pub open spec fn wf(self) -> bool {
        self.overrides.wf() && self.built_in.wf()
    }

    /// The value that the image was built with.
    pub open spec fn built_in_value(self, key: Seq<char>) -> Option<Seq<char>> {
        if self.built_in@.dom().contains(key) {
            Some(self.built_in@[key])
        } else {
            None
        }
    }

    /// The value of a key: its override, else the one that the image was built with.
    pub open spec fn value(self, key: Seq<char>) -> Option<Seq<char>> {
        if self.overrides@.dom().contains(key) {
            Some(self.overrides@[key])
        } else {
            self.built_in_value(key)
        }
    }

    /// The overrides of a manager that starts with what flash holds.
    pub open spec fn loaded(stored: Option<Seq<char>>, persist_nvs: bool) -> Map<
        Seq<char>,
        Seq<char>,
    > {
        match stored {
            Some(json) => if persist_nvs && members_of(json) is Some {
                pairs_map(members_of(json)->0)
            } else {
                Map::empty()
            },
            None => Map::empty(),
        }
    }

    /// `json` is what flash holds of the overrides. Plain overrides survive a
    /// restart: a manager that starts with `json` has them again.
    pub open spec fn saves(self, json: Seq<char>) -> bool {
        &&& json == object_of(text_pairs(self.overrides.pairs@))
        &&& plain_overrides(self.overrides@) ==> restores(json, self.overrides@)
    }

    /// What has to be written to flash once the overrides stand, if they changed.
    pub open spec fn save_leads(self, changed: bool, r: Option<String>) -> bool {
        match r {
            Some(json) => self.persist_nvs && changed && self.saves(json@),
            None => !self.persist_nvs || !changed,
        }
    }

    /// Start with the overrides that flash holds, if they are persisted and can be
    /// read; otherwise with none.
    pub fn new(stored: Option<&str>, persist_nvs: bool, built_in: TextMap) -> (r: Self)
        requires
            built_in.wf(),
        ensures
            r.wf(),
            r.persist_nvs == persist_nvs,
            r.built_in == built_in,
            r.overrides@ == ConfigManager::loaded(opt_str_view(stored), persist_nvs),
    {
        let mut manager = ConfigManager { overrides: TextMap::new(), built_in, persist_nvs };
        if persist_nvs {
            match stored {
                Some(json) => {
                    match json_members(json) {
                        Some(pairs) => {
                            manager.overrides = TextMap::from_pairs(pairs);
                        },
                        None => {},
                    }
                },
                None => {},
            }
        }
        manager
    }

    /// The value of a key, as JSON: its override, else the one that the image was
    /// built with.
    pub fn get(&self, key: &str) -> (r: Option<&str>)
        requires
            self.wf(),
        ensures
            opt_str_view(r) == self.value(key@),
    {
        match self.overrides.get(key) {
            Some(json) => Some(json),
            None => self.built_in.get(key),
        }
    }

    /// The value of a key, if there is one of the right kind, else `default`.
    pub fn get_with_default<T: ConfigValue>(&self, key: &str, default: T) -> (r: T)
        requires
            self.wf(),
        ensures
            value_leads(self.value(key@), default, r),
    {
        match self.get(key) {
            Some(json) => {
                let scalar = json_scalar(json);
                match T::from_value(&scalar) {
                    Ok(value) => value,
                    Err(_) => default,
                }
            },
            None => default,
        }
    }

    /// Every override, as a JSON object. Plain overrides can be read back from it.
    pub fn get_all_overrides(&self) -> (r: String)
        requires
            self.wf(),
        ensures
            r@ == object_of(text_pairs(self.overrides.pairs@)),
            plain_overrides(self.overrides@) ==> restores(r@, self.overrides@),
    {
        let json = json_object(&self.overrides.pairs);
        proof {
            let members = text_pairs(self.overrides.pairs@);
            if plain_overrides(self.overrides@) {
                assert forall|i: int| 0 <= i < members.len() implies plain_json(
                    (#[trigger] members[i]).1,
                    MAX_JSON_DEPTH as nat,
                ) by {
                    pairs_map_holds(members, i);
                }
                assert(plain_members(members));
                assert(reads_back(json@, members));
            }
        }
        json
    }

    /// What has to be written under [`NVS_KEY_OVERRIDES`] after a change.
    fn to_save(&self) -> (r: Option<String>)
        requires
            self.wf(),
        ensures
            self.save_leads(true, r),
    {
        if self.persist_nvs {
            Some(self.get_all_overrides())
        } else {
            None
        }
    }

    /// Override a key. The result is what has to be written to flash.
    pub fn set_runtime(&mut self, key: &str, value: &str) -> (r: Option<String>)
        requires
            old(self).wf(),
        ensures
            final(self).wf(),
            final(self).persist_nvs == old(self).persist_nvs,
            final(self).built_in == old(self).built_in,
            final(self).overrides@ == old(self).overrides@.insert(key@, value@),
            final(self).value(key@) == Some(value@),
            final(self).save_leads(true, r),
    {
        self.overrides.insert(key, value);
        self.to_save()
    }

    /// Take an override back, so that the key has the value that the image was built
    /// with. The result is what has to be written to flash, which
    /// is nothing if there was no such override.
    pub fn remove_runtime(&mut self, key: &str) -> (r: Option<String>)
        requires
            old(self).wf(),
        ensures
            final(self).wf(),
            final(self).persist_nvs == old(self).persist_nvs,
            final(self).built_in == old(self).built_in,
            final(self).overrides@ == old(self).overrides@.remove(key@),
            final(self).value(key@) == old(self).built_in_value(key@),
            final(self).save_leads(old(self).overrides@.dom().contains(key@), r),
    {
        if self.overrides.remove(key) {
            self.to_save()
        } else {
            None
        }
    }

    /// Take every override back, so that every key has the value that the image was
    /// built with. The result is what has to be written to flash.
    pub fn reset_to_defaults(&mut self) -> (r: Option<String>)
        requires
            old(self).wf(),
        ensures
            final(self).wf(),
            final(self).persist_nvs == old(self).persist_nvs,
            final(self).built_in == old(self).built_in,
            final(self).overrides@ == Map::<Seq<char>, Seq<char>>::empty(),
            forall|key: Seq<char>|
                #[trigger] final(self).value(key) == old(self).built_in_value(key),
            final(self).save_leads(true, r),
    {
        self.overrides.clear();
        self.to_save()
    }

    /// The mode that flash holds; normal where it holds none or is not used.
    pub fn get_runtime_mode(&self, stored: Option<&str>) -> (r: RuntimeMode)
        ensures
            r == stored_mode(self.persist_nvs, opt_str_view(stored)),
    {
        if !self.persist_nvs {
            return RuntimeMode::Normal;
        }
        match stored {
            Some(name) => match RuntimeMode::from_str(name) {
                Some(mode) => mode,
                None => RuntimeMode::Normal,
            },
            None => RuntimeMode::Normal,
        }
    }

    /// What has to be written under [`NVS_KEY_RUNTIME_MODE`] to set the mode.
    pub fn set_runtime_mode(&self, mode: RuntimeMode) -> (r: Option<&'static str>)
        ensures
            opt_str_view(r) == mode_to_write(self.persist_nvs, mode),
    {
        if self.persist_nvs {
            Some(mode.as_str())
        } else {
            None
        }
    }
}

/// Persisted overrides survive a restart, as long as they are plain: the manager that
/// starts with what was saved has the overrides of the one that saved it.
pub proof fn overrides_survive_a_restart(manager: ConfigManager, json: Seq<char>)
    requires
        manager.wf(),
        manager.persist_nvs,
        manager.saves(json),
        plain_overrides(manager.overrides@),
    ensures
        ConfigManager::loaded(Some(json), true) == manager.overrides@,
{
}

/// A kind of value that the configuration can hold.
pub trait ConfigValue: Sized {
    /// Whether `self` is the value that a JSON value holds.
    spec fn holds(self, v: ScalarView) -> bool;

    /// Why a JSON value holds no value of this kind, if it does not.
    spec fn rejection(v: ScalarView) -> Option<Seq<char>>;

    fn from_value(v: &JsonScalar) -> (r: Result<Self, String>)
        ensures
            match r {
                Ok(value) => Self::rejection(v@) is None && value.holds(v@),
                Err(reason) => Self::rejection(v@) == Some(reason@),
            },
    ;
}

impl ConfigValue for Double {
    open spec fn holds(self, v: ScalarView) -> bool {
        v matches ScalarView::Number { double, .. } && double == Some(self)
    }

    open spec fn rejection(v: ScalarView) -> Option<Seq<char>> {
        match v {
            ScalarView::Number { double, .. } => if double is Some {
                None
            } else {
                Some("Not a valid f64"@)
            },
            _ => Some("Not a number"@),
        }
    }

    fn from_value(v: &JsonScalar) -> (r: Result<Self, String>) {
        match v {
            JsonScalar::Number { double, .. } => match double {
                Some(x) => Ok(*x),
                None => Err("Not a valid f64".to_owned()),
            },
            _ => Err("Not a number".to_owned()),
        }
    }
}

impl ConfigValue for i64 {
    open spec fn holds(self, v: ScalarView) -> bool {
        v matches ScalarView::Number { integer, .. } && integer == Some(self)
    }

    open spec fn rejection(v: ScalarView) -> Option<Seq<char>> {
        match v {
            ScalarView::Number { integer, .. } => if integer is Some {
                None
            } else {
                Some("Not a valid i64"@)
            },
            _ => Some("Not a number"@),
        }
    }

    fn from_value(v: &JsonScalar) -> (r: Result<Self, String>) {
        match v {
            JsonScalar::Number { integer, .. } => match integer {
                Some(n) => Ok(*n),
                None => Err("Not a valid i64".to_owned()),
            },
            _ => Err("Not a number".to_owned()),
        }
    }
}

impl ConfigValue for bool {
    open spec fn holds(self, v: ScalarView) -> bool {
        v == ScalarView::Bool(self)
    }

    open spec fn rejection(v: ScalarView) -> Option<Seq<char>> {
        if v is Bool {
            None
        } else {
            Some("Not a boolean"@)
        }
    }

    fn from_value(v: &JsonScalar) -> (r: Result<Self, String>) {
        match v {
            JsonScalar::Bool(b) => Ok(*b),
            _ => Err("Not a boolean".to_owned()),
        }
    }
}

impl ConfigValue for String {
    open spec fn holds(self, v: ScalarView) -> bool {
        v == ScalarView::Text(self@)
    }

    open spec fn rejection(v: ScalarView) -> Option<Seq<char>> {
        if v is Text {
            None
        } else {
            Some("Not a string"@)
        }
    }

    fn from_value(v: &JsonScalar) -> (r: Result<Self, String>) {
        match v {
            JsonScalar::Text(s) => Ok(s.as_str().to_owned()),
            _ => Err("Not a string".to_owned()),
        }
    }
}

} // verus!
