//! Which value a configuration key has, and what is kept of it.

use vstd::prelude::*;

use crate::config_manager::{
    mode_names_stand_for_modes, mode_to_write, plain_overrides, stored_mode, value_leads,
    ConfigManager, ConfigValue, RuntimeMode,
};
use crate::ieee::Double;
use crate::json::{object_of, scalar_of, ScalarView};
use crate::std_text::lowercase_of;
use crate::text::text_pairs;

verus! {

/// A key has its override, else the value that the image was built with, else none.
pub proof fn an_override_goes_first(manager: ConfigManager, key: Seq<char>)
    ensures
        manager.overrides@.dom().contains(key) ==> manager.value(key) == Some(
            manager.overrides@[key],
        ),
        !manager.overrides@.dom().contains(key) && manager.built_in@.dom().contains(key)
            ==> manager.value(key) == Some(manager.built_in@[key]),
        manager.value(key) is None <==> !manager.overrides@.dom().contains(key)
            && !manager.built_in@.dom().contains(key),
{
}

/// Flash is written exactly where it is used and the overrides changed.
pub proof fn a_change_is_saved_where_flash_is_used(
    manager: ConfigManager,
    changed: bool,
    r: Option<String>,
)
    requires
        manager.save_leads(changed, r),
    ensures
        r is Some <==> manager.persist_nvs && changed,
        r matches Some(json) ==> json@ == object_of(text_pairs(manager.overrides.pairs@)),
        r matches Some(json) ==> plain_overrides(manager.overrides@) ==> ConfigManager::loaded(
            Some(json@),
            true,
        ) == manager.overrides@,
{
}

/// Where flash is not used, a manager starts without overrides whatever flash holds.
pub proof fn unused_flash_overrides_nothing(stored: Option<Seq<char>>, key: Seq<char>)
    ensures
        !ConfigManager::loaded(stored, false).dom().contains(key),
        !ConfigManager::loaded(None, true).dom().contains(key),
{
}

/// The tower runs in admin mode exactly where flash is used and holds that mode's name;
/// and the mode that is written is the mode that is read.
pub proof fn a_written_mode_is_read(
    persist_nvs: bool,
    stored: Option<Seq<char>>,
    mode: RuntimeMode,
)
    ensures
        stored_mode(persist_nvs, stored) == RuntimeMode::Admin <==> persist_nvs && stored is Some
            && lowercase_of(stored->0) == "admin"@,
        mode_to_write(persist_nvs, mode) is Some <==> persist_nvs,
        mode_to_write(true, mode) matches Some(name) && (lowercase_of(name) == name
            ==> stored_mode(true, Some(name)) == mode),
{
    mode_names_stand_for_modes(RuntimeMode::Admin);
    mode_names_stand_for_modes(mode);
}

/// A value is taken exactly where it is of the kind asked for; else the default is.
pub proof fn a_value_of_another_kind_is_the_default(
    json: Seq<char>,
    number: i64,
    default_number: i64,
    flag: bool,
    default_flag: bool,
    text: String,
    default_text: String,
    decimal: Double,
    default_decimal: Double,
)
    requires
        value_leads(Some(json), default_number, number),
        value_leads(Some(json), default_flag, flag),
        value_leads(Some(json), default_text, text),
        value_leads(Some(json), default_decimal, decimal),
    ensures
        match scalar_of(json) {
            ScalarView::Bool(b) => flag == b && number == default_number && text == default_text
                && decimal == default_decimal,
            ScalarView::Text(t) => text@ == t && number == default_number && flag == default_flag
                && decimal == default_decimal,
            ScalarView::Number { integer, double } => {
                &&& integer is Some ==> number == integer->0
                &&& integer is None ==> number == default_number
                &&& double is Some ==> decimal == double->0
                &&& double is None ==> decimal == default_decimal
                &&& flag == default_flag
                &&& text == default_text
            },
            _ => number == default_number && flag == default_flag && text == default_text && decimal
                == default_decimal,
        },
{
}

/// Without a value the default is taken.
pub proof fn no_value_is_the_default<T: ConfigValue>(default: T, r: T)
    requires
        value_leads(None, default, r),
    ensures
        r == default,
{
}

} // verus!
