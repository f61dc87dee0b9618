//! What the codes in flash stand for, and when flash is written.

use vstd::prelude::*;

use crate::ieee::Single;
use crate::logic::types::MotionMode;
use crate::storage::snapshot_store::{
    flag_code, flag_loaded, heading_loaded, mode_code, mode_loaded, saved_heading, saved_mode,
    snapshot_loaded, snapshot_when_persistent, when_persistent, NvsWriteView,
};

verus! {

/// In flash one stands for a tower that drives by steps alone and two for one whose
/// encoder guards it; anything else stands for the default.
pub proof fn mode_codes_are_fixed(stored: Option<u8>, default: MotionMode)
    ensures
        mode_code(MotionMode::StepperOnly) == 1,
        mode_code(MotionMode::EncoderGuarded) == 2,
        stored == Some(1u8) ==> mode_loaded(stored, default) == MotionMode::StepperOnly,
        stored == Some(2u8) ==> mode_loaded(stored, default) == MotionMode::EncoderGuarded,
        stored != Some(1u8) && stored != Some(2u8) ==> mode_loaded(stored, default) == default,
{
}

/// In flash one stands for yes and zero for no; anything else stands for the default.
pub proof fn flag_codes_are_fixed(stored: Option<u8>, default: bool)
    ensures
        flag_code(true) == 1,
        flag_code(false) == 0,
        stored == Some(1u8) ==> flag_loaded(stored, default),
        stored == Some(0u8) ==> !flag_loaded(stored, default),
        stored != Some(1u8) && stored != Some(0u8) ==> flag_loaded(stored, default) == default,
{
}

/// A stored heading is taken to the bit; without one the default is.
pub proof fn a_stored_heading_goes_first(stored: Option<u32>, default: Single)
    ensures
        stored matches Some(bits) ==> heading_loaded(stored, default).bits == bits,
        stored is None ==> heading_loaded(stored, default) == default,
{
}

/// An encoder position is used exactly where it is there and bears this version.
pub proof fn only_this_versions_position_is_used(version: Option<u32>, ticks: Option<i32>)
    ensures
        snapshot_loaded(version, ticks) is Some <==> version == Some(1u32) && ticks is Some,
        snapshot_loaded(version, ticks) is Some ==> snapshot_loaded(version, ticks) == ticks,
{
}

/// Flash is written exactly where persistence is on, with what was to be written.
pub proof fn nothing_is_written_without_persistence(
    persist: bool,
    write: NvsWriteView,
    ticks: i32,
)
    ensures
        when_persistent(true, write) == seq![write],
        when_persistent(false, write).len() == 0,
        snapshot_when_persistent(false, ticks).len() == 0,
        snapshot_when_persistent(true, ticks).len() == 2,
        snapshot_when_persistent(true, ticks)[0] matches NvsWriteView::U32 { value, .. }
            && value == 1,
        snapshot_when_persistent(true, ticks)[1] matches NvsWriteView::I32 { value, .. }
            && value == ticks,
{
}

/// A heading is stored to the bit, a mode by its code.
pub proof fn what_is_stored_is_what_was_given(heading: Single, mode: MotionMode)
    ensures
        saved_heading(heading) matches NvsWriteView::U32 { value, .. } && value == heading.bits,
        saved_mode(mode) matches NvsWriteView::U8 { value, .. } && (value == 1
            <==> mode == MotionMode::StepperOnly),
{
}

} // verus!
