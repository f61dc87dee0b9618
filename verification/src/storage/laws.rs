//! What is saved is what is loaded, and items do not disturb each other.

use vstd::prelude::*;

use crate::ieee::Single;
use crate::logic::types::MotionMode;
use crate::storage::snapshot_store::{
    flag_loaded, mode_loaded, saved_daily_mode, saved_heading, saved_last_run_normal, saved_mode,
    saved_reset_date, saved_snapshot, snapshot_loaded, NvsImage, NvsWriteView,
    NVS_KEY_ENCODER_DAILY_MODE, NVS_KEY_ENCODER_MODE_RESET_DATE, NVS_KEY_ENC_SNAPSHOT_VERSION,
    NVS_KEY_ENC_TICKS_ADJ, NVS_KEY_HEADING, NVS_KEY_LAST_RUN_NORMAL, NVS_KEY_TRACKING_MODE,
};

verus! {

/// What the firmware reads back from flash.
#[verifier::ext_equal]
pub struct Restored {
    pub mode: MotionMode,
    pub last_run_normal: bool,
    pub heading: Option<u32>,
    pub snapshot: Option<i32>,
    pub reset_date: Option<Seq<char>>,
    pub daily_mode: bool,
}

/// What loading every item of an image gives.
pub open spec fn restored(
    image: NvsImage,
    default_mode: MotionMode,
    default_normal: bool,
) -> Restored {
    Restored {
        mode: mode_loaded(image.u8_at(NVS_KEY_TRACKING_MODE@), default_mode),
        last_run_normal: flag_loaded(image.u8_at(NVS_KEY_LAST_RUN_NORMAL@), default_normal),
        heading: image.u32_at(NVS_KEY_HEADING@),
        snapshot: snapshot_loaded(
            image.u32_at(NVS_KEY_ENC_SNAPSHOT_VERSION@),
            image.i32_at(NVS_KEY_ENC_TICKS_ADJ@),
        ),
        reset_date: image.str_at(NVS_KEY_ENCODER_MODE_RESET_DATE@),
        daily_mode: flag_loaded(image.u8_at(NVS_KEY_ENCODER_DAILY_MODE@), false),
    }
}

/// Items of one type are kept under different keys.
pub proof fn keys_differ()
    ensures
        NVS_KEY_TRACKING_MODE@ != NVS_KEY_LAST_RUN_NORMAL@,
        NVS_KEY_TRACKING_MODE@ != NVS_KEY_ENCODER_DAILY_MODE@,
        NVS_KEY_LAST_RUN_NORMAL@ != NVS_KEY_ENCODER_DAILY_MODE@,
        NVS_KEY_HEADING@ != NVS_KEY_ENC_SNAPSHOT_VERSION@,
{
    reveal_strlit("tracking_mode");
    reveal_strlit("last_run_normal");
    reveal_strlit("enc_daily_mode");
    reveal_strlit("heading");
    reveal_strlit("enc_snapshot_v");
    assert(NVS_KEY_TRACKING_MODE@.len() == 13);
    assert(NVS_KEY_LAST_RUN_NORMAL@.len() == 15);
    assert(NVS_KEY_ENCODER_DAILY_MODE@.len() == 14);
    assert(NVS_KEY_HEADING@.len() == 7);
    assert(NVS_KEY_ENC_SNAPSHOT_VERSION@.len() == 14);
}

/// No key is longer than the fifteen bytes that the flash layer allows.
pub proof fn keys_fit()
    ensures
        NVS_KEY_TRACKING_MODE@.len() <= 15,
        NVS_KEY_LAST_RUN_NORMAL@.len() <= 15,
        NVS_KEY_HEADING@.len() <= 15,
        NVS_KEY_ENC_SNAPSHOT_VERSION@.len() <= 15,
        NVS_KEY_ENC_TICKS_ADJ@.len() <= 15,
        NVS_KEY_ENCODER_MODE_RESET_DATE@.len() <= 15,
        NVS_KEY_ENCODER_DAILY_MODE@.len() <= 15,
{
    reveal_strlit("tracking_mode");
    reveal_strlit("last_run_normal");
    reveal_strlit("heading");
    reveal_strlit("enc_snapshot_v");
    reveal_strlit("enc_ticks_adj");
    reveal_strlit("enc_rst_date");
    reveal_strlit("enc_daily_mode");
}

/// A saved mode is loaded again, whatever the default, and nothing else changes.
pub proof fn mode_round_trip(image: NvsImage, mode: MotionMode, dm: MotionMode, dn: bool)
    ensures
        restored(image.written(saved_mode(mode)), dm, dn) == (Restored {
            mode,
            ..restored(image, dm, dn)
        }),
{
    keys_differ();
}

/// A saved run mode is loaded again, whatever the default, and nothing else changes.
pub proof fn last_run_round_trip(image: NvsImage, normal: bool, dm: MotionMode, dn: bool)
    ensures
        restored(image.written(saved_last_run_normal(normal)), dm, dn) == (Restored {
            last_run_normal: normal,
            ..restored(image, dm, dn)
        }),
{
    keys_differ();
}

/// A saved heading is loaded again to the bit, and nothing else changes.
pub proof fn heading_round_trip(image: NvsImage, heading: Single, dm: MotionMode, dn: bool)
    ensures
        restored(image.written(saved_heading(heading)), dm, dn) == (Restored {
            heading: Some(heading.bits),
            ..restored(image, dm, dn)
        }),
{
    keys_differ();
}

/// A saved encoder position is loaded again, and nothing else changes.
pub proof fn snapshot_round_trip(image: NvsImage, ticks: i32, dm: MotionMode, dn: bool)
    ensures
        restored(image.replayed(saved_snapshot(ticks)), dm, dn) == (Restored {
            snapshot: Some(ticks),
            ..restored(image, dm, dn)
        }),
{
    keys_differ();
    let j = saved_snapshot(ticks);
    replay_two(image, j);
}

/// Up to three writes appended to a journal are carried out in order, after what the
/// journal held before.
pub proof fn replay_appended(
    image: NvsImage,
    before: Seq<NvsWriteView>,
    after: Seq<NvsWriteView>,
)
    requires
        before.len() <= after.len() <= before.len() + 3,
        after =~= before + after.skip(before.len() as int),
    ensures
        ({
            let n = before.len() as int;
            let begun = image.replayed(before);
            &&& after.len() == n ==> image.replayed(after) == begun
            &&& after.len() == n + 1 ==> image.replayed(after) == begun.written(after[n])
            &&& after.len() == n + 2 ==> image.replayed(after) == begun.written(
                after[n],
            ).written(after[n + 1])
            &&& after.len() == n + 3 ==> image.replayed(after) == begun.written(
                after[n],
            ).written(after[n + 1]).written(after[n + 2])
        }),
    decreases after.len(),
{
    let n = before.len();
    if after.len() == n {
        assert(after =~= before);
    } else {
        let shorter = after.drop_last();
        assert(shorter =~= before + shorter.skip(n as int));
        replay_appended(image, before, shorter);
    }
}

proof fn replay_two(image: NvsImage, j: Seq<NvsWriteView>)
    requires
        j.len() == 2,
    ensures
        image.replayed(j) == image.written(j[0]).written(j[1]),
{
    reveal_with_fuel(NvsImage::replayed, 3);
    assert(j.drop_last()[0] == j[0]);
}

/// A saved reset date is loaded again, and nothing else changes.
pub proof fn reset_date_round_trip(image: NvsImage, date: Seq<char>, dm: MotionMode, dn: bool)
    ensures
        restored(image.written(saved_reset_date(date)), dm, dn) == (Restored {
            reset_date: Some(date),
            ..restored(image, dm, dn)
        }),
{
    keys_differ();
}

/// A saved daily flag is loaded again, and nothing else changes.
pub proof fn daily_mode_round_trip(image: NvsImage, daily: bool, dm: MotionMode, dn: bool)
    ensures
        restored(image.written(saved_daily_mode(daily)), dm, dn) == (Restored {
            daily_mode: daily,
            ..restored(image, dm, dn)
        }),
{
    keys_differ();
}

/// An encoder position saved by another version of the firmware is not used.
pub proof fn foreign_snapshot_is_ignored(version: Option<u32>, ticks: Option<i32>)
    requires
        version != Some(1u32),
    ensures
        snapshot_loaded(version, ticks) is None,
{
}

} // verus!
