//! The state that survives a restart.
//!
//! Loading takes what the flash holds under a key, `None` where the key is absent
//! or unreadable. Saving appends to a journal of writes that the caller carries
//! out in order.

use vstd::prelude::*;

use crate::ieee::Single;
use crate::logic::types::MotionMode;

verus! {

pub const NVS_KEY_TRACKING_MODE: &'static str = "tracking_mode";
pub const NVS_KEY_HEADING: &'static str = "heading";
pub const NVS_KEY_ENC_SNAPSHOT_VERSION: &'static str = "enc_snapshot_v";
pub const NVS_KEY_ENC_TICKS_ADJ: &'static str = "enc_ticks_adj";

// Tracks which run mode last wrote stateful values.
pub const NVS_KEY_LAST_RUN_NORMAL: &'static str = "last_run_normal";

// Key names are limited to fifteen bytes.
pub const NVS_KEY_ENCODER_MODE_RESET_DATE: &'static str = "enc_rst_date";
pub const NVS_KEY_ENCODER_DAILY_MODE: &'static str = "enc_daily_mode";

pub const ENC_SNAPSHOT_VERSION: u32 = 1;

/// One write to flash.
#[derive(Debug)]
#[allow(inconsistent_fields)]
pub enum NvsWrite {
    U8 { key: &'static str, value: u8 },
    U32 { key: &'static str, value: u32 },
    I32 { key: &'static str, value: i32 },
    Str { key: &'static str, value: String },
}

#[verifier::ext_equal]
#[allow(inconsistent_fields)]
pub enum NvsWriteView {
    U8 { key: Seq<char>, value: u8 },
    U32 { key: Seq<char>, value: u32 },
    I32 { key: Seq<char>, value: i32 },
    Str { key: Seq<char>, value: Seq<char> },
}

impl View for NvsWrite {
    type V = NvsWriteView;

    open spec fn view(&self) -> NvsWriteView {
        match self {
            NvsWrite::U8 { key, value } => NvsWriteView::U8 { key: key@, value: *value },
            NvsWrite::U32 { key, value } => NvsWriteView::U32 { key: key@, value: *value },
            NvsWrite::I32 { key, value } => NvsWriteView::I32 { key: key@, value: *value },
            NvsWrite::Str { key, value } => NvsWriteView::Str { key: key@, value: value@ },
        }
    }
}

/// The writes that a journal holds.
pub open spec fn writes(journal: Seq<NvsWrite>) -> Seq<NvsWriteView> {
    journal.map_values(|w: NvsWrite| w@)
}

/// Append one write to a journal.
pub fn push_write(journal: &mut Vec<NvsWrite>, write: NvsWrite)
    ensures
        writes(final(journal)@) == writes(old(journal)@).push(write@),
{
    journal.push(write);
    assert(writes(journal@) =~= writes(old(journal)@).push(write@));
}

/// What the flash holds, by type and key.
#[verifier::ext_equal]
pub struct NvsImage {
    pub u8s: Map<Seq<char>, u8>,
    pub u32s: Map<Seq<char>, u32>,
    pub i32s: Map<Seq<char>, i32>,
    pub strs: Map<Seq<char>, Seq<char>>,
}

impl NvsImage {
    pub open spec fn u8_at(self, key: Seq<char>) -> Option<u8> {
        if self.u8s.dom().contains(key) {
            Some(self.u8s[key])
        } else {
            None
        }
    }

    pub open spec fn u32_at(self, key: Seq<char>) -> Option<u32> {
        if self.u32s.dom().contains(key) {
            Some(self.u32s[key])
        } else {
            None
        }
    }

    pub open spec fn i32_at(self, key: Seq<char>) -> Option<i32> {
        if self.i32s.dom().contains(key) {
            Some(self.i32s[key])
        } else {
            None
        }
    }

    pub open spec fn str_at(self, key: Seq<char>) -> Option<Seq<char>> {
        if self.strs.dom().contains(key) {
            Some(self.strs[key])
        } else {
            None
        }
    }

    /// The contents after one write.
    pub open spec fn written(self, write: NvsWriteView) -> NvsImage {
        match write {
            NvsWriteView::U8 { key, value } => NvsImage {
                u8s: self.u8s.insert(key, value),
                ..self
            },
            NvsWriteView::U32 { key, value } => NvsImage {
                u32s: self.u32s.insert(key, value),
                ..self
            },
            NvsWriteView::I32 { key, value } => NvsImage {
                i32s: self.i32s.insert(key, value),
                ..self
            },
            NvsWriteView::Str { key, value } => NvsImage {
                strs: self.strs.insert(key, value),
                ..self
            },
        }
    }

    /// The contents after a run of writes.
    pub open spec fn replayed(self, journal: Seq<NvsWriteView>) -> NvsImage
        decreases journal.len(),
    {
        if journal.len() == 0 {
            self
        } else {
            self.replayed(journal.drop_last()).written(journal.last())
        }
    }
}

pub open spec fn mode_code(mode: MotionMode) -> u8 {
    match mode {
        MotionMode::StepperOnly => 1,
        MotionMode::EncoderGuarded => 2,
    }
}

pub open spec fn flag_code(flag: bool) -> u8 {
    if flag {
        1
    } else {
        0
    }
}

/// The mode that a stored code stands for, `default` where there is none.
pub open spec fn mode_loaded(stored: Option<u8>, default: MotionMode) -> MotionMode {
    if stored == Some(1u8) {
        MotionMode::StepperOnly
    } else if stored == Some(2u8) {
        MotionMode::EncoderGuarded
    } else {
        default
    }
}

/// The flag that a stored code stands for, `default` where there is none.
pub open spec fn flag_loaded(stored: Option<u8>, default: bool) -> bool {
    if stored == Some(1u8) {
        true
    } else if stored == Some(0u8) {
        false
    } else {
        default
    }
}

/// The heading that stored bits stand for, `default` where there are none.
pub open spec fn heading_loaded(stored: Option<u32>, default: Single) -> Single {
    match stored {
        Some(bits) => Single { bits },
        None => default,
    }
}

/// The encoder position of a snapshot of the version this firmware writes.
pub open spec fn snapshot_loaded(version: Option<u32>, ticks: Option<i32>) -> Option<i32> {
    if version == Some(ENC_SNAPSHOT_VERSION) {
        ticks
    } else {
        None
    }
}

pub open spec fn saved_mode(mode: MotionMode) -> NvsWriteView {
    NvsWriteView::U8 { key: NVS_KEY_TRACKING_MODE@, value: mode_code(mode) }
}

pub open spec fn saved_last_run_normal(normal: bool) -> NvsWriteView {
    NvsWriteView::U8 { key: NVS_KEY_LAST_RUN_NORMAL@, value: flag_code(normal) }
}

pub open spec fn saved_heading(heading: Single) -> NvsWriteView {
    NvsWriteView::U32 { key: NVS_KEY_HEADING@, value: heading.bits }
}

pub open spec fn saved_snapshot(ticks: i32) -> Seq<NvsWriteView> {
    seq![
        NvsWriteView::U32 { key: NVS_KEY_ENC_SNAPSHOT_VERSION@, value: ENC_SNAPSHOT_VERSION },
        NvsWriteView::I32 { key: NVS_KEY_ENC_TICKS_ADJ@, value: ticks },
    ]
}

pub open spec fn saved_reset_date(date: Seq<char>) -> NvsWriteView {
    NvsWriteView::Str { key: NVS_KEY_ENCODER_MODE_RESET_DATE@, value: date }
}

pub open spec fn saved_daily_mode(daily: bool) -> NvsWriteView {
    NvsWriteView::U8 { key: NVS_KEY_ENCODER_DAILY_MODE@, value: flag_code(daily) }
}

/// `write` if persistence is on, nothing otherwise.
pub open spec fn when_persistent(persist: bool, write: NvsWriteView) -> Seq<NvsWriteView> {
    if persist {
        seq![write]
    } else {
        Seq::empty()
    }
}

/// The encoder position if persistence is on, nothing otherwise.
pub open spec fn snapshot_when_persistent(persist: bool, ticks: i32) -> Seq<NvsWriteView> {
    if persist {
        saved_snapshot(ticks)
    } else {
        Seq::empty()
    }
}

/// The store of persistent state.
#[derive(Debug, Clone, Copy)]
pub struct SnapshotStore {
    pub persist_enabled: bool,
}

impl SnapshotStore {
    pub fn new(persist_enabled: bool) -> (r: Self)
        ensures
            r.persist_enabled == persist_enabled,
    {
        SnapshotStore { persist_enabled }
    }

    fn save(&self, journal: &mut Vec<NvsWrite>, write: NvsWrite)
        ensures
            writes(final(journal)@) == writes(old(journal)@) + when_persistent(
                self.persist_enabled,
                write@,
            ),
    {
        if self.persist_enabled {
            push_write(journal, write);
            assert(writes(journal@) =~= writes(old(journal)@) + seq![write@]);
        } else {
            assert(writes(journal@) =~= writes(old(journal)@) + Seq::empty());
        }
    }

    /// The stored tracking mode. A key never written is initialised with `default`.
    pub fn load_tracking_mode_or_init(
        &self,
        stored: Option<u8>,
        default: MotionMode,
        journal: &mut Vec<NvsWrite>,
    ) -> (r: MotionMode)
        ensures
            r == mode_loaded(stored, default),
            writes(final(journal)@) == writes(old(journal)@) + when_persistent(
                self.persist_enabled && stored is None,
                saved_mode(default),
            ),
    {
        match stored {
            Some(1) => {
                assert(writes(journal@) =~= writes(old(journal)@) + Seq::empty());
                MotionMode::StepperOnly
            },
            Some(2) => {
                assert(writes(journal@) =~= writes(old(journal)@) + Seq::empty());
                MotionMode::EncoderGuarded
            },
            Some(_) => {
                assert(writes(journal@) =~= writes(old(journal)@) + Seq::empty());
                default
            },
            None => {
                self.save_tracking_mode(default, journal);
                default
            },
        }
    }

    /// Whether the last run was a normal one. A key never written is initialised
    /// with `default`.
    pub fn load_last_run_normal_or_init(
        &self,
        stored: Option<u8>,
        default: bool,
        journal: &mut Vec<NvsWrite>,
    ) -> (r: bool)
        ensures
            r == flag_loaded(stored, default),
            writes(final(journal)@) == writes(old(journal)@) + when_persistent(
                self.persist_enabled && stored is None,
                saved_last_run_normal(default),
            ),
    {
        match stored {
            Some(1) => {
                assert(writes(journal@) =~= writes(old(journal)@) + Seq::empty());
                true
            },
            Some(0) => {
                assert(writes(journal@) =~= writes(old(journal)@) + Seq::empty());
                false
            },
            Some(_) => {
                assert(writes(journal@) =~= writes(old(journal)@) + Seq::empty());
                default
            },
            None => {
                self.save_last_run_normal(default, journal);
                default
            },
        }
    }

    pub fn save_last_run_normal(&self, normal: bool, journal: &mut Vec<NvsWrite>)
        ensures
            writes(final(journal)@) == writes(old(journal)@) + when_persistent(
                self.persist_enabled,
                saved_last_run_normal(normal),
            ),
    {
        let value: u8 = if normal {
            1
        } else {
            0
        };
        self.save(journal, NvsWrite::U8 { key: NVS_KEY_LAST_RUN_NORMAL, value });
    }

    /// The stored heading. A key never written is initialised with `default_heading`.
    pub fn load_heading_or_init(
        &self,
        stored: Option<u32>,
        default_heading: Single,
        journal: &mut Vec<NvsWrite>,
    ) -> (r: Single)
        ensures
            r == heading_loaded(stored, default_heading),
            writes(final(journal)@) == writes(old(journal)@) + when_persistent(
                self.persist_enabled && stored is None,
                saved_heading(default_heading),
            ),
    {
        match stored {
            Some(bits) => {
                assert(writes(journal@) =~= writes(old(journal)@) + Seq::empty());
                Single { bits }
            },
            None => {
                self.save_heading(default_heading, journal);
                default_heading
            },
        }
    }

    pub fn save_heading(&self, heading: Single, journal: &mut Vec<NvsWrite>)
        ensures
            writes(final(journal)@) == writes(old(journal)@) + when_persistent(
                self.persist_enabled,
                saved_heading(heading),
            ),
    {
        self.save(journal, NvsWrite::U32 { key: NVS_KEY_HEADING, value: heading.bits });
    }

    /// The encoder position saved last, if it was saved by this version.
    pub fn load_encoder_snapshot(&self, version: Option<u32>, ticks: Option<i32>) -> (r: Option<
        i32,
    >)
        ensures
            r == snapshot_loaded(version, ticks),
    {
        match version {
            Some(v) => {
                if v != ENC_SNAPSHOT_VERSION {
                    None
                } else {
                    ticks
                }
            },
            None => None,
        }
    }

    pub fn save_encoder_snapshot(&self, enc_ticks_adj: i32, journal: &mut Vec<NvsWrite>)
        ensures
            writes(final(journal)@) == writes(old(journal)@) + snapshot_when_persistent(
                self.persist_enabled,
                enc_ticks_adj,
            ),
    {
        self.save(
            journal,
            NvsWrite::U32 { key: NVS_KEY_ENC_SNAPSHOT_VERSION, value: ENC_SNAPSHOT_VERSION },
        );
        self.save(journal, NvsWrite::I32 { key: NVS_KEY_ENC_TICKS_ADJ, value: enc_ticks_adj });
        assert(writes(journal@) =~= writes(old(journal)@) + (if self.persist_enabled {
            saved_snapshot(enc_ticks_adj)
        } else {
            Seq::empty()
        }));
    }

    /// Save the date (`YYYY-MM-DD`) on which the encoder was given up for the day.
    pub fn save_encoder_mode_reset_date(&self, date: &str, journal: &mut Vec<NvsWrite>)
        ensures
            writes(final(journal)@) == writes(old(journal)@) + when_persistent(
                self.persist_enabled,
                saved_reset_date(date@),
            ),
    {
        self.save(
            journal,
            NvsWrite::Str { key: NVS_KEY_ENCODER_MODE_RESET_DATE, value: date.to_owned() },
        );
    }

    /// Whether the encoder was given up for the day.
    pub fn load_encoder_daily_mode(&self, stored: Option<u8>) -> (r: bool)
        ensures
            r == flag_loaded(stored, false),
    {
        match stored {
            Some(1) => true,
            _ => false,
        }
    }

    pub fn save_encoder_daily_mode(&self, daily_mode: bool, journal: &mut Vec<NvsWrite>)
        ensures
            writes(final(journal)@) == writes(old(journal)@) + when_persistent(
                self.persist_enabled,
                saved_daily_mode(daily_mode),
            ),
    {
        let value: u8 = if daily_mode {
            1
        } else {
            0
        };
        self.save(journal, NvsWrite::U8 { key: NVS_KEY_ENCODER_DAILY_MODE, value });
    }

    pub fn save_tracking_mode(&self, mode: MotionMode, journal: &mut Vec<NvsWrite>)
        ensures
            writes(final(journal)@) == writes(old(journal)@) + when_persistent(
                self.persist_enabled,
                saved_mode(mode),
            ),
    {
        let value: u8 = match mode {
            MotionMode::StepperOnly => 1,
            MotionMode::EncoderGuarded => 2,
        };
        self.save(journal, NvsWrite::U8 { key: NVS_KEY_TRACKING_MODE, value });
    }
}

} // verus!
