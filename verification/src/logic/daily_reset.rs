//! Giving the encoder another chance when the day changes.

use vstd::prelude::*;

use crate::calendar::LocalDate;
use crate::logic::encoder_fault::{
    given_up_writes, probe_leads, quiet_tick, EncoderFaultRecovery, EncoderRecoverySwitches,
    ProbeStep, RecoveryState, TickStep, MAX_PROBE_FAILURES,
};
use crate::logic::fsm::motion::context::MotorCommand;
use crate::logic::types::{MotionMode, OutcomeView};
use crate::storage::laws::{
    daily_mode_round_trip, mode_round_trip, reset_date_round_trip, restored,
};
use crate::storage::snapshot_store::{
    flag_loaded, saved_daily_mode, saved_mode, saved_reset_date, writes, NvsImage, NvsWrite,
    NvsWriteView, SnapshotStore, NVS_KEY_ENCODER_DAILY_MODE, NVS_KEY_ENCODER_MODE_RESET_DATE,
};
use crate::text::same_text;

verus! {

/// Whether the encoder was given up on another day than `today`.
pub open spec fn reset_due(
    daily_mode: Option<u8>,
    stored_date: Option<Seq<char>>,
    today: LocalDate,
) -> bool {
    flag_loaded(daily_mode, false) && stored_date is Some && stored_date->0 != today.text()
}

/// The writes of a daily check.
pub open spec fn reset_writes(
    daily_mode: Option<u8>,
    stored_date: Option<Seq<char>>,
    today: LocalDate,
    persist: bool,
) -> Seq<NvsWriteView> {
    if !persist || !flag_loaded(daily_mode, false) {
        Seq::empty()
    } else if stored_date is None {
        seq![saved_reset_date(today.text())]
    } else if reset_due(daily_mode, stored_date, today) {
        seq![
            saved_mode(MotionMode::EncoderGuarded),
            saved_daily_mode(false),
            saved_reset_date(today.text()),
        ]
    } else {
        Seq::empty()
    }
}

pub open spec fn opt_str_view(value: Option<&str>) -> Option<Seq<char>> {
    match value {
        Some(s) => Some(s@),
        None => None,
    }
}

/// Reset the daily encoder mode at day rollover.
pub fn check_daily_encoder_reset(
    daily_mode: Option<u8>,
    stored_date: Option<&str>,
    today: &LocalDate,
    persist: bool,
    journal: &mut Vec<NvsWrite>,
) -> (r: bool)
    requires
        today.wf(),
    ensures
        r == reset_due(daily_mode, opt_str_view(stored_date), *today),
        writes(final(journal)@) == writes(old(journal)@) + reset_writes(
            daily_mode,
            opt_str_view(stored_date),
            *today,
            persist,
        ),
{
    let store = SnapshotStore::new(persist);
    let mut reset = false;
    if store.load_encoder_daily_mode(daily_mode) {
        let current_date = today.stamp();
        match stored_date {
            Some(stored) => {
                if !same_text(stored, current_date.as_str()) {
                    store.save_tracking_mode(MotionMode::EncoderGuarded, journal);
                    store.save_encoder_daily_mode(false, journal);
                    store.save_encoder_mode_reset_date(current_date.as_str(), journal);
                    reset = true;
                }
            },
            None => {
                store.save_encoder_mode_reset_date(current_date.as_str(), journal);
            },
        }
    }
    assert(writes(journal@) =~= writes(old(journal)@) + reset_writes(
        daily_mode,
        opt_str_view(stored_date),
        *today,
        persist,
    ));
    reset
}

proof fn replay_three(image: NvsImage, j: Seq<NvsWriteView>)
    requires
        j.len() == 3,
    ensures
        image.replayed(j) == image.written(j[0]).written(j[1]).written(j[2]),
{
    reveal_with_fuel(NvsImage::replayed, 4);
    assert(j.drop_last()[0] == j[0]);
    assert(j.drop_last()[1] == j[1]);
    assert(j.drop_last().drop_last()[0] == j[0]);
}

/// An encoder that was given up, with persistence on, stays given up for the rest
/// of that day and across restarts: the flash says so, and the daily check of the
/// same day neither resets nor writes anything.
pub proof fn given_up_lasts_for_the_day(image: NvsImage, day: LocalDate)
    ensures
        ({
            let after = image.replayed(given_up_writes(true, day));
            let daily = after.u8_at(NVS_KEY_ENCODER_DAILY_MODE@);
            let date = after.str_at(NVS_KEY_ENCODER_MODE_RESET_DATE@);
            &&& restored(after, MotionMode::EncoderGuarded, true).mode
                == MotionMode::StepperOnly
            &&& restored(after, MotionMode::EncoderGuarded, true).daily_mode
            &&& !reset_due(daily, date, day)
            &&& reset_writes(daily, date, day, true) == Seq::<NvsWriteView>::empty()
        }),
{
    given_up_image(image, day);
}

/// On any other day the daily check brings the encoder back: it reports a reset,
/// and the flash then holds the guarded mode and no daily flag.
pub proof fn given_up_ends_on_another_day(image: NvsImage, day: LocalDate, later: LocalDate)
    requires
        day.wf(),
        later.wf(),
        day != later,
    ensures
        ({
            let after = image.replayed(given_up_writes(true, day));
            let daily = after.u8_at(NVS_KEY_ENCODER_DAILY_MODE@);
            let date = after.str_at(NVS_KEY_ENCODER_MODE_RESET_DATE@);
            let reset = after.replayed(reset_writes(daily, date, later, true));
            &&& reset_due(daily, date, later)
            &&& restored(reset, MotionMode::StepperOnly, true).mode == MotionMode::EncoderGuarded
            &&& !restored(reset, MotionMode::StepperOnly, true).daily_mode
        }),
{
    given_up_image(image, day);
    if day.text() == later.text() {
        crate::calendar::stamps_tell_days_apart(day, later);
    }
    let after = image.replayed(given_up_writes(true, day));
    let daily = after.u8_at(NVS_KEY_ENCODER_DAILY_MODE@);
    let date = after.str_at(NVS_KEY_ENCODER_MODE_RESET_DATE@);
    let j = reset_writes(daily, date, later, true);
    replay_three(after, j);
    let m = MotionMode::StepperOnly;
    mode_round_trip(after, MotionMode::EncoderGuarded, m, true);
    let s1 = after.written(j[0]);
    daily_mode_round_trip(s1, false, m, true);
    reset_date_round_trip(s1.written(j[1]), later.text(), m, true);
}

proof fn given_up_image(image: NvsImage, day: LocalDate)
    ensures
        ({
            let after = image.replayed(given_up_writes(true, day));
            &&& after.u8_at(NVS_KEY_ENCODER_DAILY_MODE@) == Some(1u8)
            &&& after.str_at(NVS_KEY_ENCODER_MODE_RESET_DATE@) == Some(day.text())
            &&& restored(after, MotionMode::EncoderGuarded, true).mode
                == MotionMode::StepperOnly
            &&& restored(after, MotionMode::EncoderGuarded, true).daily_mode
        }),
{
    let j = given_up_writes(true, day);
    replay_three(image, j);
    let m = MotionMode::EncoderGuarded;
    mode_round_trip(image, MotionMode::StepperOnly, m, true);
    let s1 = image.written(j[0]);
    reset_date_round_trip(s1, day.text(), m, true);
    daily_mode_round_trip(s1.written(j[1]), true, m, true);
}

/// The state after a run of probes, started at the given instants.
pub open spec fn after_probes(
    s: EncoderFaultRecovery,
    cfg: EncoderRecoverySwitches,
    results: Seq<(bool, u64)>,
) -> EncoderFaultRecovery
    decreases results.len(),
{
    if results.len() == 0 {
        s
    } else {
        after_probes(s, cfg, results.drop_last()).after_probe_at(
            results.last().0,
            cfg,
            results.last().1,
        )
    }
}

/// From a fresh count, as many failures in a row as [`MAX_PROBE_FAILURES`] give the
/// encoder up, and fewer do not.
pub proof fn the_encoder_is_given_up_after_the_limit(
    s: EncoderFaultRecovery,
    cfg: EncoderRecoverySwitches,
    results: Seq<(bool, u64)>,
)
    requires
        s.engaged(),
        s.probe_failure_count == 0,
        0 < results.len() <= MAX_PROBE_FAILURES,
        forall|i: int| 0 <= i < results.len() ==> !(#[trigger] results[i]).0,
    ensures
        results.len() == MAX_PROBE_FAILURES <==> after_probes(
            s,
            cfg,
            results,
        ).mode_switched_daily,
        results.len() < MAX_PROBE_FAILURES ==> after_probes(s, cfg, results).engaged()
            && after_probes(s, cfg, results).probe_failure_count == results.len(),
    decreases results.len(),
{
    let rest = results.drop_last();
    assert(!results[results.len() - 1].0);
    if rest.len() > 0 {
        assert forall|i: int| 0 <= i < rest.len() implies !(#[trigger] rest[i]).0 by {
            assert(rest[i] == results[i]);
        }
        the_encoder_is_given_up_after_the_limit(s, cfg, rest);
    }
}

/// A recovery that nothing has started yet.
pub open spec fn at_rest(s: EncoderFaultRecovery) -> bool {
    !s.active && s.next_probe_at is None && s.probe_failure_count == 0 && !s.mode_switched_daily
}

/// A recovery pass at `now`, with a probe due that the encoder does not follow.
pub open spec fn fails_at(
    before: RecoveryState,
    cfg: EncoderRecoverySwitches,
    now: u64,
    today: LocalDate,
    asked: TickStep,
    after: RecoveryState,
    r: ProbeStep,
) -> bool {
    &&& before.recovery.probe_due(now)
    &&& before.recovery.tick_leads(cfg, now, asked)
    &&& probe_leads(before, false, cfg, now, true, today, after, r)
}

/// Three probes that fail in a row after a stall or an overshoot leave the tower
/// driving by steps alone for the day. The first two keep the fault and change neither
/// the mode nor what flash holds. The third ends the fault without anything to report
/// to the pass, changes the mode, and leaves flash with the mode, the daily flag and
/// the day.
pub proof fn three_failed_probes_give_the_encoder_up(
    begun: EncoderFaultRecovery,
    outcome: OutcomeView,
    ended: u64,
    cfg: EncoderRecoverySwitches,
    today: LocalDate,
    at: (u64, u64, u64),
    asked: (TickStep, TickStep, TickStep),
    r: (ProbeStep, ProbeStep, ProbeStep),
    s: (RecoveryState, RecoveryState, RecoveryState, RecoveryState),
    image: NvsImage,
)
    requires
        cfg.enabled,
        at_rest(begun),
        outcome is AbortedStall || outcome is AbortedOvershoot,
        s.0.recovery == begun.after_move(outcome, cfg, ended),
        fails_at(s.0, cfg, at.0, today, asked.0, s.1, r.0),
        fails_at(s.1, cfg, at.1, today, asked.1, s.2, r.1),
        fails_at(s.2, cfg, at.2, today, asked.2, s.3, r.2),
    ensures
        asked.0 == (TickStep::Probe { steps: cfg.probe_steps }),
        asked.1 == asked.0 && asked.2 == asked.0,
        r.0 matches ProbeStep::Waiting(result) && result@ == quiet_tick(true, false),
        r.1 matches ProbeStep::Waiting(result) && result@ == quiet_tick(true, false),
        !s.1.recovery.mode_switched_daily && !s.2.recovery.mode_switched_daily,
        s.2.motor == s.0.motor && s.2.writes == s.0.writes,
        r.2 matches ProbeStep::GivenUp { result, .. } && result@ == quiet_tick(false, false),
        s.3.recovery.mode_switched_daily && !s.3.recovery.engaged(),
        s.3.motor == s.0.motor.push(MotorCommand::SetMode(MotionMode::StepperOnly)),
        s.3.writes == s.0.writes + given_up_writes(true, today),
        ({
            let after = restored(
                image.replayed(given_up_writes(true, today)),
                MotionMode::EncoderGuarded,
                true,
            );
            &&& after.mode == MotionMode::StepperOnly
            &&& after.daily_mode
            &&& after.reset_date == Some(today.text())
        }),
{
    given_up_image(image, today);
}

/// One success forgets the failures before it and ends the fault.
pub proof fn a_successful_probe_starts_afresh(
    s: EncoderFaultRecovery,
    cfg: EncoderRecoverySwitches,
    now: u64,
)
    ensures
        s.after_probe_at(true, cfg, now).probe_failure_count == 0,
        !s.after_probe_at(true, cfg, now).engaged(),
        s.after_probe_at(true, cfg, now).mode_switched_daily == s.mode_switched_daily,
{
}

/// While the encoder is given up for the day, no move starts a recovery.
pub proof fn nothing_starts_while_given_up(
    s: EncoderFaultRecovery,
    outcome: OutcomeView,
    cfg: EncoderRecoverySwitches,
    now: u64,
)
    requires
        s.mode_switched_daily,
    ensures
        s.after_move(outcome, cfg, now) == s,
        !s.engaged(),
{
}

} // verus!
