//! What the rules around the tower may and may not do.

use vstd::prelude::*;

use crate::hardware::sensors::{is_sensor, lock_step, LockAttempt, LockStep};
use crate::ieee::Single;
use crate::logic::fsm::motion::position::MotionTopics;
use crate::logic::fsm::motion::tracking::DriverReport;
use crate::logic::tracking_loop::{settle_leads, SettledState, TrackingEvent};
use crate::logic::types::{Component, MotionMode, MoveOutcome, OutcomeView, Severity};
use crate::runtime::reset_reason::ResetReason;
use crate::runtime::temperature::{temperature_view, TempTier};
use crate::runtime::watchdog::{
    addition_leads, answered, esp_error_text, removal_leads, UserWatchdog,
};
use crate::storage::laws::{keys_differ, replay_appended};
use crate::storage::snapshot_store::{NvsImage, NVS_KEY_ENC_TICKS_ADJ, NVS_KEY_HEADING};

verus! {

/// The tiers meet at 100, 113, 122 and 140 degrees Fahrenheit: below the first the
/// system is normal, and each of the others belongs to the tier below it. What is not a
/// number is critical.
pub proof fn tiers_meet_at_their_limits(temp_f: Single)
    ensures
        ({
            let tier = TempTier::of(temp_f);
            let rank = temp_f.rank();
            &&& temp_f.nan() ==> tier is Critical
            &&& !temp_f.nan() ==> {
                &&& tier is Normal <==> rank < 0x42C8_0000
                &&& tier is Degrading <==> 0x42C8_0000 <= rank <= 0x42E2_0000
                &&& tier is Eg4Battery <==> 0x42E2_0000 < rank <= 0x42F4_0000
                &&& tier is BatterySolark <==> 0x42F4_0000 < rank <= 0x430C_0000
                &&& tier is Critical <==> rank > 0x430C_0000
            }
        }),
{
}

/// A reading is published as an error exactly from 100 degrees Fahrenheit on, with its
/// value and unit, and as a fault exactly above 113; below that it is information.
pub proof fn heat_is_an_error(temp_f: Single, temp: Seq<char>, humidity: Seq<char>)
    ensures
        ({
            let report = temperature_view(temp_f, temp, humidity);
            let hot = temp_f.nan() || temp_f.rank() >= 0x42C8_0000;
            let faulty = temp_f.nan() || temp_f.rank() > 0x42E2_0000;
            &&& report.is_error == hot
            &&& hot ==> report.value == Some(temp_f) && report.unit == Some("F"@)
            &&& !hot ==> report.value is None && report.unit is None
            &&& report.severity == Severity::Online <==> !hot
            &&& report.severity == Severity::Fault <==> faulty
            &&& report.component == Component::System
            &&& hot ==> report.status_notes == report.notes
            &&& hot ==> report.message == "Temp is too hot; "@ + temp + "F"@
            &&& !hot ==> report.message == "System temp "@ + temp + "F, humidity "@ + humidity
                + "%RH"@
            &&& !hot ==> report.status_notes == "Board temperature "@ + temp
                + "F within normal range"@
        }),
{
}

/// A driver's answer is a success exactly where it is zero, and a failure names the
/// operation.
pub proof fn only_zero_is_success(code: i32, operation: Seq<char>, r: Result<(), String>)
    requires
        answered(code, operation, r),
    ensures
        r is Ok <==> code == 0,
        r matches Err(message) ==> message@.len() >= operation.len() && message@.take(
            operation.len() as int,
        ) == operation,
{
    if r is Err {
        assert(r->Err_0@.take(operation.len() as int) =~= operation);
    }
}

/// A watchdog user is registered exactly where its name holds no null character and the
/// driver both added and reset it.
pub proof fn a_user_is_added_with_both_answers(
    name: Seq<char>,
    added: i32,
    reset: i32,
    r: Result<UserWatchdog, String>,
)
    requires
        addition_leads(name, added, reset, r),
    ensures
        r is Ok <==> added == 0 && reset == 0 && forall|i: int|
            0 <= i < name.len() ==> #[trigger] name[i] != '\0',
        r matches Ok(user) ==> user.registered && user.name@ == name,
{
}

/// A user that is registered stays so exactly where the driver could not remove it, and
/// one that is not asks nothing of the driver.
pub proof fn a_user_is_removed_once(
    registered: bool,
    code: i32,
    left: bool,
    r: Result<(), String>,
)
    requires
        removal_leads(registered, code, left, r),
    ensures
        left <==> registered && code != 0,
        r is Err <==> left,
        r matches Err(message) ==> message@ == esp_error_text(code, "esp_task_wdt_delete_user"@),
{
}

/// A restart was on purpose, or had a cause from outside, unless the firmware panicked,
/// stopped responding, lost its supply voltage, or nobody can tell.
pub proof fn unexpected_restarts_are_the_firmwares(reason: ResetReason)
    ensures
        reason.unexpected() <==> reason is Panic || reason is TaskWdt || reason is InterruptWdt
            || reason is OtherWdt || reason is Brownout || reason is Unknown,
        reason is Software || reason is PowerOn || reason is External || reason is DeepSleep
            || reason is Sdio <==> !reason.unexpected(),
{
}

/// Every cause of a restart has its own identifier.
pub proof fn causes_are_told_apart(a: ResetReason, b: ResetReason)
    requires
        a.id() == b.id(),
    ensures
        a == b,
{
    reveal_strlit("unknown");
    reveal_strlit("power_on");
    reveal_strlit("external");
    reveal_strlit("software");
    reveal_strlit("panic");
    reveal_strlit("interrupt_watchdog");
    reveal_strlit("task_watchdog");
    reveal_strlit("watchdog");
    reveal_strlit("deep_sleep");
    reveal_strlit("brownout");
    reveal_strlit("sdio");
    assert(a.id().len() == b.id().len() && a.id()[0] == b.id()[0]);
    assert("power_on"@[0] == 'p' && "external"@[0] == 'e' && "software"@[0] == 's');
    assert("watchdog"@[0] == 'w' && "brownout"@[0] == 'b');
    assert("unknown"@.len() == 7 && "panic"@.len() == 5 && "sdio"@.len() == 4);
    assert("interrupt_watchdog"@.len() == 18 && "task_watchdog"@.len() == 13);
    assert("deep_sleep"@.len() == 10 && "power_on"@.len() == 8 && "external"@.len() == 8);
    assert("software"@.len() == 8 && "watchdog"@.len() == 8 && "brownout"@.len() == 8);
}

/// A lock that was got is used, even one whose holder panicked; one that is held is
/// tried again exactly until the deadline.
pub proof fn a_held_lock_is_tried_until_the_deadline(
    attempt: LockAttempt,
    now: u64,
    deadline: u64,
)
    ensures
        lock_step(attempt, now, deadline) is Take <==> !(attempt is WouldBlock),
        lock_step(attempt, now, deadline) is GiveUp <==> attempt is WouldBlock && now >= deadline,
        lock_step(attempt, now, deadline) is Retry <==> attempt is WouldBlock && now < deadline,
        lock_step(attempt, now, deadline) matches LockStep::Retry { after_ms } ==> after_ms == 5,
{
}

/// The temperature sensor is the part that answers with its own id.
pub proof fn the_sensor_answers_with_its_id(device_id: Option<u16>)
    ensures
        is_sensor(device_id) <==> device_id == Some(0x1050u16),
{
}

/// Settling a pass believes and stores exactly a completed move, and publishes exactly
/// where none was made and positioning did not fail.
pub proof fn only_a_completed_move_is_settled(
    before: SettledState,
    done: Result<bool, String>,
    events: Seq<TrackingEvent>,
    report: DriverReport,
    persist: bool,
    device_id: Seq<char>,
    topics: MotionTopics,
    after: SettledState,
    r: Result<MoveOutcome, String>,
    image: NvsImage,
)
    requires
        settle_leads(
            before,
            done,
            events,
            report,
            persist,
            device_id,
            topics,
            after,
            r,
        ),
    ensures
        ({
            let completed = report.last_outcome matches Some(MoveOutcome::Completed);
            &&& after.heading == (if completed {
                report.location
            } else {
                before.heading
            })
            &&& completed && persist ==> image.replayed(after.writes).u32_at(NVS_KEY_HEADING@)
                == Some(report.location.bits)
            &&& completed && persist && report.mode == MotionMode::EncoderGuarded
                ==> image.replayed(after.writes).i32_at(NVS_KEY_ENC_TICKS_ADJ@) == Some(
                report.encoder_ticks,
            )
            &&& !completed || !persist ==> after.writes == before.writes
            &&& r is Err <==> report.last_outcome is None && done is Err
            &&& r is Err ==> r->Err_0 == done->Err_0
            &&& report.last_outcome matches Some(outcome) ==> r->Ok_0@ == outcome@ && after.queue
                == before.queue
            &&& report.last_outcome is None && done is Ok ==> r->Ok_0@ == OutcomeView::Completed
                && after.queue.len() == before.queue.len() + events.len()
            &&& r is Err ==> after.queue == before.queue
        }),
{
    replay_appended(image, before.writes, after.writes);
    keys_differ();
}

} // verus!
