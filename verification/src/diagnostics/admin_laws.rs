//! What admin mode and its command channel may and may not do.

use vstd::prelude::*;
use vstd::utf8::{decode_utf8, valid_utf8};

use crate::config::switchboard::{AdminSwitches, BootHomingSwitches};
use crate::config_manager::{
    mode_names_stand_for_modes, ConfigManager, RuntimeMode, NVS_KEY_RUNTIME_MODE,
};
use crate::diagnostics::admin_mode::{
    admin_steps, bench_leads, connection_ok, encoder_ok, homing_leads, motor_ok,
    persistence_leads, persistence_ok, published_if, run_leads, step_if, verdict_text, AdminStep,
    CommandOutcome, IdleRun, JogCounts, PersistenceStep, Publication,
};
use crate::diagnostics::cmd_handler::{
    executed, received_leads, rehomed_leads, run_test_leads, test_ran_leads, Channel, Command,
    Handled, HomingReading, Received, TestPlace, TestStep,
};
use crate::logic::fsm::network::WifiState;
use crate::logic::types::{Direction, MotionMode, MoveOutcome};
use crate::std_text::lowercase_of;
use crate::storage::laws::{keys_differ, replay_appended};
use crate::storage::snapshot_store::{
    NvsImage, NvsWriteView, NVS_KEY_ENC_TICKS_ADJ, NVS_KEY_HEADING,
};

verus! {

/// Admin mode is entered exactly where it is enabled or the check is bypassed, and an
/// image without tests has no bypass.
pub proof fn admin_mode_is_entered_where_it_is_enabled(
    cfg: AdminSwitches,
    dir: Direction,
    bypass: bool,
    r: Result<Vec<AdminStep>, &'static str>,
    bench: Result<Vec<AdminStep>, &'static str>,
)
    requires
        run_leads(cfg, dir, bypass, r),
        bench_leads(cfg, dir, bench),
    ensures
        r is Ok <==> cfg.enabled || bypass,
        bench is Ok <==> cfg.enabled,
        r matches Ok(steps) ==> steps@.len() > 0 && steps@[0] == AdminStep::PublishVersion,
        bench matches Ok(steps) ==> steps@.len() > 0 && steps@[0] == AdminStep::PublishVersion,
{
}

proof fn one_more_step(steps: Seq<AdminStep>, wanted: bool, more: AdminStep, step: AdminStep)
    ensures
        (steps + step_if(wanted, more)).contains(step) <==> steps.contains(step) || (wanted
            && step == more),
{
    let all = steps + step_if(wanted, more);
    if steps.contains(step) {
        let i = choose|i: int| 0 <= i < steps.len() && steps[i] == step;
        assert(all[i] == step);
    }
    if wanted && step == more {
        assert(all[steps.len() as int] == step);
    }
    if all.contains(step) && !(wanted && step == more) {
        let i = choose|i: int| 0 <= i < all.len() && all[i] == step;
        assert(steps[i] == step);
    }
}

/// Every step of admin mode is done exactly where it is switched on, and admin mode stays
/// exactly where it is to stop after its tests.
pub proof fn a_step_is_done_where_it_is_switched_on(
    cfg: AdminSwitches,
    dir: Direction,
    step: AdminStep,
)
    ensures
        admin_steps(cfg, dir).contains(step) <==> match step {
            AdminStep::PublishVersion => true,
            AdminStep::Recovery => cfg.run_recovery_on_start,
            AdminStep::Homing { dir: to } => cfg.run_homing_on_start && to == dir,
            AdminStep::MotorTest => cfg.tests.motor_test,
            AdminStep::EncoderTest => cfg.tests.encoder_test,
            AdminStep::PersistenceTest => cfg.tests.persistence_test,
            AdminStep::WifiMqttTest => cfg.tests.wifi_mqtt_test,
            AdminStep::Idle => cfg.stop_after,
        },
        cfg.stop_after ==> admin_steps(cfg, dir).last() == AdminStep::Idle,
{
    let s = seq![AdminStep::PublishVersion];
    assert(s[0] == AdminStep::PublishVersion);
    assert(s.contains(AdminStep::PublishVersion));
    one_more_step(s, cfg.run_recovery_on_start, AdminStep::Recovery, step);
    let s = s + step_if(cfg.run_recovery_on_start, AdminStep::Recovery);
    one_more_step(s, cfg.run_homing_on_start, AdminStep::Homing { dir }, step);
    let s = s + step_if(cfg.run_homing_on_start, AdminStep::Homing { dir });
    one_more_step(s, cfg.tests.motor_test, AdminStep::MotorTest, step);
    let s = s + step_if(cfg.tests.motor_test, AdminStep::MotorTest);
    one_more_step(s, cfg.tests.encoder_test, AdminStep::EncoderTest, step);
    let s = s + step_if(cfg.tests.encoder_test, AdminStep::EncoderTest);
    one_more_step(s, cfg.tests.persistence_test, AdminStep::PersistenceTest, step);
    let s = s + step_if(cfg.tests.persistence_test, AdminStep::PersistenceTest);
    one_more_step(s, cfg.tests.wifi_mqtt_test, AdminStep::WifiMqttTest, step);
    let s = s + step_if(cfg.tests.wifi_mqtt_test, AdminStep::WifiMqttTest);
    one_more_step(s, cfg.stop_after, AdminStep::Idle, step);
}

/// Admin mode goes on exactly where home was found.
pub proof fn admin_mode_ends_without_home(
    found: bool,
    failure: Seq<char>,
    r: Option<&'static str>,
)
    requires
        homing_leads(found, failure, r),
    ensures
        r is None <==> found,
        r matches Some(message) ==> message@ == failure,
{
}

/// An idle tower looks for another command exactly after one that it processed, and after
/// ten in a row it sleeps first.
pub proof fn ten_commands_in_a_row(
    run: IdleRun,
    outcome: CommandOutcome,
    after: IdleRun,
    another: bool,
)
    requires
        run.processed < 10,
        run.note_leads(outcome, after, another),
    ensures
        another <==> outcome == CommandOutcome::Processed && run.processed < 9,
        outcome == CommandOutcome::Processed ==> after.processed == run.processed + 1,
        outcome != CommandOutcome::Processed ==> after == run,
{
}

/// The persistence test writes the next number and asks for it exactly where flash is
/// used; it passes exactly where that number comes back.
pub proof fn the_counter_goes_up_by_one(
    stored: Option<u32>,
    publish: bool,
    persist: bool,
    before: Seq<NvsWriteView>,
    after: Seq<NvsWriteView>,
    r: PersistenceStep,
    readback: Option<u32>,
)
    requires
        persistence_leads(stored, publish, persist, before, after, r),
    ensures
        r is ReadBack <==> persist,
        !persist ==> after == before,
        persist ==> after.len() == before.len() + 1,
        r matches PersistenceStep::ReadBack { prev, next } ==> {
            &&& next as int == (prev + 1) % 0x1_0000_0000
            &&& stored is Some ==> prev == stored->0
            &&& stored is None ==> prev == 0 && next == 1
            &&& after.last() matches NvsWriteView::U32 { value, .. } && value == next
            &&& readback is Some ==> (persistence_ok(next, readback) <==> readback->0 == next)
            &&& readback is None && next != 0 ==> !persistence_ok(next, readback)
        },
{
}

/// The connection test passes exactly with both the network and the broker; the motor test
/// exactly where both jogs completed; the encoder test exactly where besides the encoder
/// counted during one of them. A verdict names what it is.
pub proof fn a_bench_test_passes_with_all_it_tests(
    state: WifiState,
    mqtt_ok: bool,
    cw: MoveOutcome,
    ccw: MoveOutcome,
    counts: JogCounts,
)
    ensures
        connection_ok(state, mqtt_ok) <==> state == WifiState::Connected && mqtt_ok,
        motor_ok(cw, ccw) <==> cw@ is Completed && ccw@ is Completed,
        encoder_ok(counts, cw, ccw) <==> motor_ok(cw, ccw) && !(counts.start == counts.mid
            && counts.mid == counts.end),
        verdict_text(true) == "PASS"@,
        verdict_text(false) == "FAIL"@,
{
}

/// A message is published exactly where publishing is on, word for word and on its topic.
pub proof fn publishing_can_be_switched_off(
    enabled: bool,
    topic: Seq<char>,
    payload: Seq<char>,
)
    ensures
        published_if(enabled, topic, payload) is Some <==> enabled,
        published_if(enabled, topic, payload) matches Some(p) ==> p.topic == topic && p.payload
            == payload,
{
}

/// A message is taken exactly where it comes on the admin command topic; it is read as
/// text exactly where it is text.
pub proof fn an_admin_message_is_taken_on_its_topic(
    channel: Channel<'_>,
    topic: &str,
    payload: &[u8],
    r: Received,
)
    requires
        received_leads(channel, Some((topic, payload)), r),
    ensures
        ({
            let own = topic@ == channel.device_id@ + "/admin/cmd"@;
            &&& r is Nothing <==> !own
            &&& r is Text <==> own && valid_utf8(payload@)
            &&& r is NotText <==> own && !valid_utf8(payload@)
            &&& r matches Received::Text(text) ==> text@ == decode_utf8(payload@)
        }),
{
}

/// Of the admin commands only those that set, take back or change the mode touch what the
/// tower keeps: asking changes nothing, and neither does a command that fails.
pub proof fn asking_changes_nothing(
    channel: Channel<'_>,
    command: Command,
    before: ConfigManager,
    written: Seq<NvsWriteView>,
    after: ConfigManager,
    journal: Seq<NvsWriteView>,
    r: Handled,
)
    requires
        executed(channel, command, before, written, after, journal, r),
    ensures
        command is GetStatus || command is GetConfig || command is RunTest ==> after == before
            && journal == written,
        r is Failed ==> after == before && journal == written,
        r is RunTest <==> command is RunTest,
        r is ReportStatus <==> command is GetStatus,
        after.built_in == before.built_in,
        after.persist_nvs == before.persist_nvs,
        !before.persist_nvs ==> journal == written,
        command matches Command::RunTest { test } ==> r == Handled::RunTest(test),
{
}

/// The mode of the next runs is set exactly by a name that is a mode's in lower case, and
/// it is written exactly where flash is used; any other name fails.
pub proof fn only_a_modes_name_sets_the_mode(
    channel: Channel<'_>,
    mode: String,
    before: ConfigManager,
    written: Seq<NvsWriteView>,
    after: ConfigManager,
    journal: Seq<NvsWriteView>,
    r: Handled,
)
    requires
        executed(channel, Command::SetMode { mode }, before, written, after, journal, r),
    ensures
        ({
            let lower = lowercase_of(mode@);
            let known = lower == "admin"@ || lower == "normal"@;
            &&& r is Done <==> known
            &&& r is Failed <==> !known
            &&& known && before.persist_nvs ==> journal == written.push(
                NvsWriteView::Str { key: NVS_KEY_RUNTIME_MODE@, value: lower },
            )
            &&& after == before
        }),
{
    mode_names_stand_for_modes(RuntimeMode::Admin);
    mode_names_stand_for_modes(RuntimeMode::Normal);
}

/// Setting a value overrides that key and no other; taking the overrides back leaves every
/// key with the value that the image was built with.
pub proof fn a_value_is_set_for_its_key_alone(
    channel: Channel<'_>,
    command: Command,
    before: ConfigManager,
    written: Seq<NvsWriteView>,
    after: ConfigManager,
    journal: Seq<NvsWriteView>,
    r: Handled,
    other: Seq<char>,
)
    requires
        executed(channel, command, before, written, after, journal, r),
    ensures
        command matches Command::SetConfig { key, value } ==> {
            &&& after.value(key@) == Some(value@)
            &&& other != key@ ==> after.value(other) == before.value(other)
            &&& r is Done
        },
        command is ResetConfig ==> {
            &&& after.value(other) == before.built_in_value(other)
            &&& r is Done
        },
        (command is SetConfig || command is ResetConfig) && before.persist_nvs ==> journal.len()
            == written.len() + 1 && journal.drop_last() == written,
{
}

/// A test is begun exactly under a name that is a test's, and alone: nothing that the start
/// of admin mode does is done with it.
pub proof fn a_test_is_run_alone(
    channel: Channel<'_>,
    test: Seq<char>,
    admin: AdminSwitches,
    r: Result<(AdminSwitches, Option<Publication>), String>,
)
    requires
        run_test_leads(channel, test, admin, r),
    ensures
        r is Ok <==> test == "motor"@ || test == "encoder"@ || test == "persistence"@ || test
            == "nvs"@ || test == "wifi_mqtt"@ || test == "wifi"@,
        r matches Ok((cfg, started)) ==> {
            &&& cfg.tests.motor_test <==> test == "motor"@
            &&& cfg.tests.encoder_test <==> test == "encoder"@
            &&& cfg.tests.persistence_test <==> test == "persistence"@ || test == "nvs"@
            &&& cfg.tests.wifi_mqtt_test <==> test == "wifi_mqtt"@ || test == "wifi"@
            &&& !cfg.run_recovery_on_start
            &&& !cfg.run_homing_on_start
            &&& !cfg.stop_after
            &&& cfg.enabled == admin.enabled
            &&& started is Some <==> channel.publish
        },
{
}

/// A test is followed by a search for home exactly where it moved the motor and homing is
/// on, whether it failed or not; the search goes the way that is configured.
pub proof fn a_test_that_moved_homes(
    channel: Channel<'_>,
    test: Seq<char>,
    cfg: AdminSwitches,
    homing: BootHomingSwitches,
    failure: Option<Seq<char>>,
    r: TestStep,
)
    requires
        test_ran_leads(channel, test, cfg, homing, failure, r),
    ensures
        r is Rehome <==> (cfg.tests.motor_test || cfg.tests.encoder_test) && homing.enabled,
        r matches TestStep::Rehome { dir, .. } ==> dir == homing.dir,
        ({
            let text = match r {
                TestStep::Rehome { result, .. } => result@,
                TestStep::Finished { result, .. } => result@,
            };
            &&& failure is None ==> text == "Test '"@ + test
                + "' completed successfully. Check logs for PASS/FAIL details."@
            &&& failure matches Some(e) ==> text == "Test '"@ + test
                + "' execution failed: "@ + e
        }),
        r matches TestStep::Finished { completed, .. } ==> (completed is Some
            <==> channel.publish),
{
}

/// After a test the tower believes another heading exactly where home was found, and what
/// it writes down is that heading.
pub proof fn a_test_believes_only_a_home_it_found(
    channel: Channel<'_>,
    test: Seq<char>,
    result: Seq<char>,
    reading: HomingReading,
    persist: bool,
    before: TestPlace,
    after: TestPlace,
    r: TestStep,
    image: NvsImage,
)
    requires
        rehomed_leads(channel, test, result, reading, persist, before, after, r),
    ensures
        reading.found ==> after.heading == reading.location,
        !reading.found ==> after == before,
        !persist ==> after.writes == before.writes,
        reading.found && persist ==> image.replayed(after.writes).u32_at(NVS_KEY_HEADING@)
            == Some(reading.location.bits),
        reading.found && persist && reading.mode == MotionMode::EncoderGuarded
            ==> image.replayed(after.writes).i32_at(NVS_KEY_ENC_TICKS_ADJ@) == Some(
            reading.encoder_ticks,
        ),
        r is Finished,
{
    replay_appended(image, before.writes, after.writes);
    keys_differ();
}

} // verus!
