//! What a check of the board may and may not say.

use vstd::prelude::*;

use crate::calendar::ClockReading;
use crate::diagnostics::answer::{Answer, AnswerView};
use crate::diagnostics::command::{CommandView, ParsedCommand};
use crate::diagnostics::configuration::{
    setting_value, staged_once, staged_value, staging_holds_the_latest_value, SecretPlaceholders,
    StagedView,
};
use crate::diagnostics::environment::{
    held_leads, marked_leads, told_leads, written_leads, CommitStep,
};
use crate::diagnostics::executor::{
    board_transcript_view, config_transcript_view, is_config, is_control, is_supported,
    mode_leads, route_leads, BoardOutcome, ConfigOutcome, FirstWaveRoute,
};
use crate::diagnostics::go_home::{
    begin_leads, finished_leads, searched_leads, HomingProgress, MotionContext, SearchLog,
};
use crate::diagnostics::probes::{
    bus_lines, bus_names, hdc1080_ask, hdc1080_lines, initialised_leads, led_answer, led_line,
    plan_leads, present_leads, rtc_answer, rtc_lines, scan_answer, scan_lines, BusProbe,
    Hdc1080Ask, Hdc1080Event, LedTest, OledNext, OledPattern, OledWalk, RtcReading,
};
use crate::diagnostics::transcript::TranscriptView;
use crate::logic::fsm::diagnostics::config::{GetEnvKey, SetEnvVerdict};
use crate::logic::fsm::motion::context::MotorCommand;
use crate::logic::types::MotionMode;
use crate::storage::laws::{keys_differ, replay_appended};
use crate::storage::snapshot_store::{NvsImage, NVS_KEY_ENC_TICKS_ADJ, NVS_KEY_HEADING};
use crate::text::{decimal_text, hex_text};

verus! {

/// A search for home begins exactly where there is a motor to search with.
pub proof fn a_search_takes_a_motor(
    motion_available: bool,
    lines: Seq<Seq<char>>,
    lines_after: Seq<Seq<char>>,
    r: Result<(), Answer>,
)
    requires
        begin_leads(motion_available, lines, lines_after, r),
    ensures
        r is Ok <==> motion_available,
        r matches Err(answer) ==> !answer.passed && lines_after == lines.push(
            "ERROR "@ + answer.message@,
        ),
        r is Ok ==> lines_after == lines.push("MOVING_HOME"@),
{
}

/// The tower believes to be at home exactly where the search found the switch, and the
/// motor is told exactly that; a failed search changes nothing.
pub proof fn only_a_found_home_is_believed(
    found: bool,
    before: MotionContext,
    lines: Seq<Seq<char>>,
    motor: Seq<MotorCommand>,
    after: MotionContext,
    lines_after: Seq<Seq<char>>,
    motor_after: Seq<MotorCommand>,
    r: Result<(), Answer>,
)
    requires
        searched_leads(found, before, lines, motor, after, lines_after, motor_after, r),
    ensures
        r is Ok <==> found,
        found ==> after.actual_heading == before.home_heading_deg && motor_after == motor.push(
            MotorCommand::UpdatePosition(before.home_heading_deg),
        ),
        !found ==> after == before && motor_after == motor,
        found ==> lines_after == lines,
        after.home_heading_deg == before.home_heading_deg,
        after.need_rehome_stepper_only == before.need_rehome_stepper_only,
        r matches Err(answer) ==> !answer.passed && lines_after.len() == lines.len() + 1,
{
}

/// A search that found home ends the pending one, and stores the heading exactly where it
/// is to be stored and storage can be had; where it cannot, the tower says so first.
pub proof fn a_found_home_is_stored(
    before: MotionContext,
    storage_available: bool,
    encoder_ticks: i32,
    heading: Seq<char>,
    log: SearchLog,
    after: MotionContext,
    log_after: SearchLog,
    r: AnswerView,
    image: NvsImage,
)
    requires
        finished_leads(
            before,
            storage_available,
            encoder_ticks,
            heading,
            log,
            after,
            log_after,
            r,
        ),
    ensures
        r.passed,
        !after.need_rehome_stepper_only,
        after.actual_heading == before.actual_heading,
        before.persist_nvs && storage_available ==> image.replayed(log_after.writes).u32_at(
            NVS_KEY_HEADING@,
        ) == Some(before.actual_heading.bits),
        before.persist_nvs && storage_available && before.motion_mode
            == MotionMode::EncoderGuarded ==> image.replayed(log_after.writes).i32_at(
            NVS_KEY_ENC_TICKS_ADJ@,
        ) == Some(encoder_ticks),
        !before.persist_nvs || !storage_available ==> log_after.writes == log.writes,
        log_after.lines.last() == "LIMIT"@,
        log_after.lines.len() == log.lines.len() + (if before.persist_nvs
            && !storage_available {
            2int
        } else {
            1int
        }),
{
    replay_appended(image, log.writes, log_after.writes);
    keys_differ();
}

/// A search reports progress exactly five seconds after it last did.
pub proof fn progress_is_reported_in_time(progress: HomingProgress, now: u64)
    ensures
        progress.due(now) <==> now - progress.last_report >= 5_000_000_000,
        progress.due(now) ==> progress.ticked(now).last_report == now,
        !progress.due(now) ==> progress.ticked(now) == progress,
{
}

/// A sensor's check ends with the first answer that is not as it should be, and else goes
/// on in order to the measurement; a serial number that cannot be read ends it only where
/// one is required.
pub proof fn a_sensor_check_goes_on_while_all_is_well(event: Hdc1080Event, serial_required: bool)
    ensures
        ({
            let r = hdc1080_ask(event, serial_required);
            let lines = hdc1080_lines(event, serial_required);
            &&& r is Detect <==> event == Hdc1080Event::Locked(true)
            &&& r is Configure <==> event == Hdc1080Event::Fitted(true) || (
            event matches Hdc1080Event::Opened(o) && o is Ok)
            &&& r is ReadDeviceId <==> (event matches Hdc1080Event::Configured(c) && c is Ok)
            &&& r is ReadManufacturerId <==> (event matches Hdc1080Event::DeviceId(Ok(id)) && id
                == 0x1050)
            &&& r is ReadSerialId <==> (event matches Hdc1080Event::ManufacturerId(Ok(id)) && id
                == 0x5449)
            &&& r is Measure <==> (event matches Hdc1080Event::SerialId(s) && (s is Ok
                || !serial_required))
            &&& (r matches Hdc1080Ask::Done(answer) && answer.passed) <==> (
            event matches Hdc1080Event::Measured(m) && m is Ok)
            &&& r matches Hdc1080Ask::Done(answer) ==> !answer.passed ==> lines.len() > 0
                && lines.last() == "ERROR "@ + answer.message
            &&& event matches Hdc1080Event::Measured(Ok(reading)) ==> (
            r matches Hdc1080Ask::Done(answer) && answer.details.len() == 2 && answer.details[0]
                == ("temp"@, reading.0@) && answer.details[1] == ("hum"@, reading.1@))
        }),
{
}

/// A device of the bus counts as found exactly where it answered, and as missing exactly
/// where it did not.
pub proof fn a_device_is_found_or_missing(probes: Seq<BusProbe>, probe: BusProbe)
    ensures
        bus_names(probes.push(probe), true) == (if probe.answered {
            bus_names(probes, true).push(probe.name@)
        } else {
            bus_names(probes, true)
        }),
        bus_names(probes.push(probe), false) == (if probe.answered {
            bus_names(probes, false)
        } else {
            bus_names(probes, false).push(probe.name@)
        }),
        bus_names(Seq::empty(), true).len() == 0,
        bus_names(Seq::empty(), false).len() == 0,
        bus_lines(probes.push(probe)).len() == probes.len() + 1,
        probe.answered ==> bus_lines(probes.push(probe)).last() == "I2C device 0x"@ + hex_text(
            probe.address as nat,
            2,
        ) + ": "@ + probe.name@,
        !probe.answered ==> bus_lines(probes.push(probe)).last() == "I2C no response 0x"@
            + hex_text(probe.address as nat, 2) + ": "@ + probe.name@,
{
    assert(probes.push(probe).drop_last() =~= probes);
}

/// A scan of the bus passes exactly where some device answered, and names the missing ones
/// exactly where there are any.
pub proof fn a_bus_is_alive_with_one_device(probes: Seq<BusProbe>)
    ensures
        scan_answer(probes).passed <==> exists|i: int|
            0 <= i < probes.len() && (#[trigger] probes[i]).answered,
        scan_answer(probes).passed ==> (scan_answer(probes).details.len() == 2 <==> exists|
            i: int,
        |
            0 <= i < probes.len() && !(#[trigger] probes[i]).answered),
        scan_answer(probes).passed ==> 1 <= scan_answer(probes).details.len() <= 2,
        scan_lines(probes).len() == probes.len() + (if scan_answer(probes).passed {
            0int
        } else {
            1int
        }),
        !scan_answer(probes).passed ==> scan_lines(probes).last() == "ERROR "@ + scan_answer(
            probes,
        ).message,
{
    some_name(probes, true);
    some_name(probes, false);
}

proof fn some_name(probes: Seq<BusProbe>, answered: bool)
    ensures
        bus_names(probes, answered).len() > 0 <==> exists|i: int|
            0 <= i < probes.len() && (#[trigger] probes[i]).answered == answered,
    decreases probes.len(),
{
    if probes.len() > 0 {
        let rest = probes.drop_last();
        some_name(rest, answered);
        assert(forall|i: int| 0 <= i < rest.len() ==> rest[i] == probes[i]);
        if probes.last().answered == answered {
            assert(probes[probes.len() - 1].answered == answered);
        } else if bus_names(rest, answered).len() > 0 {
            let i = choose|i: int| 0 <= i < rest.len() && rest[i].answered == answered;
            assert(probes[i].answered == answered);
        } else {
            assert forall|i: int| 0 <= i < probes.len() implies (#[trigger] probes[i]).answered
                != answered by {
                if i < rest.len() {
                    assert(rest[i].answered != answered);
                }
            }
        }
    }
}

/// A clock's check passes exactly with a plausible time, and only such a time goes on the
/// wire as one; the time read is reported wherever there is one.
pub proof fn only_a_plausible_time_is_reported(
    rtc: RtcReading,
    system_local: ClockReading,
    lines: Seq<Seq<char>>,
)
    ensures
        ({
            let r = rtc_answer(rtc, system_local);
            let after = rtc_lines(rtc, system_local, lines);
            let plausible = rtc matches RtcReading::Time { sane, .. } && sane;
            &&& r.passed <==> plausible
            &&& r.details.len() > 0 <==> rtc is Time
            &&& rtc matches RtcReading::Time { reading, .. } ==> r.details[0] == (
                "rtc_utc"@,
                reading.text(),
            )
            &&& rtc matches RtcReading::Time { reading, sane: true } ==> after == lines.push(
                "TIME: "@ + reading.text(),
            )
            &&& !plausible ==> after == lines.push("ERROR "@ + r.message)
        }),
{
}

/// A display is driven exactly where it answers and could be initialised.
pub proof fn a_display_is_driven_where_it_answers(
    present: bool,
    address: u8,
    result: Result<(), String>,
    lines: Seq<Seq<char>>,
    addressed: Seq<Seq<char>>,
    initialised: Seq<Seq<char>>,
    first: Result<(), Answer>,
    second: Result<(), Answer>,
)
    requires
        present_leads(present, address, lines, addressed, first),
        initialised_leads(result, lines, initialised, second),
    ensures
        first is Ok <==> present,
        second is Ok <==> result is Ok,
        first is Ok ==> addressed == lines,
        second is Ok ==> initialised == lines,
        first matches Err(answer) ==> !answer.passed && addressed == lines.push(
            "ERROR "@ + answer.message@,
        ),
        second matches Err(answer) ==> !answer.passed && initialised == lines.push(
            "ERROR "@ + answer.message@,
        ),
{
}

/// Without a name every pattern is walked, where a full walk is allowed; with one exactly
/// the pattern of that name, if there is such a pattern.
pub proof fn a_display_walk_is_the_one_asked_for(
    requested: Seq<char>,
    recognised: Option<OledPattern>,
    all: Seq<OledPattern>,
    allow_full_walk: bool,
    lines: Seq<Seq<char>>,
    lines_after: Seq<Seq<char>>,
    r: Result<OledWalk, Answer>,
)
    requires
        plan_leads(requested, recognised, all, allow_full_walk, lines, lines_after, r),
    ensures
        requested.len() == 0 ==> (r is Ok <==> allow_full_walk),
        requested.len() > 0 ==> (r is Ok <==> recognised is Some),
        r matches Ok(walk) ==> walk.drawn == 0 && lines_after == lines && (requested.len() == 0
            ==> walk.patterns@ == all) && (requested.len() > 0 ==> walk.patterns@.len() == 1
            && walk.patterns@[0] == recognised->0),
        r matches Err(answer) ==> !answer.passed && lines_after == lines.push(
            "ERROR "@ + answer.message@,
        ),
{
}

/// A walk draws its patterns one after another, each held for seven tenths of a second
/// before the next, and passes exactly where the last was drawn; a pattern that cannot be
/// drawn ends it.
pub proof fn a_display_walk_draws_pattern_by_pattern(
    walk: OledWalk,
    outcome: Result<(), String>,
    lines: Seq<Seq<char>>,
    after: OledWalk,
    lines_after: Seq<Seq<char>>,
    r: OledNext,
)
    requires
        walk.drawn < walk.patterns@.len(),
        walk.draw_leads(outcome, lines, after, lines_after, r),
    ensures
        r is Draw <==> outcome is Ok && walk.drawn + 1 < walk.patterns@.len(),
        r matches OledNext::Draw { hold_ms } ==> hold_ms == 700,
        (r matches OledNext::Done(answer) && answer.passed) <==> outcome is Ok && walk.drawn + 1
            == walk.patterns@.len(),
        outcome is Ok ==> after.drawn == walk.drawn + 1,
        outcome is Err ==> after.drawn == walk.drawn,
        lines_after.len() > lines.len(),
{
}

/// A walk begins with its first pattern at once, and is done where it has none.
pub proof fn a_display_walk_begins_at_once(
    walk: OledWalk,
    lines: Seq<Seq<char>>,
    lines_after: Seq<Seq<char>>,
    r: OledNext,
)
    requires
        walk.begin_leads(lines, lines_after, r),
    ensures
        r is Draw <==> walk.patterns@.len() > 0,
        r matches OledNext::Draw { hold_ms } ==> hold_ms == 0 && lines_after == lines,
        r matches OledNext::Done(answer) ==> answer.passed,
{
}

/// An LED test passes exactly where the runtime's colour was put back or the colour asked
/// for was written; a failure is an error on the wire.
pub proof fn a_led_test_passes_where_it_was_driven(color: Seq<char>, test: LedTest)
    ensures
        led_answer(color, test).passed <==> test is Restored || (test matches LedTest::Driven {
            outcome,
            ..
        } && outcome is Ok),
        !led_answer(color, test).passed ==> led_line(color, test) == "ERROR "@ + led_answer(
            color,
            test,
        ).message,
        test matches LedTest::Driven { red, green, blue, outcome: Ok(_) } ==> led_answer(
            color,
            test,
        ).details[1].1 == decimal_text(red as nat) + ","@ + decimal_text(green as nat) + ","@
            + decimal_text(blue as nat),
{
}

/// Of the commands, the seven on provisioned settings go to the configuration store where
/// storage can be lent, the ten on the board to the board, and the rest nowhere.
pub proof fn a_first_wave_command_goes_where_it_belongs(
    parsed: ParsedCommand,
    storage_lendable: bool,
    lines: Seq<Seq<char>>,
    lines_after: Seq<Seq<char>>,
    r: FirstWaveRoute,
)
    requires
        route_leads(parsed, storage_lendable, lines, lines_after, r),
    ensures
        ({
            let c = parsed.command@;
            let stored = c is ConfigMode || c is SetEnv || c is InvalidSetEnv || c is GetEnv
                || c is SaveConfig || c is GetConfig || c is WriteEnvFile;
            let board = c is Ping || c is I2cScan || c is LedTest || c is OledTest
                || c is FirmwareVersion || c is GetCapabilities || c is RtcCheck
                || c is Hdc1080Read || c is GoHome || c is Reboot;
            &&& r is Configuration <==> stored && storage_lendable
            &&& r is Board <==> board
            &&& r is Refused <==> !board && !(stored && storage_lendable)
            &&& !(r is Refused) ==> lines_after == lines
            &&& r matches FirstWaveRoute::Refused(t) ==> t@.status == "failed"@ && !t@
                .reboot_requested && lines_after == lines.push("ERROR "@ + t@.message)
        }),
{
}

/// A command takes the control slot exactly where it touches hardware, restarts the board
/// or writes settings; every such command is supported.
pub proof fn a_control_command_touches_something(command: CommandView)
    ensures
        is_control(command) <==> command is RtcCheck || command is Hdc1080Read
            || command is I2cScan || command is LedTest || command is OledTest
            || command is GoHome || command is Reboot || command is SaveConfig,
        is_control(command) ==> is_supported(command),
        is_config(command) ==> is_supported(command),
        is_supported(command) <==> !(command is MotorMove) && !(command is RelayMotor) && !(
        command is RelayHotspot) && !(command is Other),
{
}

/// A command that ran on the board completed exactly where it ended well, and asks for a
/// restart exactly where the board did; what it measured is reported either way.
pub proof fn a_board_transcript_tells_how_it_ended(
    parsed: ParsedCommand,
    outcome: BoardOutcome,
    details: Seq<(Seq<char>, Seq<char>)>,
)
    ensures
        ({
            let r = board_transcript_view(parsed, outcome, details);
            let well = outcome is Completed || outcome is RebootRequested;
            &&& well ==> r.status == "completed"@
            &&& !well ==> r.status == "failed"@
            &&& r.reboot_requested <==> outcome is RebootRequested
            &&& r.details == details
            &&& outcome matches BoardOutcome::Failed { message } ==> r.message == message@
        }),
{
}

/// A configuration command completed exactly where its outcome says so; it never asks for
/// a restart, and only a commit tells how much it committed.
pub proof fn a_config_transcript_tells_how_it_ended(
    parsed: ParsedCommand,
    outcome: ConfigOutcome,
    sections: nat,
    staged: nat,
)
    ensures
        ({
            let r = config_transcript_view(parsed, outcome, sections, staged);
            &&& outcome is Completed ==> r.status == "completed"@
            &&& !(outcome is Completed) ==> r.status == "failed"@ && r.details.len() == 0
            &&& !r.reboot_requested
            &&& outcome is Completed && parsed.command@ is SaveConfig ==> r.details.len() == 1
                && r.details[0] == ("committed"@, decimal_text(staged))
            &&& outcome is Completed && parsed.command@ is GetConfig ==> r.details.len() == 1
                && r.details[0] == ("sections"@, decimal_text(sections))
        }),
{
}

/// Storage that cannot be read fails `CONFIG_MODE`; storage that can passes it.
pub proof fn config_mode_passes_with_readable_storage(
    provisioned: Result<Option<u8>, String>,
    stored: Seq<Option<String>>,
    staged: nat,
    lines: Seq<Seq<char>>,
    lines_after: Seq<Seq<char>>,
    r: TranscriptView,
)
    requires
        mode_leads(provisioned, stored, staged, lines, lines_after, r),
    ensures
        provisioned is Ok ==> r.status == "completed"@,
        provisioned is Err ==> r.status == "failed"@ && lines_after == lines.push(
            "ERROR "@ + r.message,
        ),
        !r.reboot_requested,
        provisioned matches Ok(flag) ==> {
            &&& flag == Some(1u8) ==> r.details[0] == ("provisioned"@, "yes"@)
            &&& flag != Some(1u8) ==> r.details[0] == ("provisioned"@, "no"@)
        },
{
}

/// A value is held exactly where it is accepted, and for its own setting alone.
pub proof fn a_value_is_held_where_it_is_accepted(
    key: Seq<char>,
    value: Seq<char>,
    verdict: SetEnvVerdict,
    before: Seq<StagedView>,
    lines: Seq<Seq<char>>,
    after: Seq<StagedView>,
    lines_after: Seq<Seq<char>>,
    r: Result<(), String>,
    other: Seq<char>,
)
    requires
        staged_once(before),
        held_leads(key, value, verdict, before, lines, after, lines_after, r),
        verdict matches SetEnvVerdict::Accepted { key: entry } ==> other != entry.protocol@,
    ensures
        r is Ok <==> verdict is Accepted,
        r is Err ==> after == before && lines_after.len() == lines.len() + 1,
        r is Ok ==> lines_after == lines,
        verdict matches SetEnvVerdict::Accepted { key: entry } ==> staged_value(
            after,
            entry.protocol@,
        ) == Some(value) && staged_value(after, other) == staged_value(before, other),
{
    match verdict {
        SetEnvVerdict::Accepted { key: entry } => {
            staging_holds_the_latest_value(
                before,
                StagedView { protocol: entry.protocol@, nvs: entry.nvs@, value },
                other,
            );
        },
        _ => {},
    }
}

/// A known setting's value is told; an unknown one is an error, which goes on the wire.
pub proof fn a_known_value_is_told(
    key: Seq<char>,
    lookup: GetEnvKey,
    staged: Seq<StagedView>,
    placeholders: SecretPlaceholders,
    lines: Seq<Seq<char>>,
    lines_after: Seq<Seq<char>>,
    r: Result<String, String>,
)
    requires
        told_leads(key, lookup, staged, placeholders, lines, lines_after, r),
    ensures
        r is Ok <==> lookup is Known,
        lookup matches GetEnvKey::Known { setting } ==> r->Ok_0@ == setting_value(
            setting,
            staged,
            placeholders,
        ) && lines_after == lines,
        r is Err ==> lines_after.len() == lines.len() + 1,
{
}

/// A commit on the first-wave path goes on exactly while writes land, and forgets what is
/// staged exactly once the tower is marked provisioned.
pub proof fn a_first_wave_commit_ends_with_the_flag(
    staged: Seq<StagedView>,
    place: usize,
    landed: bool,
    write_failed: Seq<char>,
    lines: Seq<Seq<char>>,
    written_lines: Seq<Seq<char>>,
    step: CommitStep,
    marked: bool,
    after: Seq<StagedView>,
    marked_lines: Seq<Seq<char>>,
    r: bool,
)
    requires
        place < staged.len(),
        written_leads(staged, place, landed, write_failed, lines, written_lines, step),
        marked_leads(marked, staged, lines, after, marked_lines, r),
    ensures
        step is Failed <==> !landed,
        step is WriteValue <==> landed && place + 1 < staged.len(),
        step is MarkProvisioned <==> landed && place + 1 == staged.len(),
        step matches CommitStep::WriteValue(next) ==> next == place + 1,
        r <==> marked,
        marked ==> after.len() == 0,
        !marked ==> after == staged && marked_lines.len() == lines.len() + 1,
{
}

} // verus!
