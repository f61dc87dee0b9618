//! Checks of the board's devices.
//!
//! Talking to a device is the caller's; what to ask it next, what to say about its
//! answers and whether the check passed is decided here.

use vstd::prelude::*;

use crate::calendar::ClockReading;
use crate::diagnostics::answer::{failed, passed, with_error, Answer, AnswerView};
use crate::diagnostics::transcript::{one_detail, push_detail, TranscriptIo};
use crate::std_text::{trim_of, trimmed, uppercase, uppercase_of};
use crate::text::{
    concat2, concat3, decimal, decimal_text, equals_ignoring_ascii_case, hex, hex_text, join,
    joined, same_ignoring_ascii_case, text_pairs, texts,
};

verus! {

/// Identity registers that the HDC1080 reports. A device that answers anything
/// else is not the sensor, and its measurements mean nothing.
pub const HDC1080_DEVICE_ID: u16 = 0x1050;
pub const HDC1080_MANUFACTURER_ID: u16 = 0x5449;

/// How long each pattern of a full display walk is held.
pub const OLED_PATTERN_HOLD_MS: u64 = 700;

/// What the temperature sensor answered.
#[derive(Debug)]
pub enum Hdc1080Event {
    /// Whether the sensor lock was obtained in time.
    Locked(bool),
    /// Whether a sensor was detected at boot.
    Fitted(bool),
    Opened(Result<(), String>),
    Configured(Result<(), String>),
    DeviceId(Result<u16, String>),
    ManufacturerId(Result<u16, String>),
    SerialId(Result<(u16, u16, u16), String>),
    /// Temperature and humidity, in decimal.
    Measured(Result<(String, String), String>),
}

/// What to ask the temperature sensor next.
#[derive(Debug)]
pub enum Hdc1080Step {
    Detect,
    Configure,
    ReadDeviceId,
    ReadManufacturerId,
    ReadSerialId,
    Measure,
    Done(Answer),
}

#[verifier::ext_equal]
pub enum Hdc1080Ask {
    Detect,
    Configure,
    ReadDeviceId,
    ReadManufacturerId,
    ReadSerialId,
    Measure,
    Done(AnswerView),
}

impl View for Hdc1080Step {
    type V = Hdc1080Ask;

    open spec fn view(&self) -> Hdc1080Ask {
        match self {
            Hdc1080Step::Detect => Hdc1080Ask::Detect,
            Hdc1080Step::Configure => Hdc1080Ask::Configure,
            Hdc1080Step::ReadDeviceId => Hdc1080Ask::ReadDeviceId,
            Hdc1080Step::ReadManufacturerId => Hdc1080Ask::ReadManufacturerId,
            Hdc1080Step::ReadSerialId => Hdc1080Ask::ReadSerialId,
            Hdc1080Step::Measure => Hdc1080Ask::Measure,
            Hdc1080Step::Done(answer) => Hdc1080Ask::Done(answer@),
        }
    }
}

/// `0x` and four hexadecimal digits.
pub open spec fn register_text(value: u16) -> Seq<char> {
    "0x"@ + hex_text(value as nat, 4)
}

fn register(value: u16) -> (r: String)
    ensures
        r@ == register_text(value),
{
    let digits = hex(value as u64, 4);
    concat2("0x", digits.as_str())
}

pub open spec fn serial_text(serial: (u16, u16, u16)) -> Seq<char> {
    hex_text(serial.0 as nat, 4) + "-"@ + hex_text(serial.1 as nat, 4) + "-"@ + hex_text(
        serial.2 as nat,
        4,
    )
}

/// Why an answer of the sensor fails the check, if it does.
pub open spec fn hdc1080_failure(event: Hdc1080Event, serial_required: bool) -> Option<Seq<char>> {
    match event {
        Hdc1080Event::Locked(false) => Some(
            "HDC1080_READ: the sensor is in use elsewhere and did not free up in time"@,
        ),
        Hdc1080Event::Fitted(false) => Some("HDC1080_READ: no HDC1080 was detected at boot"@),
        Hdc1080Event::Opened(Err(e)) => Some("HDC1080 init failed: "@ + e@),
        Hdc1080Event::Configured(Err(e)) => Some("HDC1080 init failed: "@ + e@),
        Hdc1080Event::DeviceId(Err(e)) => Some("HDC1080 get_device_id failed: "@ + e@),
        Hdc1080Event::DeviceId(Ok(id)) => if id == HDC1080_DEVICE_ID {
            None
        } else {
            Some(
                "HDC1080 wrong device_id: read "@ + register_text(id) + ", expected "@
                    + register_text(HDC1080_DEVICE_ID),
            )
        },
        Hdc1080Event::ManufacturerId(Err(e)) => Some("HDC1080 get_manufacturer_id failed: "@ + e@),
        Hdc1080Event::ManufacturerId(Ok(id)) => if id == HDC1080_MANUFACTURER_ID {
            None
        } else {
            Some(
                "HDC1080 wrong manufacturer_id: read "@ + register_text(id) + ", expected "@
                    + register_text(HDC1080_MANUFACTURER_ID),
            )
        },
        Hdc1080Event::SerialId(Err(e)) => if serial_required {
            Some("HDC1080 get_serial_id failed: "@ + e@)
        } else {
            None
        },
        Hdc1080Event::Measured(Err(e)) => Some("HDC1080 read failed: "@ + e@),
        _ => None,
    }
}

/// What an answer of the sensor is reported as, before any failure.
pub open spec fn hdc1080_report(event: Hdc1080Event) -> Seq<Seq<char>> {
    match event {
        Hdc1080Event::DeviceId(Ok(id)) => seq!["HDC1080 device_id: "@ + register_text(id)],
        Hdc1080Event::ManufacturerId(Ok(id)) => seq![
            "HDC1080 manufacturer_id: "@ + register_text(id),
        ],
        Hdc1080Event::SerialId(Ok(serial)) => seq!["HDC1080 serial_id: "@ + serial_text(serial)],
        Hdc1080Event::Measured(Ok(reading)) => seq![
            "HDC1080 Correct read: temp:"@ + reading.0@ + " hum:"@ + reading.1@,
        ],
        _ => Seq::empty(),
    }
}

/// What an answer of the sensor leads to.
pub open spec fn hdc1080_ask(event: Hdc1080Event, serial_required: bool) -> Hdc1080Ask {
    if hdc1080_failure(event, serial_required) is Some {
        Hdc1080Ask::Done(failed(hdc1080_failure(event, serial_required)->0))
    } else {
        match event {
            Hdc1080Event::Locked(_) => Hdc1080Ask::Detect,
            Hdc1080Event::Fitted(_) => Hdc1080Ask::Configure,
            Hdc1080Event::Opened(_) => Hdc1080Ask::Configure,
            Hdc1080Event::Configured(_) => Hdc1080Ask::ReadDeviceId,
            Hdc1080Event::DeviceId(_) => Hdc1080Ask::ReadManufacturerId,
            Hdc1080Event::ManufacturerId(_) => Hdc1080Ask::ReadSerialId,
            Hdc1080Event::SerialId(_) => Hdc1080Ask::Measure,
            Hdc1080Event::Measured(reading) => Hdc1080Ask::Done(
                passed(seq![("temp"@, reading->Ok_0.0@), ("hum"@, reading->Ok_0.1@)], ""@),
            ),
        }
    }
}

/// The lines that an answer of the sensor writes.
pub open spec fn hdc1080_lines(event: Hdc1080Event, serial_required: bool) -> Seq<Seq<char>> {
    match hdc1080_failure(event, serial_required) {
        Some(message) => with_error(hdc1080_report(event), message),
        None => hdc1080_report(event),
    }
}

fn hdc1080_fail(what: &str, reason: &str, io: &mut TranscriptIo) -> (r: Hdc1080Step)
    ensures
        r@ == Hdc1080Ask::Done(failed(what@ + reason@)),
        final(io)@ == with_error(old(io)@, what@ + reason@),
{
    Hdc1080Step::Done(Answer::fail_aloud(concat2(what, reason), io))
}

fn wrong_id(what: &str, read: u16, expected: u16, io: &mut TranscriptIo) -> (r: Hdc1080Step)
    ensures
        r@ == Hdc1080Ask::Done(
            failed(what@ + register_text(read) + ", expected "@ + register_text(expected)),
        ),
        final(io)@ == with_error(
            old(io)@,
            what@ + register_text(read) + ", expected "@ + register_text(expected),
        ),
{
    let read_text = register(read);
    let expected_text = register(expected);
    let head = concat3(what, read_text.as_str(), ", expected ");
    Hdc1080Step::Done(Answer::fail_aloud(concat2(head.as_str(), expected_text.as_str()), io))
}

fn report(what: &str, value: &str, io: &mut TranscriptIo)
    ensures
        final(io)@ == old(io)@.push(what@ + value@),
{
    let line = concat2(what, value);
    io.write_line(line.as_str());
}

/// Take an answer of the temperature sensor: report it, and say what to ask next.
///
/// The sensor's identity is proved before it is asked to measure. A sensor whose
/// serial number cannot be read fails the check only if `serial_required`.
pub fn hdc1080_read(event: &Hdc1080Event, serial_required: bool, io: &mut TranscriptIo) -> (r:
    Hdc1080Step)
    ensures
        r@ == hdc1080_ask(*event, serial_required),
        final(io)@ == old(io)@ + hdc1080_lines(*event, serial_required),
{
    let ghost before = io@;
    let step = match event {
        Hdc1080Event::Locked(true) => Hdc1080Step::Detect,
        Hdc1080Event::Locked(false) => Hdc1080Step::Done(
            Answer::fail_aloud(
                "HDC1080_READ: the sensor is in use elsewhere and did not free up in time".to_owned(),
                io,
            ),
        ),
        Hdc1080Event::Fitted(true) => Hdc1080Step::Configure,
        Hdc1080Event::Fitted(false) => Hdc1080Step::Done(
            Answer::fail_aloud("HDC1080_READ: no HDC1080 was detected at boot".to_owned(), io),
        ),
        Hdc1080Event::Opened(Ok(_)) => Hdc1080Step::Configure,
        Hdc1080Event::Opened(Err(e)) => hdc1080_fail("HDC1080 init failed: ", e.as_str(), io),
        Hdc1080Event::Configured(Ok(_)) => Hdc1080Step::ReadDeviceId,
        Hdc1080Event::Configured(Err(e)) => hdc1080_fail("HDC1080 init failed: ", e.as_str(), io),
        Hdc1080Event::DeviceId(Err(e)) => hdc1080_fail(
            "HDC1080 get_device_id failed: ",
            e.as_str(),
            io,
        ),
        Hdc1080Event::DeviceId(Ok(id)) => {
            let value = register(*id);
            report("HDC1080 device_id: ", value.as_str(), io);
            if *id != HDC1080_DEVICE_ID {
                wrong_id("HDC1080 wrong device_id: read ", *id, HDC1080_DEVICE_ID, io)
            } else {
                Hdc1080Step::ReadManufacturerId
            }
        },
        Hdc1080Event::ManufacturerId(Err(e)) => hdc1080_fail(
            "HDC1080 get_manufacturer_id failed: ",
            e.as_str(),
            io,
        ),
        Hdc1080Event::ManufacturerId(Ok(id)) => {
            let value = register(*id);
            report("HDC1080 manufacturer_id: ", value.as_str(), io);
            if *id != HDC1080_MANUFACTURER_ID {
                wrong_id(
                    "HDC1080 wrong manufacturer_id: read ",
                    *id,
                    HDC1080_MANUFACTURER_ID,
                    io,
                )
            } else {
                Hdc1080Step::ReadSerialId
            }
        },
        Hdc1080Event::SerialId(Ok(serial)) => {
            let a = hex(serial.0 as u64, 4);
            let b = hex(serial.1 as u64, 4);
            let c = hex(serial.2 as u64, 4);
            let ab = concat3(a.as_str(), "-", b.as_str());
            let abc = concat3(ab.as_str(), "-", c.as_str());
            report("HDC1080 serial_id: ", abc.as_str(), io);
            Hdc1080Step::Measure
        },
        Hdc1080Event::SerialId(Err(e)) => {
            if serial_required {
                hdc1080_fail("HDC1080 get_serial_id failed: ", e.as_str(), io)
            } else {
                Hdc1080Step::Measure
            }
        },
        Hdc1080Event::Measured(Err(e)) => hdc1080_fail("HDC1080 read failed: ", e.as_str(), io),
        Hdc1080Event::Measured(Ok(reading)) => {
            let head = concat3("HDC1080 Correct read: temp:", reading.0.as_str(), " hum:");
            report(head.as_str(), reading.1.as_str(), io);
            let mut details = one_detail("temp", reading.0.as_str().to_owned());
            push_detail(&mut details, "hum", reading.1.as_str().to_owned());
            assert(text_pairs(details@) =~= seq![
                ("temp"@, reading.0@),
                ("hum"@, reading.1@),
            ]);
            Hdc1080Step::Done(Answer::pass(details, ""))
        },
    };
    assert(io@ =~= before + hdc1080_lines(*event, serial_required));
    step
}

/// Whether an answer is one to the question asked.
pub open spec fn hdc1080_answers(ask: Hdc1080Ask, event: Hdc1080Event) -> bool {
    match ask {
        Hdc1080Ask::Detect => event is Fitted,
        Hdc1080Ask::Configure => event is Configured,
        Hdc1080Ask::ReadDeviceId => event is DeviceId,
        Hdc1080Ask::ReadManufacturerId => event is ManufacturerId,
        Hdc1080Ask::ReadSerialId => event is SerialId,
        Hdc1080Ask::Measure => event is Measured,
        Hdc1080Ask::Done(_) => false,
    }
}

/// A run of the check: it begins with the lock or with opening the device, and
/// every further answer is one to what the answer before it asked for.
pub open spec fn hdc1080_run(events: Seq<Hdc1080Event>, serial_required: bool) -> bool {
    &&& events.len() > 0
    &&& events[0] is Locked || events[0] is Opened
    &&& forall|i: int|
        0 < i < events.len() ==> hdc1080_answers(
            hdc1080_ask(events[i - 1], serial_required),
            #[trigger] events[i],
        )
}

/// A check that passes has read both identity registers and found the HDC1080's
/// values in them: a reading of anything else is never reported as one.
pub proof fn only_an_identified_sensor_passes(events: Seq<Hdc1080Event>, serial_required: bool)
    requires
        hdc1080_run(events, serial_required),
        hdc1080_ask(events.last(), serial_required) matches Hdc1080Ask::Done(a) && a.passed,
    ensures
        exists|i: int|
            0 <= i < events.len() && #[trigger] events[i] == Hdc1080Event::DeviceId(
                Ok(HDC1080_DEVICE_ID),
            ),
        exists|i: int|
            0 <= i < events.len() && #[trigger] events[i] == Hdc1080Event::ManufacturerId(
                Ok(HDC1080_MANUFACTURER_ID),
            ),
{
    let n = events.len() as int;
    assert(events[n - 1] is Measured);
    assert(hdc1080_answers(hdc1080_ask(events[n - 2], serial_required), events[n - 1]));
    assert(events[n - 2] is SerialId);
    assert(hdc1080_answers(hdc1080_ask(events[n - 3], serial_required), events[n - 2]));
    assert(events[n - 3] is ManufacturerId);
    assert(events[n - 3] == Hdc1080Event::ManufacturerId(Ok(HDC1080_MANUFACTURER_ID)));
    assert(hdc1080_answers(hdc1080_ask(events[n - 4], serial_required), events[n - 3]));
    assert(events[n - 4] == Hdc1080Event::DeviceId(Ok(HDC1080_DEVICE_ID)));
}

/// A device expected on the shared bus, and whether it acknowledged its address.
#[derive(Debug)]
pub struct BusProbe {
    pub address: u8,
    pub name: String,
    pub answered: bool,
}

/// The devices this board carries.
pub fn expected_i2c_devices() -> (r: Vec<(u8, String)>)
    ensures
        r@.len() == 3,
        r@[0].0 == 0x3C && r@[0].1@ == "SSD1306 OLED"@,
        r@[1].0 == 0x40 && r@[1].1@ == "HDC1080"@,
        r@[2].0 == 0x68 && r@[2].1@ == "DS3231"@,
{
    let mut r: Vec<(u8, String)> = Vec::new();
    r.push((0x3C, "SSD1306 OLED".to_owned()));
    r.push((0x40, "HDC1080".to_owned()));
    r.push((0x68, "DS3231".to_owned()));
    r
}

pub open spec fn bus_line(probe: BusProbe) -> Seq<char> {
    (if probe.answered {
        "I2C device 0x"@
    } else {
        "I2C no response 0x"@
    }) + hex_text(probe.address as nat, 2) + ": "@ + probe.name@
}

pub open spec fn bus_lines(probes: Seq<BusProbe>) -> Seq<Seq<char>> {
    probes.map_values(|p: BusProbe| bus_line(p))
}

/// The names of the devices that answered, or of those that did not, in order.
pub open spec fn bus_names(probes: Seq<BusProbe>, answered: bool) -> Seq<Seq<char>>
    decreases probes.len(),
{
    if probes.len() == 0 {
        Seq::empty()
    } else if probes.last().answered == answered {
        bus_names(probes.drop_last(), answered).push(probes.last().name@)
    } else {
        bus_names(probes.drop_last(), answered)
    }
}

/// The verdict of a bus scan: a pass if any device answered.
pub open spec fn scan_answer(probes: Seq<BusProbe>) -> AnswerView {
    if bus_names(probes, true).len() == 0 {
        failed("I2C_SCAN: no device answered, the bus itself is not responding"@)
    } else if bus_names(probes, false).len() == 0 {
        passed(seq![("found"@, joined(bus_names(probes, true), ","@))], ""@)
    } else {
        passed(
            seq![
                ("found"@, joined(bus_names(probes, true), ","@)),
                ("missing"@, joined(bus_names(probes, false), ","@)),
            ],
            ""@,
        )
    }
}

/// The lines of a bus scan.
pub open spec fn scan_lines(probes: Seq<BusProbe>) -> Seq<Seq<char>> {
    if scan_answer(probes).passed {
        bus_lines(probes)
    } else {
        with_error(bus_lines(probes), scan_answer(probes).message)
    }
}

/// Report which devices answered on the shared bus.
///
/// Devices that answered prove the bus alive, so a missing one is a detail and not
/// a failure.
pub fn i2c_scan(probes: &Vec<BusProbe>, io: &mut TranscriptIo) -> (r: Answer)
    ensures
        r@ == scan_answer(probes@),
        final(io)@ == old(io)@ + scan_lines(probes@),
{
    let ghost before = io@;
    let mut found: Vec<String> = Vec::new();
    let mut missing: Vec<String> = Vec::new();
    let mut i: usize = 0;
    assert(io@ =~= before + bus_lines(probes@.take(0)));
    assert(texts(found@) =~= bus_names(probes@.take(0), true));
    assert(texts(missing@) =~= bus_names(probes@.take(0), false));
    while i < probes.len()
        invariant
            0 <= i <= probes.len(),
            io@ == before + bus_lines(probes@.take(i as int)),
            texts(found@) == bus_names(probes@.take(i as int), true),
            texts(missing@) == bus_names(probes@.take(i as int), false),
        decreases probes.len() - i,
    {
        let probe = &probes[i];
        let address = hex(probe.address as u64, 2);
        let head = if probe.answered {
            "I2C device 0x"
        } else {
            "I2C no response 0x"
        };
        let prefix = concat3(head, address.as_str(), ": ");
        let ghost lines_before = io@;
        let ghost found_before = texts(found@);
        let ghost missing_before = texts(missing@);
        report(prefix.as_str(), probe.name.as_str(), io);
        if probe.answered {
            found.push(probe.name.as_str().to_owned());
        } else {
            missing.push(probe.name.as_str().to_owned());
        }
        proof {
            let t = probes@.take(i + 1);
            assert(t.drop_last() =~= probes@.take(i as int));
            assert(t.last() == probes@[i as int]);
            assert(bus_lines(t) =~= bus_lines(probes@.take(i as int)).push(
                bus_line(probes@[i as int]),
            ));
            assert(io@ =~= before + bus_lines(t));
            if probe.answered {
                assert(texts(found@) =~= found_before.push(probe.name@));
            } else {
                assert(texts(missing@) =~= missing_before.push(probe.name@));
            }
        }
        i = i + 1;
    }
    assert(probes@.take(probes.len() as int) =~= probes@);
    if found.len() == 0 {
        assert(bus_names(probes@, true).len() == 0);
        let r = Answer::fail_aloud(
            "I2C_SCAN: no device answered, the bus itself is not responding".to_owned(),
            io,
        );
        assert(io@ =~= before + scan_lines(probes@));
        return r;
    }
    assert(bus_names(probes@, true).len() > 0);
    let mut details = one_detail("found", join(&found, ","));
    if missing.len() > 0 {
        push_detail(&mut details, "missing", join(&missing, ","));
        assert(text_pairs(details@) =~= scan_answer(probes@).details);
    } else {
        assert(text_pairs(details@) =~= scan_answer(probes@).details);
    }
    Answer::pass(details, "")
}

/// What became of reading the real-time clock.
#[derive(Debug, Clone, Copy)]
pub enum RtcReading {
    /// The clock did not become free in time.
    Busy,
    /// The clock gave no time.
    NoTime,
    /// The clock gave a time, which is plausible or not.
    Time { reading: ClockReading, sane: bool },
}

impl RtcReading {
    pub open spec fn wf(self) -> bool {
        match self {
            RtcReading::Time { reading, .. } => reading.wf(),
            _ => true,
        }
    }
}

pub open spec fn implausible_text(reading: ClockReading) -> Seq<char> {
    "RTC_CHECK failed: DS3231 reads "@ + reading.text()
        + ", outside the plausible range — battery or never set"@
}

pub open spec fn rtc_answer(rtc: RtcReading, system_local: ClockReading) -> AnswerView {
    match rtc {
        RtcReading::Busy => failed(
            "RTC_CHECK: the clock is in use elsewhere and did not free up in time"@,
        ),
        RtcReading::NoTime => failed("RTC_CHECK failed: DS3231 did not return a time"@),
        RtcReading::Time { reading, sane } => if sane {
            passed(
                seq![("rtc_utc"@, reading.text()), ("system_local"@, system_local.text())],
                ""@,
            )
        } else {
            AnswerView {
                passed: false,
                details: seq![("rtc_utc"@, reading.text())],
                message: implausible_text(reading),
                reboot_requested: false,
            }
        },
    }
}

/// The lines with what a look at the clock says.
pub open spec fn rtc_lines(
    rtc: RtcReading,
    system_local: ClockReading,
    lines: Seq<Seq<char>>,
) -> Seq<Seq<char>> {
    match rtc {
        RtcReading::Time { reading, sane: true } => lines.push("TIME: "@ + reading.text()),
        _ => with_error(lines, rtc_answer(rtc, system_local).message),
    }
}

/// Say whether the time that the clock chip holds is usable.
///
/// Only a plausible time is reported as one: an older host takes the `TIME:` line
/// for a pass.
pub fn rtc_check(rtc: &RtcReading, system_local: &ClockReading, io: &mut TranscriptIo) -> (r:
    Answer)
    requires
        rtc.wf(),
        system_local.wf(),
    ensures
        r@ == rtc_answer(*rtc, *system_local),
        final(io)@ == rtc_lines(*rtc, *system_local, old(io)@),
{
    match rtc {
        RtcReading::Busy => Answer::fail_aloud(
            "RTC_CHECK: the clock is in use elsewhere and did not free up in time".to_owned(),
            io,
        ),
        RtcReading::NoTime => Answer::fail_aloud(
            "RTC_CHECK failed: DS3231 did not return a time".to_owned(),
            io,
        ),
        RtcReading::Time { reading, sane } => {
            let stamp = reading.stamp();
            if !*sane {
                let message = concat3(
                    "RTC_CHECK failed: DS3231 reads ",
                    stamp.as_str(),
                    ", outside the plausible range — battery or never set",
                );
                io.write_error(message.as_str());
                let details = one_detail("rtc_utc", stamp);
                let r = Answer { passed: false, details, message, reboot_requested: false };
                return r;
            }
            report("TIME: ", stamp.as_str(), io);
            let mut details = one_detail("rtc_utc", stamp);
            push_detail(&mut details, "system_local", system_local.stamp());
            assert(text_pairs(details@) =~= rtc_answer(*rtc, *system_local).details);
            Answer::pass(details, "")
        },
    }
}

/// A pattern the display can show.
#[derive(Debug)]
pub struct OledPattern {
    pub name: String,
    /// The pattern that switches everything off, which is drawn by clearing.
    pub blank: bool,
}

/// The names of a list of patterns.
pub open spec fn pattern_names(patterns: Seq<OledPattern>) -> Seq<Seq<char>> {
    patterns.map_values(|p: OledPattern| p.name@)
}

fn collect_names(patterns: &Vec<OledPattern>) -> (r: Vec<String>)
    ensures
        texts(r@) == pattern_names(patterns@),
{
    let mut names: Vec<String> = Vec::new();
    let mut i: usize = 0;
    while i < patterns.len()
        invariant
            0 <= i <= patterns.len(),
            names@.len() == i,
            forall|j: int| 0 <= j < i ==> (#[trigger] names@[j])@ == patterns@[j].name@,
        decreases patterns.len() - i,
    {
        names.push(patterns[i].name.as_str().to_owned());
        i = i + 1;
    }
    assert(texts(names@) =~= pattern_names(patterns@));
    names
}

/// The pattern that an `OLED_TEST` payload asks for; empty asks for all of them.
pub fn oled_request(payload: &str) -> (r: String)
    ensures
        r@ == trim_of(payload@),
{
    trimmed(payload).to_owned()
}

/// What addressing the display leads to.
pub open spec fn present_leads(
    present: bool,
    address: u8,
    lines: Seq<Seq<char>>,
    lines_after: Seq<Seq<char>>,
    r: Result<(), Answer>,
) -> bool {
    match r {
        Ok(_) => present && lines_after == lines,
        Err(answer) => {
            let message = "OLED_TEST: no response at 0x"@ + hex_text(address as nat, 2);
            !present && answer@ == failed(message) && lines_after == with_error(
                lines,
                message,
            )
        },
    }
}

/// Take the display's answer to being addressed.
pub fn oled_present(present: bool, address: u8, io: &mut TranscriptIo) -> (r: Result<(), Answer>)
    ensures
        present_leads(present, address, old(io)@, final(io)@, r),
{
    if present {
        return Ok(());
    }
    let digits = hex(address as u64, 2);
    let message = concat2("OLED_TEST: no response at 0x", digits.as_str());
    Err(Answer::fail_aloud(message, io))
}

/// What initialising the display leads to.
pub open spec fn initialised_leads(
    result: Result<(), String>,
    lines: Seq<Seq<char>>,
    lines_after: Seq<Seq<char>>,
    r: Result<(), Answer>,
) -> bool {
    match r {
        Ok(_) => result is Ok && lines_after == lines,
        Err(answer) => result is Err && answer@ == failed(
            "OLED_TEST: initialisation failed: "@ + result->Err_0@,
        ) && lines_after == with_error(
            lines,
            "OLED_TEST: initialisation failed: "@ + result->Err_0@,
        ),
    }
}

/// Take the display's answer to being initialised.
pub fn oled_initialised(result: &Result<(), String>, io: &mut TranscriptIo) -> (r: Result<
    (),
    Answer,
>)
    ensures
        initialised_leads(*result, old(io)@, final(io)@, r),
{
    match result {
        Ok(_) => Ok(()),
        Err(e) => {
            let message = concat2("OLED_TEST: initialisation failed: ", e.as_str());
            Err(Answer::fail_aloud(message, io))
        },
    }
}

/// A walk over display patterns; those before `drawn` have been shown.
#[derive(Debug)]
pub struct OledWalk {
    pub patterns: Vec<OledPattern>,
    pub drawn: usize,
}

impl OledWalk {
    pub open spec fn wf(self) -> bool {
        self.drawn <= self.patterns@.len()
    }
}

/// Why an `OLED_TEST` is refused, if it is.
pub open spec fn oled_refusal(
    requested: Seq<char>,
    recognised: bool,
    all: Seq<OledPattern>,
    allow_full_walk: bool,
) -> Option<Seq<char>> {
    if requested.len() == 0 {
        if allow_full_walk {
            None
        } else {
            Some(
                "OLED_TEST: name one pattern during a tracking move; walking all five would leave stall detection unserviced for about five seconds"@,
            )
        }
    } else if recognised {
        None
    } else {
        Some(
            "OLED_TEST: unknown pattern '"@ + requested + "', expected one of "@ + joined(
                pattern_names(all),
                ","@,
            ),
        )
    }
}

/// What planning an `OLED_TEST` leads to.
pub open spec fn plan_leads(
    requested: Seq<char>,
    recognised: Option<OledPattern>,
    all: Seq<OledPattern>,
    allow_full_walk: bool,
    lines: Seq<Seq<char>>,
    lines_after: Seq<Seq<char>>,
    r: Result<OledWalk, Answer>,
) -> bool {
    match r {
        Ok(walk) => {
            &&& oled_refusal(requested, recognised is Some, all, allow_full_walk) is None
            &&& walk.drawn == 0
            &&& walk.patterns@ == (if requested.len() == 0 {
                all
            } else {
                seq![recognised->0]
            })
            &&& lines_after == lines
        },
        Err(answer) => {
            let refusal = oled_refusal(
                requested,
                recognised is Some,
                all,
                allow_full_walk,
            );
            &&& refusal is Some
            &&& answer@ == failed(refusal->0)
            &&& lines_after == with_error(lines, refusal->0)
        },
    }
}

/// Plan an `OLED_TEST`: the one pattern that was named, or all of them.
///
/// `recognised` is the pattern that goes by the requested name, if there is one.
/// A full walk takes seconds, so it is refused where it is not allowed.
pub fn drive_oled_pattern(
    requested: &str,
    recognised: Option<OledPattern>,
    all: Vec<OledPattern>,
    allow_full_walk: bool,
    io: &mut TranscriptIo,
) -> (r: Result<OledWalk, Answer>)
    ensures
        plan_leads(
            requested@,
            recognised,
            all@,
            allow_full_walk,
            old(io)@,
            final(io)@,
            r,
        ),
{
    if requested.is_empty() {
        if !allow_full_walk {
            return Err(
                Answer::fail_aloud(
                    "OLED_TEST: name one pattern during a tracking move; walking all five would leave stall detection unserviced for about five seconds".to_owned(),
                    io,
                ),
            );
        }
        return Ok(OledWalk { patterns: all, drawn: 0 });
    }
    match recognised {
        Some(pattern) => {
            let mut patterns: Vec<OledPattern> = Vec::new();
            patterns.push(pattern);
            Ok(OledWalk { patterns, drawn: 0 })
        },
        None => {
            let names = collect_names(&all);
            let list = join(&names, ",");
            let head = concat3("OLED_TEST: unknown pattern '", requested, "', expected one of ");
            Err(Answer::fail_aloud(concat2(head.as_str(), list.as_str()), io))
        },
    }
}

/// What a display walk does next.
#[derive(Debug)]
pub enum OledNext {
    /// Draw the pattern at `walk.drawn`, after holding the one before it for
    /// `hold_ms`.
    Draw { hold_ms: u64 },
    Done(Answer),
}

pub open spec fn oled_done(patterns: Seq<OledPattern>) -> AnswerView {
    passed(
        seq![
            ("patterns"@, decimal_text(patterns.len())),
            ("shown"@, joined(pattern_names(patterns), ","@)),
        ],
        ""@,
    )
}

impl OledWalk {
    fn finished(&self, io: &mut TranscriptIo) -> (r: Answer)
        ensures
            r@ == oled_done(self.patterns@),
            final(io)@ == old(io)@.push("OK"@),
    {
        io.write_line("OK");
        let names = collect_names(&self.patterns);
        let mut details = one_detail("patterns", decimal(self.patterns.len() as u64));
        push_detail(&mut details, "shown", join(&names, ","));
        assert(text_pairs(details@) =~= oled_done(self.patterns@).details);
        Answer::pass(details, "")
    }

    /// What beginning the walk leads to.
    pub open spec fn begin_leads(
        self,
        lines: Seq<Seq<char>>,
        lines_after: Seq<Seq<char>>,
        r: OledNext,
    ) -> bool {
        if self.patterns@.len() == 0 {
            r matches OledNext::Done(answer) && answer@ == oled_done(self.patterns@)
                && lines_after == lines.push("OK"@)
        } else {
            r == (OledNext::Draw { hold_ms: 0 }) && lines_after == lines
        }
    }

    /// What the attempt to draw the pattern at `drawn` leads to.
    pub open spec fn draw_leads(
        self,
        outcome: Result<(), String>,
        lines: Seq<Seq<char>>,
        after: OledWalk,
        lines_after: Seq<Seq<char>>,
        r: OledNext,
    ) -> bool {
        match outcome {
            Err(e) => {
                let message = "OLED_TEST: writing "@ + self.patterns@[self.drawn as int].name@
                    + " failed: "@ + e@;
                &&& after.drawn == self.drawn
                &&& r matches OledNext::Done(answer) && answer@ == failed(message)
                &&& lines_after == with_error(lines, message)
            },
            Ok(_) => {
                let shown = lines.push(
                    "OLED pattern "@ + self.patterns@[self.drawn as int].name@,
                );
                &&& after.drawn == self.drawn + 1
                &&& if after.drawn < self.patterns@.len() {
                    r == (OledNext::Draw { hold_ms: OLED_PATTERN_HOLD_MS }) && lines_after
                        == shown
                } else {
                    r matches OledNext::Done(answer) && answer@ == oled_done(self.patterns@)
                        && lines_after == shown.push("OK"@)
                }
            },
        }
    }

    /// Begin the walk.
    pub fn begin(&self, io: &mut TranscriptIo) -> (r: OledNext)
        requires
            self.drawn == 0,
        ensures
            self.begin_leads(old(io)@, final(io)@, r),
    {
        if self.patterns.len() == 0 {
            OledNext::Done(self.finished(io))
        } else {
            OledNext::Draw { hold_ms: 0 }
        }
    }

    /// Take the display's answer to drawing the pattern at `drawn`.
    pub fn after_draw(&mut self, outcome: &Result<(), String>, io: &mut TranscriptIo) -> (r:
        OledNext)
        requires
            old(self).drawn < old(self).patterns@.len(),
        ensures
            final(self).patterns@ == old(self).patterns@,
            final(self).wf(),
            old(self).draw_leads(*outcome, old(io)@, *final(self), final(io)@, r),
    {
        match outcome {
            Err(e) => {
                let head = concat3(
                    "OLED_TEST: writing ",
                    self.patterns[self.drawn].name.as_str(),
                    " failed: ",
                );
                OledNext::Done(Answer::fail_aloud(concat2(head.as_str(), e.as_str()), io))
            },
            Ok(_) => {
                report("OLED pattern ", self.patterns[self.drawn].name.as_str(), io);
                let count: usize = self.patterns.len();
                self.drawn = self.drawn + 1;
                if self.drawn < count {
                    OledNext::Draw { hold_ms: OLED_PATTERN_HOLD_MS }
                } else {
                    OledNext::Done(self.finished(io))
                }
            },
        }
    }
}

/// Whether an `LED_TEST` asks for the runtime's own colour back.
pub fn led_restores(color: &str) -> (r: bool)
    ensures
        r == same_ignoring_ascii_case(color@, "RESTORE"@),
{
    equals_ignoring_ascii_case(color, "RESTORE")
}

/// What an `LED_TEST` led to.
#[derive(Debug)]
pub enum LedTest {
    /// The runtime's colour was put back.
    Restored,
    /// The colour is not known; `names` lists those that are.
    UnknownColor { names: String },
    /// The colour was written, or could not be.
    Driven { red: u8, green: u8, blue: u8, outcome: Result<(), String> },
}

pub open spec fn rgb_text(red: u8, green: u8, blue: u8) -> Seq<char> {
    decimal_text(red as nat) + ","@ + decimal_text(green as nat) + ","@ + decimal_text(
        blue as nat,
    )
}

pub open spec fn led_answer(color: Seq<char>, test: LedTest) -> AnswerView {
    match test {
        LedTest::Restored => passed(seq![("color"@, "RESTORE"@)], ""@),
        LedTest::UnknownColor { names } => failed(
            "LED_TEST: unknown colour '"@ + color + "', expected one of "@ + names@
                + ", RESTORE, or an R,G,B triplet"@,
        ),
        LedTest::Driven { red, green, blue, outcome } => match outcome {
            Ok(_) => passed(
                seq![("color"@, uppercase_of(color)), ("rgb"@, rgb_text(red, green, blue))],
                ""@,
            ),
            Err(e) => failed("LED_TEST could not drive the LED: "@ + e@),
        },
    }
}

pub open spec fn led_line(color: Seq<char>, test: LedTest) -> Seq<char> {
    match test {
        LedTest::Restored => "LED restored to the runtime status colour"@,
        LedTest::Driven { red, green, blue, outcome: Ok(_) } => "LED driven "@ + color + " rgb "@
            + rgb_text(red, green, blue),
        _ => "ERROR "@ + led_answer(color, test).message,
    }
}

/// Report an `LED_TEST`. It says what was written, never that the LED shows it:
/// the part has no readback.
pub fn drive_status_led(color: &str, test: &LedTest, io: &mut TranscriptIo) -> (r: Answer)
    ensures
        r@ == led_answer(color@, *test),
        final(io)@ == old(io)@.push(led_line(color@, *test)),
{
    match test {
        LedTest::Restored => {
            io.write_line("LED restored to the runtime status colour");
            let details = one_detail("color", "RESTORE".to_owned());
            Answer::pass(details, "")
        },
        LedTest::UnknownColor { names } => {
            let head = concat3("LED_TEST: unknown colour '", color, "', expected one of ");
            let message = concat3(
                head.as_str(),
                names.as_str(),
                ", RESTORE, or an R,G,B triplet",
            );
            Answer::fail_aloud(message, io)
        },
        LedTest::Driven { red, green, blue, outcome } => match outcome {
            Err(e) => {
                let message = concat2("LED_TEST could not drive the LED: ", e.as_str());
                Answer::fail_aloud(message, io)
            },
            Ok(_) => {
                let r = decimal(*red as u64);
                let g = decimal(*green as u64);
                let b = decimal(*blue as u64);
                let rg = concat3(r.as_str(), ",", g.as_str());
                let rgb = concat3(rg.as_str(), ",", b.as_str());
                let head = concat3("LED driven ", color, " rgb ");
                report(head.as_str(), rgb.as_str(), io);
                let mut details = one_detail("color", uppercase(color));
                push_detail(&mut details, "rgb", rgb);
                assert(text_pairs(details@) =~= led_answer(color@, *test).details);
                Answer::pass(details, "")
            },
        },
    }
}

} // verus!
