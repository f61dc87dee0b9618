//! Admin mode: bench tests behind one entry point.

use vstd::prelude::*;

use crate::config::switchboard::{AdminSwitches, BootHomingSwitches};
use crate::logic::fsm::network::WifiState;
use crate::logic::types::{Direction, MoveOutcome};
use crate::storage::snapshot_store::{push_write, writes, NvsWrite, NvsWriteView};
use crate::text::{
    bool_str, bool_text, concat2, concat3, decimal, decimal_text, signed_decimal, signed_text,
};

verus! {

pub const TOPIC_ADMIN_PERSIST: &'static str = "device1/admin/persistence_test";
pub const TOPIC_ADMIN_WIFI_MQTT: &'static str = "device1/admin/wifi_mqtt_test";
pub const TOPIC_ADMIN_MOTOR: &'static str = "device1/admin/motor_test";
pub const TOPIC_ADMIN_ENCODER: &'static str = "device1/admin/encoder_test";

pub const NVS_KEY_ADMIN_PERSIST_COUNTER: &'static str = "admin_persist_ctr";

/// What a tower reports when admin mode is asked for and not enabled, and when its
/// homing fails.
pub const ADMIN_DISABLED: &'static str =
    "Critical failure: Admin mode selected but disabled in switchboard! at Tower 1 (Office Tower)";
pub const ADMIN_HOMING_FAILED: &'static str =
    "Critical failure: Admin homing failed! at Tower 1 (Office Tower)";

/// The same, from an image that does not know its tower.
pub const BENCH_DISABLED: &'static str =
    "Critical failure: Admin mode selected but disabled in switchboard!";
pub const BENCH_HOMING_FAILED: &'static str = "Critical failure: Admin homing failed!";

/// How many commands an idle tower answers in a row, and how long it sleeps then.
pub const MAX_IDLE_COMMANDS: u8 = 10;
pub const IDLE_SLEEP_SECS: u64 = 60;

/// The jog of the motor and encoder tests: eight degrees, as the bit pattern of a
/// single-precision value.
pub const JOG_DEG: u32 = 0x4100_0000;

/// One thing that admin mode does.
#[derive(Debug, Clone, Copy, PartialEq, Eq, Structural)]
pub enum AdminStep {
    PublishVersion,
    Recovery,
    Homing { dir: Direction },
    MotorTest,
    EncoderTest,
    PersistenceTest,
    WifiMqttTest,
    /// Stay, answering commands.
    Idle,
}

pub open spec fn step_if(wanted: bool, step: AdminStep) -> Seq<AdminStep> {
    if wanted {
        seq![step]
    } else {
        Seq::empty()
    }
}

/// What comes before the tests: a sign of life, then what the start asks for.
pub open spec fn start_steps(cfg: AdminSwitches, dir: Direction) -> Seq<AdminStep> {
    seq![AdminStep::PublishVersion] + step_if(cfg.run_recovery_on_start, AdminStep::Recovery)
        + step_if(cfg.run_homing_on_start, AdminStep::Homing { dir })
}

/// What admin mode does: the start, the tests that are on, and then it stays if it
/// is to.
pub open spec fn admin_steps(cfg: AdminSwitches, dir: Direction) -> Seq<AdminStep> {
    start_steps(cfg, dir) + step_if(cfg.tests.motor_test, AdminStep::MotorTest) + step_if(
        cfg.tests.encoder_test,
        AdminStep::EncoderTest,
    ) + step_if(cfg.tests.persistence_test, AdminStep::PersistenceTest) + step_if(
        cfg.tests.wifi_mqtt_test,
        AdminStep::WifiMqttTest,
    ) + step_if(cfg.stop_after, AdminStep::Idle)
}

fn push_if(steps: &mut Vec<AdminStep>, wanted: bool, step: AdminStep)
    ensures
        final(steps)@ == old(steps)@ + step_if(wanted, step),
{
    if wanted {
        steps.push(step);
    }
    assert(steps@ =~= old(steps)@ + step_if(wanted, step));
}

fn start(cfg: &AdminSwitches, dir: Direction) -> (r: Vec<AdminStep>)
    ensures
        r@ == start_steps(*cfg, dir),
{
    let mut steps: Vec<AdminStep> = Vec::new();
    steps.push(AdminStep::PublishVersion);
    assert(steps@ =~= seq![AdminStep::PublishVersion]);
    push_if(&mut steps, cfg.run_recovery_on_start, AdminStep::Recovery);
    push_if(&mut steps, cfg.run_homing_on_start, AdminStep::Homing { dir });
    steps
}

/// What asking for admin mode leads to.
pub open spec fn run_leads(
    cfg: AdminSwitches,
    dir: Direction,
    bypass: bool,
    r: Result<Vec<AdminStep>, &'static str>,
) -> bool {
    match r {
        Ok(steps) => (bypass || cfg.enabled) && steps@ == admin_steps(
            cfg,
            dir,
        ),
        Err(message) => !bypass && !cfg.enabled && message@ == ADMIN_DISABLED@,
    }
}

/// What admin mode does, in order. It is refused where it is not enabled, unless
/// the check is bypassed, as it is for a single test out of normal mode.
pub fn run(cfg: &AdminSwitches, homing: &BootHomingSwitches, bypass_enabled_check: bool) -> (r:
    Result<Vec<AdminStep>, &'static str>)
    ensures
        run_leads(*cfg, homing.dir, bypass_enabled_check, r),
{
    if !bypass_enabled_check && !cfg.enabled {
        return Err(ADMIN_DISABLED);
    }
    let mut steps = start(cfg, homing.dir);
    push_if(&mut steps, cfg.tests.motor_test, AdminStep::MotorTest);
    push_if(&mut steps, cfg.tests.encoder_test, AdminStep::EncoderTest);
    push_if(&mut steps, cfg.tests.persistence_test, AdminStep::PersistenceTest);
    push_if(&mut steps, cfg.tests.wifi_mqtt_test, AdminStep::WifiMqttTest);
    push_if(&mut steps, cfg.stop_after, AdminStep::Idle);
    Ok(steps)
}

/// What asking for admin mode leads to on an image without tests.
pub open spec fn bench_leads(
    cfg: AdminSwitches,
    dir: Direction,
    r: Result<Vec<AdminStep>, &'static str>,
) -> bool {
    match r {
        Ok(steps) => cfg.enabled && steps@ == start_steps(cfg, dir) + step_if(
            cfg.stop_after,
            AdminStep::Idle,
        ),
        Err(message) => !cfg.enabled && message@ == BENCH_DISABLED@,
    }
}

/// What admin mode does on an image without tests, in order.
pub fn run_bench(cfg: &AdminSwitches, homing: &BootHomingSwitches) -> (r: Result<
    Vec<AdminStep>,
    &'static str,
>)
    ensures
        bench_leads(*cfg, homing.dir, r),
{
    if !cfg.enabled {
        return Err(BENCH_DISABLED);
    }
    let mut steps = start(cfg, homing.dir);
    push_if(&mut steps, cfg.stop_after, AdminStep::Idle);
    Ok(steps)
}

/// What the search for home leads to.
pub open spec fn homing_leads(
    found: bool,
    failure: Seq<char>,
    r: Option<&'static str>,
) -> bool {
    match r {
        Some(message) => !found && message@ == failure,
        None => found,
    }
}

/// Go on after the search for home: admin mode ends with this failure where home was
/// not found.
pub fn homing_done(found: bool) -> (r: Option<&'static str>)
    ensures
        homing_leads(found, ADMIN_HOMING_FAILED@, r),
{
    if found {
        None
    } else {
        Some(ADMIN_HOMING_FAILED)
    }
}

/// The same on an image without tests.
pub fn bench_homing_done(found: bool) -> (r: Option<&'static str>)
    ensures
        homing_leads(found, BENCH_HOMING_FAILED@, r),
{
    if found {
        None
    } else {
        Some(BENCH_HOMING_FAILED)
    }
}

/// A run of commands that an idle tower answers before it sleeps.
#[derive(Debug, Clone, Copy, PartialEq, Eq, Structural)]
pub struct IdleRun {
    pub processed: u8,
}

/// How answering a command ended.
#[derive(Debug, Clone, Copy, PartialEq, Eq, Structural)]
pub enum CommandOutcome {
    Processed,
    NoneWaiting,
    Failed,
}

impl IdleRun {
    pub open spec fn wf(self) -> bool {
        self.processed <= MAX_IDLE_COMMANDS
    }

    pub fn new() -> (r: Self)
        ensures
            r.processed == 0,
            r.wf(),
    {
        IdleRun { processed: 0 }
    }

    /// What the outcome of a command leads to.
    pub open spec fn note_leads(
        self,
        outcome: CommandOutcome,
        after: IdleRun,
        another: bool,
    ) -> bool {
        &&& after.processed == self.processed + (if outcome == CommandOutcome::Processed {
            1int
        } else {
            0
        })
        &&& another == (outcome == CommandOutcome::Processed && after.processed
            < MAX_IDLE_COMMANDS)
    }

    /// Take the outcome of a command; the result says whether to look for another.
    pub fn note(&mut self, outcome: CommandOutcome) -> (r: bool)
        requires
            old(self).processed < MAX_IDLE_COMMANDS,
        ensures
            old(self).note_leads(outcome, *final(self), r),
            final(self).wf(),
    {
        match outcome {
            CommandOutcome::Processed => {
                self.processed = self.processed + 1;
                self.processed < MAX_IDLE_COMMANDS
            },
            _ => false,
        }
    }
}

/// A message to publish.
#[derive(Debug)]
pub struct Publication {
    pub topic: String,
    pub payload: String,
}

#[verifier::ext_equal]
pub struct PublicationView {
    pub topic: Seq<char>,
    pub payload: Seq<char>,
}

impl View for Publication {
    type V = PublicationView;

    open spec fn view(&self) -> PublicationView {
        PublicationView { topic: self.topic@, payload: self.payload@ }
    }
}

pub open spec fn publication(published: Option<Publication>) -> Option<PublicationView> {
    match published {
        Some(p) => Some(p@),
        None => None,
    }
}

pub open spec fn published_if(enabled: bool, topic: Seq<char>, payload: Seq<char>) -> Option<
    PublicationView,
> {
    if enabled {
        Some(PublicationView { topic, payload })
    } else {
        None
    }
}

/// Publish, if publishing is on.
pub fn publish_if(enabled: bool, topic: &str, payload: &str) -> (r: Option<Publication>)
    ensures
        publication(r) == published_if(enabled, topic@, payload@),
{
    if !enabled {
        return None;
    }
    Some(Publication { topic: topic.to_owned(), payload: payload.to_owned() })
}

pub open spec fn verdict_text(ok: bool) -> Seq<char> {
    if ok {
        "PASS"@
    } else {
        "FAIL"@
    }
}

fn verdict(ok: bool) -> (r: &'static str)
    ensures
        r@ == verdict_text(ok),
{
    if ok {
        "PASS"
    } else {
        "FAIL"
    }
}

/// The counter after one more test, which starts over after the largest.
pub open spec fn next_counter(prev: Option<u32>) -> u32 {
    match prev {
        None => 1,
        Some(n) => if n == u32::MAX {
            0
        } else {
            (n + 1) as u32
        },
    }
}

pub open spec fn counter(stored: Option<u32>) -> u32 {
    match stored {
        Some(n) => n,
        None => 0,
    }
}

/// What the persistence test does first.
#[derive(Debug)]
pub enum PersistenceStep {
    /// Nothing is persisted: publish that.
    Skip(Option<Publication>),
    /// The counter was written: read it back.
    ReadBack { prev: u32, next: u32 },
}

/// What beginning the persistence test leads to.
pub open spec fn persistence_leads(
    stored: Option<u32>,
    publish: bool,
    persist: bool,
    before: Seq<NvsWriteView>,
    after: Seq<NvsWriteView>,
    r: PersistenceStep,
) -> bool {
    &&& !persist ==> {
        &&& r matches PersistenceStep::Skip(p) && publication(p) == published_if(
            publish,
            TOPIC_ADMIN_PERSIST@,
            "PERSIST_TEST SKIP: persist_nvs=false (prev_ctr="@ + decimal_text(
                counter(stored) as nat,
            ) + ")"@,
        )
        &&& after == before
    }
    &&& persist ==> {
        &&& r == (PersistenceStep::ReadBack {
            prev: counter(stored),
            next: next_counter(stored),
        })
        &&& after == before.push(
            NvsWriteView::U32 {
                key: NVS_KEY_ADMIN_PERSIST_COUNTER@,
                value: next_counter(stored),
            },
        )
    }
}

/// Begin the persistence test, which counts up a number in flash.
pub fn run_persistence_test(
    stored: Option<u32>,
    publish: bool,
    persist: bool,
    journal: &mut Vec<NvsWrite>,
) -> (r: PersistenceStep)
    ensures
        persistence_leads(
            stored,
            publish,
            persist,
            writes(old(journal)@),
            writes(final(journal)@),
            r,
        ),
{
    let prev: u32 = match stored {
        Some(n) => n,
        None => 0,
    };
    if !persist {
        let number = decimal(prev as u64);
        let message = concat3(
            "PERSIST_TEST SKIP: persist_nvs=false (prev_ctr=",
            number.as_str(),
            ")",
        );
        return PersistenceStep::Skip(publish_if(publish, TOPIC_ADMIN_PERSIST, message.as_str()));
    }
    let next: u32 = prev.wrapping_add(1);
    push_write(journal, NvsWrite::U32 { key: NVS_KEY_ADMIN_PERSIST_COUNTER, value: next });
    PersistenceStep::ReadBack { prev, next }
}

pub open spec fn persistence_text(prev: u32, next: u32, readback: u32) -> Seq<char> {
    "PERSIST_TEST "@ + verdict_text(readback == next) + ": prev_ctr="@ + decimal_text(prev as nat)
        + " wrote_next="@ + decimal_text(next as nat) + " readback="@ + decimal_text(
        readback as nat,
    )
}

/// Whether the number that was read back is the one that was written.
pub open spec fn persistence_ok(next: u32, readback: Option<u32>) -> bool {
    counter(readback) == next
}

/// Finish the persistence test with the number that was read back.
pub fn persistence_read_back(
    prev: u32,
    next: u32,
    readback: Option<u32>,
    publish: bool,
) -> (r: (bool, Option<Publication>))
    ensures
        r.0 == persistence_ok(next, readback),
        publication(r.1) == published_if(
            publish,
            TOPIC_ADMIN_PERSIST@,
            persistence_text(prev, next, counter(readback)),
        ),
{
    let read: u32 = match readback {
        Some(n) => n,
        None => 0,
    };
    let ok = read == next;
    let number = decimal(prev as u64);
    let message = concat3("PERSIST_TEST ", verdict(ok), ": prev_ctr=");
    let message = concat3(message.as_str(), number.as_str(), " wrote_next=");
    let number = decimal(next as u64);
    let message = concat3(message.as_str(), number.as_str(), " readback=");
    let number = decimal(read as u64);
    let message = concat2(message.as_str(), number.as_str());
    (ok, publish_if(publish, TOPIC_ADMIN_PERSIST, message.as_str()))
}

pub open spec fn wifi_mqtt_text(wifi_ok: bool, mqtt_ok: bool, state: Seq<char>) -> Seq<char> {
    "WIFI_MQTT_TEST: wifi_ok="@ + bool_text(wifi_ok) + " mqtt_ok="@ + bool_text(mqtt_ok)
        + " wifi_state="@ + state
}

/// Whether the tower is connected all the way.
pub open spec fn connection_ok(state: WifiState, mqtt_ok: bool) -> bool {
    state == WifiState::Connected && mqtt_ok
}

/// The connection test. `state_text` describes the connection's state.
pub fn run_wifi_mqtt_test(
    state: WifiState,
    state_text: &str,
    mqtt_ok: bool,
    publish: bool,
) -> (r: (bool, Option<Publication>))
    ensures
        r.0 == connection_ok(state, mqtt_ok),
        publication(r.1) == published_if(
            publish,
            TOPIC_ADMIN_WIFI_MQTT@,
            wifi_mqtt_text(state == WifiState::Connected, mqtt_ok, state_text@),
        ),
{
    let wifi_ok = state == WifiState::Connected;
    let message = concat3("WIFI_MQTT_TEST: wifi_ok=", bool_str(wifi_ok), " mqtt_ok=");
    let message = concat3(message.as_str(), bool_str(mqtt_ok), " wifi_state=");
    let message = concat2(message.as_str(), state_text);
    (wifi_ok && mqtt_ok, publish_if(publish, TOPIC_ADMIN_WIFI_MQTT, message.as_str()))
}

/// Whether both jogs completed.
pub open spec fn motor_ok(out_cw: MoveOutcome, out_ccw: MoveOutcome) -> bool {
    out_cw@ is Completed && out_ccw@ is Completed
}

pub open spec fn motor_text(out_cw: MoveOutcome, out_ccw: MoveOutcome) -> Seq<char> {
    "MOTOR_TEST "@ + verdict_text(motor_ok(out_cw, out_ccw))
        + ": jog_deg=8 out_cw="@ + out_cw.name() + " out_ccw="@ + out_ccw.name()
}

/// The motor test, after a jog clockwise and one back.
pub fn run_motor_test(out_cw: &MoveOutcome, out_ccw: &MoveOutcome, publish: bool) -> (r: (
    bool,
    Option<Publication>,
))
    ensures
        r.0 == motor_ok(*out_cw, *out_ccw),
        publication(r.1) == published_if(
            publish,
            TOPIC_ADMIN_MOTOR@,
            motor_text(*out_cw, *out_ccw),
        ),
{
    let ok = out_cw.is_completed() && out_ccw.is_completed();
    let message = concat3("MOTOR_TEST ", verdict(ok), ": jog_deg=8 out_cw=");
    let message = concat3(message.as_str(), out_cw.as_str(), " out_ccw=");
    let message = concat2(message.as_str(), out_ccw.as_str());
    (ok, publish_if(publish, TOPIC_ADMIN_MOTOR, message.as_str()))
}

/// What the encoder counted before, between and after two jogs.
#[derive(Debug, Clone, Copy, PartialEq, Eq, Structural)]
pub struct JogCounts {
    pub start: i32,
    pub mid: i32,
    pub end: i32,
}

impl JogCounts {
    /// The encoder's counts are within what it can count.
    pub open spec fn fits(self) -> bool {
        &&& i32::MIN <= self.mid - self.start <= i32::MAX
        &&& i32::MIN <= self.end - self.mid <= i32::MAX
    }

    /// The encoder counted during one of the jogs.
    pub open spec fn changed(self) -> bool {
        self.mid != self.start || self.end != self.mid
    }
}

pub open spec fn encoder_ok(counts: JogCounts, out_cw: MoveOutcome, out_ccw: MoveOutcome) -> bool {
    counts.changed() && out_cw@ is Completed && out_ccw@ is Completed
}

pub open spec fn encoder_text(
    counts: JogCounts,
    out_cw: MoveOutcome,
    out_ccw: MoveOutcome,
) -> Seq<char> {
    "ENCODER_TEST "@ + verdict_text(encoder_ok(counts, out_cw, out_ccw))
        + ": jog_deg=8 out_cw="@ + out_cw.name() + " cw_delta="@ + signed_text(
        counts.mid - counts.start,
    ) + " out_ccw="@ + out_ccw.name() + " ccw_delta="@ + signed_text(counts.end - counts.mid)
        + " (start="@ + signed_text(counts.start as int) + " mid="@ + signed_text(
        counts.mid as int,
    ) + " end="@ + signed_text(counts.end as int) + ")"@
}

fn append_count(message: String, count: i32, more: &str) -> (r: String)
    ensures
        r@ == message@ + signed_text(count as int) + more@,
{
    let number = signed_decimal(count as i64);
    concat3(message.as_str(), number.as_str(), more)
}

/// The encoder test, after a jog clockwise and one back. Which way the encoder
/// counts is not judged, only that it does.
pub fn run_encoder_test(
    counts: &JogCounts,
    out_cw: &MoveOutcome,
    out_ccw: &MoveOutcome,
    publish: bool,
) -> (r: (bool, Option<Publication>))
    requires
        counts.fits(),
    ensures
        r.0 == encoder_ok(*counts, *out_cw, *out_ccw),
        publication(r.1) == published_if(
            publish,
            TOPIC_ADMIN_ENCODER@,
            encoder_text(*counts, *out_cw, *out_ccw),
        ),
{
    let cw_delta: i32 = counts.mid - counts.start;
    let ccw_delta: i32 = counts.end - counts.mid;
    let changed = cw_delta != 0 || ccw_delta != 0;
    let ok = changed && out_cw.is_completed() && out_ccw.is_completed();
    let message = concat3("ENCODER_TEST ", verdict(ok), ": jog_deg=8 out_cw=");
    let message = concat3(message.as_str(), out_cw.as_str(), " cw_delta=");
    let message = append_count(message, cw_delta, " out_ccw=");
    let message = concat3(message.as_str(), out_ccw.as_str(), " ccw_delta=");
    let message = append_count(message, ccw_delta, " (start=");
    let message = append_count(message, counts.start, " mid=");
    let message = append_count(message, counts.mid, " end=");
    let message = append_count(message, counts.end, ")");
    (ok, publish_if(publish, TOPIC_ADMIN_ENCODER, message.as_str()))
}

/// Admin mode moves the tower only where a move was asked for: without recovery,
/// homing, motor test and encoder test, no step turns the motor.
pub proof fn a_quiet_admin_mode_does_not_move(cfg: AdminSwitches, dir: Direction, i: int)
    requires
        !cfg.run_recovery_on_start,
        !cfg.run_homing_on_start,
        !cfg.tests.motor_test,
        !cfg.tests.encoder_test,
        0 <= i < admin_steps(cfg, dir).len(),
    ensures
        ({
            let step = admin_steps(cfg, dir)[i];
            step == AdminStep::PublishVersion || step == AdminStep::PersistenceTest || step
                == AdminStep::WifiMqttTest || step == AdminStep::Idle
        }),
{
}

} // verus!
