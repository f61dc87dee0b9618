//! The network machine: Wi-Fi, the clock, the broker, boot validation and updates.

use vstd::prelude::*;

use crate::calendar::ClockReading;
use crate::config::switchboard::{Switchboard, FIRMWARE_VERSION};
use crate::diagnostics::mqtt::elapsed;
use crate::logic::daily_reset::opt_str_view;
use crate::logic::types::Component;
use crate::runtime::reset_reason::ResetReason;
use crate::std_text::{trim_of, trimmed};
use crate::storage::snapshot_store::{push_write, writes, NvsWrite, NvsWriteView};
use crate::text::{concat2, opt_text, same_text};
use crate::topic::{logs_boot, status, tower_topic};
use crate::version::{
    current_version, parse_version, running_version, semver_of, VersionError,
};

verus! {

/// How long the machine waits between looks at the connection, in nanoseconds.
pub const WIFI_WAIT: u64 = 30_000_000_000;

pub const NVS_KEY_WIFI_SSID: &'static str = "wifi_ssid";
pub const NVS_KEY_WIFI_PASS: &'static str = "wifi_pass";
pub const NVS_KEY_TZ_POSIX: &'static str = "tz_posix";
pub const NVS_KEY_VERSION: &'static str = "version";
pub const NVS_KEY_FIRST_BOOT: &'static str = "first_boot";

/// The state of the Wi-Fi connection.
#[derive(Debug, Clone, Copy, PartialEq, Eq, Structural)]
pub enum WifiState {
    Connected,
    Connecting,
    Disconnected,
}

/// The states of the network machine.
#[derive(Debug, Clone, Copy, PartialEq, Eq, Structural)]
pub enum NetworkState {
    WifiInitialize,
    WifiWait,
    WifiConnectIfDisconnected,
    InitNetworkServices,
    BootValidation,
    Ota,
}

/// What a step leads to.
#[derive(Debug, Clone, Copy, PartialEq, Eq, Structural)]
pub enum NetworkResult {
    Hold,
    Running(NetworkState),
}

/// What the network machine knows.
#[derive(Debug)]
pub struct NetworkContext {
    pub switchboard: Switchboard,
    /// When the connection was last looked at.
    pub timer: u64,
    /// The network services are yet to be brought up.
    pub init_network_services: bool,
    pub mqtt_ready: bool,
    pub formatted_time: Option<String>,
    pub current_version: Option<String>,
}

impl NetworkContext {
    pub fn new(switchboard: Switchboard, now: u64) -> (r: Self)
        ensures
            r == (NetworkContext {
                switchboard,
                timer: now,
                init_network_services: true,
                mqtt_ready: false,
                formatted_time: None,
                current_version: None,
            }),
    {
        NetworkContext {
            switchboard,
            timer: now,
            init_network_services: true,
            mqtt_ready: false,
            formatted_time: None,
            current_version: None,
        }
    }
}

/// Bringing up Wi-Fi.
#[derive(Debug, Clone, Copy)]
pub struct WifiInitialize;

/// Connecting if the connection is lost.
#[derive(Debug, Clone, Copy)]
pub struct WifiConnectIfDisconnected;

/// Waiting for the next look.
#[derive(Debug, Clone, Copy)]
pub struct WifiWait;

/// Bringing up the clock and the broker.
#[derive(Debug, Clone, Copy)]
pub struct InitNetworkServices;

/// Validating a fresh image.
#[derive(Debug, Clone, Copy)]
pub struct BootValidation;

/// Looking for an update.
#[derive(Debug, Clone, Copy)]
pub struct OTA;

fn str_write(journal: &mut Vec<NvsWrite>, key: &'static str, value: &str)
    ensures
        writes(final(journal)@) == writes(old(journal)@).push(
            NvsWriteView::Str { key: key@, value: value@ },
        ),
{
    push_write(journal, NvsWrite::Str { key, value: value.to_owned() });
}

/// The writes that seed the credentials and the time zone.
pub open spec fn seed_writes(sw: Switchboard) -> Seq<NvsWriteView> {
    seq![
        NvsWriteView::Str { key: NVS_KEY_WIFI_SSID@, value: sw.default_wifi_ssid@ },
        NvsWriteView::Str { key: NVS_KEY_WIFI_PASS@, value: sw.default_wifi_pass@ },
        NvsWriteView::Str { key: NVS_KEY_TZ_POSIX@, value: sw.default_tz_posix@ },
    ]
}

/// What flash holds, and the default where it holds nothing or cannot be read.
pub open spec fn stored_or(stored: Option<Seq<char>>, default: Seq<char>) -> Seq<char> {
    match stored {
        Some(text) => text,
        None => default,
    }
}

impl WifiInitialize {
    /// Seed the credentials and the time zone.
    pub fn seed(&self, sw: &Switchboard, journal: &mut Vec<NvsWrite>)
        ensures
            writes(final(journal)@) == writes(old(journal)@) + seed_writes(*sw),
    {
        str_write(journal, NVS_KEY_WIFI_SSID, sw.default_wifi_ssid);
        str_write(journal, NVS_KEY_WIFI_PASS, sw.default_wifi_pass);
        str_write(journal, NVS_KEY_TZ_POSIX, sw.default_tz_posix);
        assert(writes(journal@) =~= writes(old(journal)@) + seed_writes(*sw));
    }

    /// The credentials to connect with: what flash holds, and the defaults where it
    /// holds nothing or cannot be read.
    pub fn process(
        &self,
        sw: &Switchboard,
        stored_ssid: Option<String>,
        stored_pass: Option<String>,
    ) -> (r: (String, String, NetworkResult))
        ensures
            r.0@ == stored_or(opt_text(stored_ssid), sw.default_wifi_ssid@),
            r.1@ == stored_or(opt_text(stored_pass), sw.default_wifi_pass@),
            r.2 == NetworkResult::Running(NetworkState::WifiWait),
    {
        let ssid = match stored_ssid {
            Some(ssid) => ssid,
            None => sw.default_wifi_ssid.to_owned(),
        };
        let pass = match stored_pass {
            Some(pass) => pass,
            None => sw.default_wifi_pass.to_owned(),
        };
        (ssid, pass, NetworkResult::Running(NetworkState::WifiWait))
    }
}

/// What waiting for the next look leads to.
pub open spec fn wait_leads(
    before: NetworkContext,
    now: u64,
    after: NetworkContext,
    r: NetworkResult,
) -> bool {
    let due = elapsed(now, before.timer) >= WIFI_WAIT;
    &&& r == (if due {
        NetworkResult::Running(NetworkState::WifiConnectIfDisconnected)
    } else {
        NetworkResult::Hold
    })
    &&& after == (NetworkContext {
        timer: if due {
            now
        } else {
            before.timer
        },
        ..before
    })
}

impl WifiWait {
    /// Wait for the time between looks to pass.
    pub fn process(&self, ctx: &mut NetworkContext, now: u64) -> (r: NetworkResult)
        ensures
            wait_leads(*old(ctx), now, *final(ctx), r),
    {
        if now < ctx.timer || now - ctx.timer < WIFI_WAIT {
            return NetworkResult::Hold;
        }
        ctx.timer = now;
        NetworkResult::Running(NetworkState::WifiConnectIfDisconnected)
    }
}

/// Where the machine goes after a look at the connection.
pub open spec fn after_reconnecting(
    ctx: NetworkContext,
    reconnected: Option<bool>,
    state: WifiState,
) -> NetworkResult {
    if reconnected == Some(false) {
        NetworkResult::Hold
    } else if ctx.init_network_services && state == WifiState::Connected {
        NetworkResult::Running(NetworkState::InitNetworkServices)
    } else {
        NetworkResult::Running(NetworkState::WifiWait)
    }
}

/// Whether a connection is to be made anew.
pub open spec fn reconnect_needed(state: WifiState) -> bool {
    state == WifiState::Disconnected
}

impl WifiConnectIfDisconnected {
    /// Whether to reconnect.
    pub fn needs_reconnect(&self, state: WifiState) -> (r: bool)
        ensures
            r == reconnect_needed(state),
    {
        state == WifiState::Disconnected
    }

    /// Go on with the state after reconnecting, if that was needed; `reconnected` is
    /// `Some(false)` if it failed.
    pub fn process(
        &self,
        ctx: &NetworkContext,
        reconnected: Option<bool>,
        state: WifiState,
    ) -> (r: NetworkResult)
        ensures
            r == after_reconnecting(*ctx, reconnected, state),
    {
        if matches!(reconnected, Some(false)) {
            return NetworkResult::Hold;
        }
        if ctx.init_network_services && state == WifiState::Connected {
            NetworkResult::Running(NetworkState::InitNetworkServices)
        } else {
            NetworkResult::Running(NetworkState::WifiWait)
        }
    }
}

/// What bringing up the services leads to.
pub open spec fn services_lead(
    before: NetworkContext,
    now: ClockReading,
    mqtt_ok: bool,
    after: NetworkContext,
    r: NetworkResult,
) -> bool {
    &&& r == (if mqtt_ok {
        NetworkResult::Running(NetworkState::BootValidation)
    } else {
        NetworkResult::Hold
    })
    &&& opt_text(after.formatted_time) == Some(now.day_first())
    &&& after == (NetworkContext {
        formatted_time: after.formatted_time,
        mqtt_ready: mqtt_ok,
        init_network_services: !mqtt_ok,
        ..before
    })
}

impl InitNetworkServices {
    /// The time zone to use: what flash holds, else the default.
    pub fn time_zone(&self, sw: &Switchboard, stored: Option<String>) -> (r: String)
        ensures
            r@ == stored_or(opt_text(stored), sw.default_tz_posix@),
    {
        match stored {
            Some(tz) => tz,
            None => sw.default_tz_posix.to_owned(),
        }
    }

    /// The name that the tower connects to the broker with.
    pub fn client_id(&self, sw: &Switchboard) -> (r: String)
        ensures
            r@ == "tower_"@ + sw.device_id@,
    {
        concat2("tower_", sw.device_id)
    }

    /// Go on after the clock was set and the broker was contacted.
    pub fn process(&self, ctx: &mut NetworkContext, now: &ClockReading, mqtt_ok: bool) -> (r:
        NetworkResult)
        requires
            now.wf(),
        ensures
            services_lead(*old(ctx), *now, mqtt_ok, *final(ctx), r),
    {
        ctx.formatted_time = Some(now.day_first_stamp());
        ctx.mqtt_ready = mqtt_ok;
        ctx.init_network_services = !mqtt_ok;
        if mqtt_ok {
            NetworkResult::Running(NetworkState::BootValidation)
        } else {
            NetworkResult::Hold
        }
    }
}

/// What validation does about the running image.
#[derive(Debug, Clone, Copy, PartialEq, Eq, Structural)]
pub enum BootDecision {
    /// The image was validated before.
    AlreadyValidated,
    /// The factory image needs no validation.
    Factory,
    /// Mark the image valid.
    MarkValid,
    /// Mark the image invalid and restart into the one before.
    RollBack,
}

/// A fresh image is judged once: the factory image is taken as it is, any other is
/// kept if the boot diagnostic passed.
pub open spec fn boot_decision(
    first_boot: Option<u8>,
    slot: Seq<char>,
    diagnostic_passed: bool,
) -> BootDecision {
    if first_boot is Some && first_boot != Some(1u8) {
        BootDecision::AlreadyValidated
    } else if slot == "factory"@ {
        BootDecision::Factory
    } else if diagnostic_passed {
        BootDecision::MarkValid
    } else {
        BootDecision::RollBack
    }
}

/// The report of an update that went through.
#[derive(Debug)]
pub struct FirmwareUpdateLog {
    pub message: &'static str,
    pub previous_version: String,
    pub current_version: String,
    pub notes: &'static str,
}

#[verifier::ext_equal]
pub struct UpdateLogView {
    pub message: Seq<char>,
    pub previous_version: Seq<char>,
    pub current_version: Seq<char>,
    pub notes: Seq<char>,
}

impl View for FirmwareUpdateLog {
    type V = UpdateLogView;

    open spec fn view(&self) -> UpdateLogView {
        UpdateLogView {
            message: self.message@,
            previous_version: self.previous_version@,
            current_version: self.current_version@,
            notes: self.notes@,
        }
    }
}

/// What to do about the version before the update.
#[derive(Debug)]
pub enum UpdateReport {
    /// None is stored.
    Nothing,
    /// What is stored is no version: forget it.
    Forget,
    /// Publish, and forget the version before if that succeeds.
    Publish(FirmwareUpdateLog),
}

/// What a stored version before the update leads to, given what it is as a version.
pub fn report_update(previous: Option<Option<String>>, current: &str) -> (r: UpdateReport)
    ensures
        match previous {
            None => r is Nothing,
            Some(None) => r is Forget,
            Some(Some(version)) => r matches UpdateReport::Publish(log) && log@
                == (UpdateLogView {
                message: "Firmware successfully updated"@,
                previous_version: version@,
                current_version: current@,
                notes: "No errors during update"@,
            }),
        },
{
    match previous {
        None => UpdateReport::Nothing,
        Some(None) => UpdateReport::Forget,
        Some(Some(version)) => UpdateReport::Publish(
            FirmwareUpdateLog {
                message: "Firmware successfully updated",
                previous_version: version,
                current_version: current.to_owned(),
                notes: "No errors during update",
            },
        ),
    }
}

/// What a validation has learnt so far.
#[derive(Debug, Clone, Copy, PartialEq, Eq, Structural)]
pub struct BootRun {
    /// The stored flag of an image that was not judged yet.
    pub first_boot: Option<u8>,
    /// Whether the boot diagnostic passed.
    pub passed: bool,
}

impl BootRun {
    pub fn new() -> (r: Self)
        ensures
            r.first_boot is None,
            !r.passed,
    {
        BootRun { first_boot: None, passed: false }
    }

    pub open spec fn is_fresh(self) -> bool {
        self.first_boot is None || self.first_boot == Some(1u8)
    }

    fn fresh(&self) -> (r: bool)
        ensures
            r == self.is_fresh(),
    {
        match self.first_boot {
            Some(flag) => flag == 1,
            None => true,
        }
    }
}

/// An answer that a validation was waiting for.
#[derive(Debug)]
pub enum BootInput {
    /// The stored flag of a first boot.
    FirstBoot { flag: Option<u8> },
    /// The version that flash now holds.
    Version { stored: Option<String> },
    /// How the boot diagnostic went.
    Diagnosed { passed: bool },
    /// The label of the running slot.
    Slot { label: String },
    /// The running image is marked valid.
    Marked,
    /// The board did not restart into the image before.
    StillRunning,
    /// The stored version before the update.
    Previous { stored: Option<String> },
    /// Whether the update was published.
    Published { ok: bool },
}

/// What a validation waits for.
#[derive(Debug)]
pub enum BootRequest {
    ReadVersion,
    /// The version that is to run is none.
    Failed(VersionError),
    /// Run the boot diagnostic for this version.
    Diagnose { version: String },
    ReadSlot,
    MarkValid,
    /// Mark the image invalid and restart into the one before.
    RollBack,
    ReadPrevious,
    Publish(FirmwareUpdateLog),
    /// Forget the version before the update if `forget` is set, subscribe to the
    /// command channel if `subscribe` is, and go on.
    Finish { forget: bool, subscribe: bool, next: NetworkResult },
}

/// The tower before or after a step of a validation.
#[verifier::ext_equal]
pub struct BootState {
    pub ctx: NetworkContext,
    pub run: BootRun,
    pub writes: Seq<NvsWriteView>,
}

/// The end of a validation.
pub open spec fn boot_finished(ctx: NetworkContext, forget: bool) -> BootRequest {
    BootRequest::Finish {
        forget,
        subscribe: ctx.switchboard.runtime.commands_enabled,
        next: NetworkResult::Running(NetworkState::Ota),
    }
}

/// The write that says that the image was judged.
pub open spec fn judged_write() -> NvsWriteView {
    NvsWriteView::U8 { key: NVS_KEY_FIRST_BOOT@, value: 0 }
}

/// The running version, as far as it is known.
pub open spec fn version_text(ctx: NetworkContext) -> Seq<char> {
    match ctx.current_version {
        Some(version) => version@,
        None => ""@,
    }
}

/// What an answer of a validation leads to.
pub open spec fn boot_leads(
    before: BootState,
    input: BootInput,
    after: BootState,
    r: BootRequest,
) -> bool {
    match input {
        BootInput::FirstBoot { flag } => {
            &&& r is ReadVersion
            &&& after == (BootState {
                run: BootRun { first_boot: flag, ..before.run },
                writes: before.writes.push(
                    NvsWriteView::Str { key: NVS_KEY_VERSION@, value: FIRMWARE_VERSION@ },
                ),
                ..before
            })
        },
        BootInput::Version { stored } => match running_version(opt_text(stored)) {
            Ok(version) => {
                &&& r matches BootRequest::Diagnose { version: v } && v@ == version
                &&& opt_text(after.ctx.current_version) == Some(version)
                &&& after == (BootState {
                    ctx: NetworkContext {
                        current_version: after.ctx.current_version,
                        ..before.ctx
                    },
                    ..before
                })
            },
            Err(e) => r == BootRequest::Failed(e) && after == before,
        },
        BootInput::Diagnosed { passed } => {
            &&& after == (BootState { run: BootRun { passed, ..before.run }, ..before })
            &&& r == (if before.run.is_fresh() {
                BootRequest::ReadSlot
            } else {
                boot_finished(before.ctx, false)
            })
        },
        BootInput::Slot { label } => match boot_decision(
            before.run.first_boot,
            label@,
            before.run.passed,
        ) {
            BootDecision::AlreadyValidated => r == boot_finished(before.ctx, false) && after
                == before,
            BootDecision::Factory => {
                &&& r == boot_finished(before.ctx, false)
                &&& after == (BootState { writes: before.writes.push(judged_write()), ..before })
            },
            BootDecision::MarkValid => r is MarkValid && after == before,
            BootDecision::RollBack => r is RollBack && after == before,
        },
        BootInput::Marked => {
            &&& r is ReadPrevious
            &&& after == (BootState { writes: before.writes.push(judged_write()), ..before })
        },
        BootInput::StillRunning => r == boot_finished(before.ctx, false) && after == before,
        BootInput::Previous { stored } => {
            &&& after == before
            &&& match opt_text(stored) {
                None => r == boot_finished(before.ctx, false),
                Some(text) => match semver_of(trim_of(text)) {
                    None => r == boot_finished(before.ctx, true),
                    Some(version) => r matches BootRequest::Publish(log) && log@
                        == (UpdateLogView {
                        message: "Firmware successfully updated"@,
                        previous_version: version,
                        current_version: version_text(before.ctx),
                        notes: "No errors during update"@,
                    }),
                },
            }
        },
        BootInput::Published { ok } => r == boot_finished(before.ctx, ok) && after == before,
    }
}

impl BootValidation {
    /// Take the version that flash now holds as the running one.
    fn note_version(&self, ctx: &mut NetworkContext, stored: Option<&str>) -> (r: Result<
        String,
        VersionError,
    >)
        ensures
            ({
                let chosen = running_version(opt_str_view(stored));
                match r {
                    Ok(version) => {
                        &&& chosen is Ok
                        &&& version@ == chosen->Ok_0
                        &&& opt_text(final(ctx).current_version) == Some(chosen->Ok_0)
                        &&& *final(ctx) == (NetworkContext {
                            current_version: final(ctx).current_version,
                            ..*old(ctx)
                        })
                    },
                    Err(e) => chosen == Err::<Seq<char>, VersionError>(e) && *final(ctx)
                        == *old(ctx),
                }
            }),
    {
        match current_version(stored, FIRMWARE_VERSION) {
            Ok(version) => {
                let kept = version.as_str().to_owned();
                ctx.current_version = Some(kept);
                Ok(version)
            },
            Err(e) => Err(e),
        }
    }

    /// Judge the running image.
    fn judge(&self, run: &BootRun, slot: &str) -> (r: BootDecision)
        ensures
            r == boot_decision(run.first_boot, slot@, run.passed),
    {
        if !run.fresh() {
            return BootDecision::AlreadyValidated;
        }
        if same_text(slot, "factory") {
            BootDecision::Factory
        } else if run.passed {
            BootDecision::MarkValid
        } else {
            BootDecision::RollBack
        }
    }

    /// What a validated update reports.
    fn update_report(&self, stored_previous: Option<&str>, current: &str) -> (r: UpdateReport)
        ensures
            match stored_previous {
                None => r is Nothing,
                Some(text) => match semver_of(trim_of(text@)) {
                    None => r is Forget,
                    Some(version) => r matches UpdateReport::Publish(log) && log@
                        == (UpdateLogView {
                        message: "Firmware successfully updated"@,
                        previous_version: version,
                        current_version: current@,
                        notes: "No errors during update"@,
                    }),
                },
            },
    {
        let previous = match stored_previous {
            Some(text) => Some(parse_version(trimmed(text))),
            None => None,
        };
        report_update(previous, current)
    }

    fn finish(&self, ctx: &NetworkContext, forget: bool) -> (r: BootRequest)
        ensures
            r == boot_finished(*ctx, forget),
    {
        BootRequest::Finish {
            forget,
            subscribe: ctx.switchboard.runtime.commands_enabled,
            next: NetworkResult::Running(NetworkState::Ota),
        }
    }

    /// Take an answer of a validation, and say what it waits for next. A validation
    /// begins with the flag of a first boot.
    pub fn process(
        &self,
        ctx: &mut NetworkContext,
        run: &mut BootRun,
        input: BootInput,
        journal: &mut Vec<NvsWrite>,
    ) -> (r: BootRequest)
        ensures
            boot_leads(
                (BootState { ctx: *old(ctx), run: *old(run), writes: writes(old(journal)@) }),
                input,
                (BootState { ctx: *final(ctx), run: *final(run), writes: writes(final(journal)@) }),
                r,
            ),
    {
        match input {
            BootInput::FirstBoot { flag } => {
                run.first_boot = flag;
                str_write(journal, NVS_KEY_VERSION, FIRMWARE_VERSION);
                BootRequest::ReadVersion
            },
            BootInput::Version { stored } => {
                let text = match &stored {
                    Some(text) => Some(text.as_str()),
                    None => None,
                };
                match self.note_version(ctx, text) {
                    Ok(version) => BootRequest::Diagnose { version },
                    Err(e) => BootRequest::Failed(e),
                }
            },
            BootInput::Diagnosed { passed } => {
                run.passed = passed;
                if run.fresh() {
                    BootRequest::ReadSlot
                } else {
                    self.finish(ctx, false)
                }
            },
            BootInput::Slot { label } => match self.judge(run, label.as_str()) {
                BootDecision::AlreadyValidated => self.finish(ctx, false),
                BootDecision::Factory => {
                    push_write(journal, NvsWrite::U8 { key: NVS_KEY_FIRST_BOOT, value: 0 });
                    self.finish(ctx, false)
                },
                BootDecision::MarkValid => BootRequest::MarkValid,
                BootDecision::RollBack => BootRequest::RollBack,
            },
            BootInput::Marked => {
                push_write(journal, NvsWrite::U8 { key: NVS_KEY_FIRST_BOOT, value: 0 });
                BootRequest::ReadPrevious
            },
            BootInput::StillRunning => self.finish(ctx, false),
            BootInput::Previous { stored } => {
                let text = match &stored {
                    Some(text) => Some(text.as_str()),
                    None => None,
                };
                let current = match &ctx.current_version {
                    Some(version) => version.as_str(),
                    None => "",
                };
                match self.update_report(text, current) {
                    UpdateReport::Nothing => self.finish(ctx, false),
                    UpdateReport::Forget => self.finish(ctx, true),
                    UpdateReport::Publish(log) => BootRequest::Publish(log),
                }
            },
            BootInput::Published { ok } => self.finish(ctx, ok),
        }
    }
}

/// An image that was accepted is not judged again, however its next boot goes.
pub proof fn an_accepted_image_stays(
    before: BootState,
    input: BootInput,
    after: BootState,
    r: BootRequest,
)
    requires
        boot_leads(before, input, after, r),
        before.run.first_boot == Some(0u8),
    ensures
        !(r is ReadSlot) && !(r is MarkValid) && !(r is RollBack),
{
}

/// Only a fresh image that is not the factory's, and whose boot diagnostic failed, is
/// ever rolled back.
pub proof fn only_a_fresh_update_is_rolled_back(
    before: BootState,
    input: BootInput,
    after: BootState,
    r: BootRequest,
)
    requires
        boot_leads(before, input, after, r),
        r is RollBack,
    ensures
        before.run.is_fresh(),
        !before.run.passed,
        input is Slot,
        input->label@ != "factory"@,
{
}

/// An image counts as judged only once the board has marked it valid, or where it is
/// the factory's.
pub proof fn the_verdict_follows_the_marking(
    before: BootState,
    input: BootInput,
    after: BootState,
    r: BootRequest,
)
    requires
        boot_leads(before, input, after, r),
        after.writes == before.writes.push(judged_write()),
    ensures
        input is Marked || (input is Slot && input->label@ == "factory"@),
{
    if input is FirstBoot {
        assert(after.writes.last() == judged_write());
    } else if !(input is Marked) && !(input is Slot && input->label@ == "factory"@) {
        assert(after.writes.len() == before.writes.len());
    }
}

/// The version before an update is forgotten only once the update was published, or
/// where what is stored is no version.
pub proof fn an_update_is_reported_before_it_is_forgotten(
    before: BootState,
    input: BootInput,
    after: BootState,
    r: BootRequest,
)
    requires
        boot_leads(before, input, after, r),
        r matches BootRequest::Finish { forget, .. } && forget,
    ensures
        match input {
            BootInput::Published { ok } => ok,
            BootInput::Previous { stored: Some(text) } => semver_of(trim_of(text@)) is None,
            _ => false,
        },
{
}

/// A sign of life.
#[derive(Debug)]
pub struct Heartbeat {
    pub topic: String,
    pub current_time: String,
    pub firmware_version: String,
}

/// How long the machine waits before it compares versions, in seconds.
pub const OTA_WAIT_SECS: u64 = 3;

/// What looking for an update does.
#[derive(Debug)]
pub enum OtaStep {
    /// Nothing: updates are off, or something is missing.
    Skip,
    /// Publish the heartbeat, then compare versions.
    Compare(Heartbeat),
}

/// A sign of life of this version.
pub fn heartbeat(device_id: &str, current_time: &str, version: &str) -> (r: Heartbeat)
    ensures
        r.topic@ == tower_topic(device_id@, "/status"@),
        r.current_time@ == current_time@,
        r.firmware_version@ == version@,
{
    Heartbeat {
        topic: status(device_id),
        current_time: current_time.to_owned(),
        firmware_version: version.to_owned(),
    }
}

/// What looking for an update leads to.
pub open spec fn ota_leads(ctx: NetworkContext, step: OtaStep, next: NetworkResult) -> bool {
    &&& next == NetworkResult::Running(NetworkState::WifiConnectIfDisconnected)
    &&& match step {
        OtaStep::Skip => !ctx.switchboard.effects.allow_ota || !ctx.mqtt_ready
            || ctx.current_version is None || ctx.formatted_time is None,
        OtaStep::Compare(beat) => {
            &&& ctx.switchboard.effects.allow_ota && ctx.mqtt_ready
            &&& ctx.current_version is Some && ctx.formatted_time is Some
            &&& beat.topic@ == tower_topic(ctx.switchboard.device_id@, "/status"@)
            &&& beat.current_time@ == ctx.formatted_time->0@
            &&& beat.firmware_version@ == ctx.current_version->0@
        },
    }
}

impl OTA {
    /// Whether to look for an update. The machine goes back to watching the
    /// connection either way.
    pub fn process(&self, ctx: &NetworkContext) -> (r: (OtaStep, NetworkResult))
        ensures
            ota_leads(*ctx, r.0, r.1),
    {
        let next = NetworkResult::Running(NetworkState::WifiConnectIfDisconnected);
        if !ctx.switchboard.effects.allow_ota || !ctx.mqtt_ready {
            return (OtaStep::Skip, next);
        }
        match (&ctx.current_version, &ctx.formatted_time) {
            (Some(version), Some(time)) => (
                OtaStep::Compare(
                    heartbeat(ctx.switchboard.device_id, time.as_str(), version.as_str()),
                ),
                next,
            ),
            _ => (OtaStep::Skip, next),
        }
    }

    /// The report of an update that failed.
    pub fn failed(&self, version: &str) -> (r: FirmwareUpdateLog)
        ensures
            r@ == (UpdateLogView {
                message: "Firmware update unsuccessful"@,
                previous_version: version@,
                current_version: version@,
                notes: "Did not update due to failures"@,
            }),
    {
        FirmwareUpdateLog {
            message: "Firmware update unsuccessful",
            previous_version: version.to_owned(),
            current_version: version.to_owned(),
            notes: "Did not update due to failures",
        }
    }
}

/// How often the boot diagnostic tries to publish.
pub const MAX_RETRIES: u8 = 3;

/// How long it lets the tower settle first, in milliseconds.
pub const SETTLE_MS: u32 = 5_000;

/// How long an attempt waits for the broker, how long between looks, and how long
/// after a failed publishing.
pub const CONNECT_WAIT_MS: u32 = 12_000;
pub const CONNECT_POLL_MS: u32 = 3_000;
pub const RETRY_PAUSE_MS: u32 = 1_000;

/// A boot diagnostic on its way.
#[derive(Debug, Clone, Copy, PartialEq, Eq, Structural)]
pub struct BootDiagnostic {
    /// The attempt it is in.
    pub attempt: u8,
    /// How long that attempt has waited for the broker.
    pub waited_ms: u32,
    /// The wait is over, and one last look decides on publishing.
    pub confirming: bool,
}

/// What a boot diagnostic does next.
#[derive(Debug, Clone, Copy, PartialEq, Eq, Structural)]
pub enum BootStep {
    /// Sleep, then look at the connection to the broker.
    Look { after_ms: u32 },
    /// Publish the boot log.
    Publish,
    Done { passed: bool },
}

impl BootDiagnostic {
    pub open spec fn wf(self) -> bool {
        &&& 1 <= self.attempt <= MAX_RETRIES
        &&& self.waited_ms <= CONNECT_WAIT_MS
        &&& self.waited_ms % CONNECT_POLL_MS == 0
    }

    /// What is left of the diagnostic's patience.
    pub open spec fn patience(self) -> int {
        (MAX_RETRIES - self.attempt) * 6 + (if self.confirming {
            0
        } else {
            1 + (CONNECT_WAIT_MS - self.waited_ms) / 3_000int
        })
    }

    /// The diagnostic that begins where Wi-Fi is connected.
    pub open spec fn begun(state: WifiState) -> Option<BootDiagnostic> {
        if state == WifiState::Connected {
            Some(BootDiagnostic { attempt: 1, waited_ms: 0, confirming: false })
        } else {
            None
        }
    }

    /// Begin, if Wi-Fi is connected once the tower has settled.
    pub fn begin(state: WifiState) -> (r: Option<BootDiagnostic>)
        ensures
            r == BootDiagnostic::begun(state),
            r is Some ==> r->0.wf(),
    {
        match state {
            WifiState::Connected => Some(
                BootDiagnostic { attempt: 1, waited_ms: 0, confirming: false },
            ),
            _ => None,
        }
    }

    /// The next attempt after a pause, if there is one.
    pub open spec fn retried(self, after_ms: u32) -> (BootDiagnostic, BootStep) {
        if self.attempt < MAX_RETRIES {
            (
                BootDiagnostic {
                    attempt: (self.attempt + 1) as u8,
                    waited_ms: 0,
                    confirming: false,
                },
                BootStep::Look { after_ms },
            )
        } else {
            (self, BootStep::Done { passed: false })
        }
    }

    /// The step after a look at the connection to the broker.
    pub open spec fn looked(self, connected: bool) -> (BootDiagnostic, BootStep) {
        if self.confirming {
            if connected {
                (self, BootStep::Publish)
            } else {
                self.retried(0)
            }
        } else if !connected && self.waited_ms < CONNECT_WAIT_MS {
            (
                BootDiagnostic {
                    waited_ms: (self.waited_ms + CONNECT_POLL_MS) as u32,
                    ..self
                },
                BootStep::Look { after_ms: CONNECT_POLL_MS },
            )
        } else {
            (BootDiagnostic { confirming: true, ..self }, BootStep::Look { after_ms: 0 })
        }
    }

    /// The step after an attempt to publish.
    pub open spec fn published(self, ok: bool) -> (BootDiagnostic, BootStep) {
        if ok {
            (self, BootStep::Done { passed: true })
        } else {
            self.retried(RETRY_PAUSE_MS)
        }
    }

    fn retry(&mut self, after_ms: u32) -> (r: BootStep)
        requires
            old(self).wf(),
        ensures
            final(self).wf(),
            (*final(self), r) == old(self).retried(after_ms),
    {
        if self.attempt < MAX_RETRIES {
            self.attempt = self.attempt + 1;
            self.waited_ms = 0;
            self.confirming = false;
            return BootStep::Look { after_ms };
        }
        BootStep::Done { passed: false }
    }

    /// Take a look at the connection to the broker.
    pub fn on_look(&mut self, connected: bool) -> (r: BootStep)
        requires
            old(self).wf(),
        ensures
            final(self).wf(),
            (*final(self), r) == old(self).looked(connected),
    {
        if self.confirming {
            if connected {
                return BootStep::Publish;
            }
            return self.retry(0);
        }
        if !connected && self.waited_ms < CONNECT_WAIT_MS {
            self.waited_ms = self.waited_ms + CONNECT_POLL_MS;
            return BootStep::Look { after_ms: CONNECT_POLL_MS };
        }
        self.confirming = true;
        BootStep::Look { after_ms: 0 }
    }

    /// Take the result of publishing.
    pub fn on_publish(&mut self, ok: bool) -> (r: BootStep)
        requires
            old(self).wf(),
        ensures
            final(self).wf(),
            (*final(self), r) == old(self).published(ok),
    {
        if ok {
            return BootStep::Done { passed: true };
        }
        self.retry(RETRY_PAUSE_MS)
    }
}

/// A boot diagnostic ends: every step that is followed by a look uses up some of its
/// patience, and there is never less than none of that left.
pub proof fn a_boot_diagnostic_ends(d: BootDiagnostic, connected: bool)
    requires
        d.wf(),
    ensures
        d.patience() >= 0,
        d.looked(connected).1 is Look ==> d.looked(connected).0.patience() < d.patience(),
        d.published(false).1 is Look ==> d.published(false).0.patience() < d.patience(),
{
}

/// A boot diagnostic passes only on a published boot log.
pub proof fn a_boot_diagnostic_passes_only_when_published(
    d: BootDiagnostic,
    connected: bool,
    ok: bool,
)
    ensures
        d.looked(connected).1 != (BootStep::Done { passed: true }),
        d.published(ok).1 == (BootStep::Done { passed: true }) <==> ok,
        d.looked(connected).1 is Publish ==> connected,
{
}

/// The report of a boot.
#[derive(Debug)]
pub struct BootLog {
    pub topic: String,
    pub message: &'static str,
    pub firmware_version: String,
    pub component: Component,
    pub notes: &'static str,
    pub reset_reason: &'static str,
}

/// The report of a boot with this version, for this reason.
pub fn boot_log(device_id: &str, version: &str, reason: ResetReason) -> (r: BootLog)
    ensures
        r.topic@ == tower_topic(device_id@, "/logs/boot"@),
        r.message@ == "Tower rebooted successfully"@,
        r.firmware_version@ == version@,
        r.component == Component::System,
        r.notes@ == "Scheduled reboot completed without errors"@,
        r.reset_reason@ == reason.notes_text(),
{
    BootLog {
        topic: logs_boot(device_id),
        message: "Tower rebooted successfully",
        firmware_version: version.to_owned(),
        component: Component::System,
        notes: "Scheduled reboot completed without errors",
        reset_reason: reason.boot_notes(),
    }
}

} // verus!
