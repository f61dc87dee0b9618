//! What the network machine may and may not do.

use vstd::prelude::*;

use crate::calendar::ClockReading;
use crate::logic::fsm::network::{
    after_reconnecting, boot_leads, ota_leads, reconnect_needed, services_lead, stored_or,
    wait_leads, BootDiagnostic, BootInput, BootRequest, BootState, BootStep, NetworkContext,
    NetworkResult, NetworkState, OtaStep, WifiState, NVS_KEY_FIRST_BOOT, NVS_KEY_VERSION,
};
use crate::std_text::trim_of;
use crate::storage::snapshot_store::{NvsImage, NvsWriteView};
use crate::text::opt_text;
use crate::topic::tower_topic;
use crate::version::{chosen_version, running_version, semver_of};

verus! {

/// For a fresh image, whose flag was never stored or is one, in a slot other than the
/// factory's, validation asks to mark it valid exactly where the boot diagnostic
/// passed, and to roll it back exactly where it failed. Nothing is written before.
pub proof fn a_fresh_update_is_kept_exactly_where_it_passed(
    before: BootState,
    label: String,
    after: BootState,
    r: BootRequest,
)
    requires
        boot_leads(before, BootInput::Slot { label }, after, r),
        before.run.first_boot is None || before.run.first_boot->0 == 1,
        label@ != "factory"@,
    ensures
        r is MarkValid <==> before.run.passed,
        r is RollBack <==> !before.run.passed,
        after == before,
{
}

/// No image is marked or rolled back for any other reason.
pub proof fn no_other_image_is_judged(
    before: BootState,
    input: BootInput,
    after: BootState,
    r: BootRequest,
)
    requires
        boot_leads(before, input, after, r),
    ensures
        r is MarkValid || r is RollBack ==> {
            &&& input is Slot && input->label@ != "factory"@
            &&& before.run.first_boot is None || before.run.first_boot == Some(1u8)
        },
        r is ReadSlot <==> input is Diagnosed && (before.run.first_boot is None
            || before.run.first_boot == Some(1u8)),
{
}

/// The factory image is taken as it is, however its diagnostic went, and counts as
/// judged; an image that was judged before is not judged again and leaves flash alone.
pub proof fn the_factory_image_is_taken_as_it_is(
    before: BootState,
    label: String,
    after: BootState,
    r: BootRequest,
    image: NvsImage,
)
    requires
        boot_leads(before, BootInput::Slot { label }, after, r),
    ensures
        ({
            let fresh = before.run.first_boot is None || before.run.first_boot == Some(1u8);
            &&& fresh && label@ == "factory"@ ==> {
                &&& r is Finish && !r->forget
                &&& image.replayed(after.writes).u8_at(NVS_KEY_FIRST_BOOT@) == Some(0u8)
            }
            &&& !fresh ==> r is Finish && !r->forget && after == before
        }),
{
    if after.writes.len() > before.writes.len() {
        assert(after.writes.drop_last() =~= before.writes);
    }
}

/// Over a whole validation the flag that flash held, the diagnostic and the slot decide,
/// whatever version the tower runs.
pub proof fn a_validation_goes_by_flag_diagnostic_and_slot(
    s: (BootState, BootState, BootState, BootState, BootState),
    flag: Option<u8>,
    stored: Option<String>,
    passed: bool,
    label: String,
    r: (BootRequest, BootRequest, BootRequest, BootRequest),
)
    requires
        boot_leads(s.0, BootInput::FirstBoot { flag }, s.1, r.0),
        boot_leads(s.1, BootInput::Version { stored }, s.2, r.1),
        boot_leads(s.2, BootInput::Diagnosed { passed }, s.3, r.2),
        boot_leads(s.3, BootInput::Slot { label }, s.4, r.3),
        flag is None || flag == Some(1u8),
        label@ != "factory"@,
    ensures
        r.0 is ReadVersion,
        r.2 is ReadSlot,
        r.3 is MarkValid <==> passed,
        r.3 is RollBack <==> !passed,
        s.4.writes == s.0.writes.push(
            NvsWriteView::Str { key: NVS_KEY_VERSION@, value: "1.1.5"@ },
        ),
{
}

/// A diagnostic of an image that was judged before changes nothing and ends the
/// validation.
pub proof fn a_judged_image_goes_on(
    before: BootState,
    passed: bool,
    after: BootState,
    r: BootRequest,
)
    requires
        boot_leads(before, BootInput::Diagnosed { passed }, after, r),
        before.run.first_boot is Some && before.run.first_boot != Some(1u8),
    ensures
        r is Finish && !r->forget,
        after.writes == before.writes && after.ctx == before.ctx,
{
}

/// Every validation that ends goes on to updates, and subscribes exactly where commands
/// are on. The version before an update is forgotten exactly once it was published, or
/// where what is stored is no version.
pub proof fn a_validation_ends_with_updates(
    before: BootState,
    input: BootInput,
    after: BootState,
    r: BootRequest,
)
    requires
        boot_leads(before, input, after, r),
    ensures
        r is Finish ==> {
            &&& r->next == NetworkResult::Running(NetworkState::Ota)
            &&& r->subscribe == before.ctx.switchboard.runtime.commands_enabled
        },
        input == (BootInput::Published { ok: true }) ==> r is Finish && r->forget,
        input == (BootInput::Published { ok: false }) ==> r is Finish && !r->forget,
        input is StillRunning ==> r is Finish && !r->forget,
        input is Previous && input->Previous_stored is None ==> r is Finish && !r->forget,
        input is Previous && input->Previous_stored is Some ==> (r is Finish <==> semver_of(
            trim_of(input->Previous_stored->0@),
        ) is None),
        input is Previous && r is Finish && input->Previous_stored is Some ==> r->forget,
        !(input is FirstBoot || input is Marked || input is Slot) ==> after.writes
            == before.writes,
        !(input is Version) ==> after.ctx == before.ctx,
{
}

/// The report of an update names the version before it, as stored, and the one that
/// runs.
pub proof fn an_update_report_names_both_versions(
    before: BootState,
    stored: Option<String>,
    after: BootState,
    r: BootRequest,
)
    requires
        boot_leads(before, BootInput::Previous { stored }, after, r),
        r is Publish,
    ensures
        stored is Some,
        semver_of(trim_of(stored->0@)) == Some(r->Publish_0@.previous_version),
        before.ctx.current_version matches Some(version) ==> r->Publish_0@.current_version
            == version@,
{
}

/// An image that the board marked valid counts as judged, for good.
pub proof fn a_marked_image_counts_as_judged(
    before: BootState,
    after: BootState,
    r: BootRequest,
    image: NvsImage,
)
    requires
        boot_leads(before, BootInput::Marked, after, r),
    ensures
        r is ReadPrevious,
        image.replayed(after.writes).u8_at(NVS_KEY_FIRST_BOOT@) == Some(0u8),
        after.run == before.run && after.ctx == before.ctx,
{
    assert(after.writes.drop_last() =~= before.writes);
}

/// The connection is looked at exactly where thirty seconds have passed since the last
/// look, and that look is the new last one; nothing else changes.
pub proof fn the_connection_is_looked_at_in_time(
    before: NetworkContext,
    now: u64,
    after: NetworkContext,
    r: NetworkResult,
)
    requires
        wait_leads(before, now, after, r),
    ensures
        r == NetworkResult::Running(NetworkState::WifiConnectIfDisconnected) <==> now
            >= before.timer + 30_000_000_000,
        r == NetworkResult::Hold <==> now < before.timer + 30_000_000_000,
        r is Running ==> after.timer == now,
        r is Hold ==> after == before,
        after.mqtt_ready == before.mqtt_ready,
        after.init_network_services == before.init_network_services,
{
}

/// A lost connection is made anew, and no other is. A failed attempt is repeated; the
/// services are brought up exactly where they are yet to be and the connection stands.
pub proof fn a_lost_connection_is_made_anew(
    ctx: NetworkContext,
    reconnected: Option<bool>,
    state: WifiState,
)
    ensures
        reconnect_needed(WifiState::Disconnected),
        !reconnect_needed(WifiState::Connected) && !reconnect_needed(WifiState::Connecting),
        after_reconnecting(ctx, reconnected, state) is Hold <==> reconnected == Some(false),
        after_reconnecting(ctx, reconnected, state) == NetworkResult::Running(
            NetworkState::InitNetworkServices,
        ) <==> reconnected != Some(false) && ctx.init_network_services && state is Connected,
        after_reconnecting(ctx, reconnected, state) == NetworkResult::Running(
            NetworkState::WifiWait,
        ) <==> reconnected != Some(false) && !(ctx.init_network_services && state is Connected),
{
}

/// The services are up exactly once the broker was reached: then they are not brought
/// up again and the image is validated, else they are tried again.
pub proof fn services_are_brought_up_once(
    before: NetworkContext,
    now: ClockReading,
    mqtt_ok: bool,
    after: NetworkContext,
    r: NetworkResult,
)
    requires
        services_lead(before, now, mqtt_ok, after, r),
    ensures
        r == NetworkResult::Running(NetworkState::BootValidation) <==> mqtt_ok,
        r is Hold <==> !mqtt_ok,
        after.mqtt_ready == mqtt_ok,
        after.init_network_services == !mqtt_ok,
        after.formatted_time is Some,
        after.timer == before.timer && after.current_version == before.current_version,
        after.switchboard == before.switchboard,
{
}

/// What was stored goes before the default, and the default is used only where nothing
/// was.
pub proof fn stored_settings_go_first(stored: Option<Seq<char>>, default: Seq<char>)
    ensures
        stored matches Some(text) ==> stored_or(stored, default) == text,
        stored is None ==> stored_or(stored, default) == default,
{
}

/// An update is looked for exactly where updates are on, the broker is reached, and
/// version and time are known; the machine goes back to watching the connection either
/// way.
pub proof fn updates_are_looked_for_where_they_can_be(
    ctx: NetworkContext,
    step: OtaStep,
    next: NetworkResult,
)
    requires
        ota_leads(ctx, step, next),
    ensures
        step is Compare <==> ctx.switchboard.effects.allow_ota && ctx.mqtt_ready
            && ctx.current_version is Some && ctx.formatted_time is Some,
        step is Compare ==> step->Compare_0.topic@ == tower_topic(
            ctx.switchboard.device_id@,
            "/status"@,
        ),
        step is Compare ==> step->Compare_0.firmware_version@ == ctx.current_version->0@
            && step->Compare_0.current_time@ == ctx.formatted_time->0@,
        next == NetworkResult::Running(NetworkState::WifiConnectIfDisconnected),
{
}

/// A boot diagnostic begins exactly on a standing connection, in its first attempt.
pub proof fn a_boot_diagnostic_begins_connected(state: WifiState)
    ensures
        BootDiagnostic::begun(state) is Some <==> state is Connected,
        BootDiagnostic::begun(state) matches Some(d) ==> d.attempt == 1 && d.waited_ms == 0
            && !d.confirming,
{
}

/// What flash holds is the version that runs; where it holds none, the image's own is.
/// There is none where what flash holds is no version, or the image's own is none.
pub proof fn the_stored_version_goes_first(
    stored: Option<Option<Seq<char>>>,
    default: Option<Seq<char>>,
)
    ensures
        ({
            let chosen = chosen_version(stored, default);
            &&& chosen is Ok <==> default is Some && stored != Some(None::<Seq<char>>)
            &&& chosen matches Ok(version) ==> (if stored is Some {
                stored->0 == Some(version)
            } else {
                default == Some(version)
            })
            &&& chosen matches Err(e) ==> (e is Stored <==> stored == Some(None::<Seq<char>>))
        }),
{
}

/// A version that runs is noted and handed to the diagnostic; without one the validation
/// fails, and nothing changes.
pub proof fn a_running_version_is_noted(
    before: BootState,
    stored: Option<String>,
    after: BootState,
    r: BootRequest,
)
    requires
        boot_leads(before, BootInput::Version { stored }, after, r),
    ensures
        ({
            let running = running_version(opt_text(stored));
            &&& r is Diagnose <==> running is Ok
            &&& r is Failed <==> running is Err
            &&& r matches BootRequest::Diagnose { version } ==> version@ == running->Ok_0
                && after.ctx.current_version is Some && after.ctx.current_version->0@
                == running->Ok_0
            &&& r is Failed ==> after == before
            &&& after.run == before.run && after.writes == before.writes
        }),
{
}

/// A look at the broker publishes exactly once the wait is over and the connection
/// stands. An attempt waits twelve seconds at most, three at a time; the third that ends
/// without a connection is the last.
pub proof fn a_look_moves_a_boot_diagnostic_on(d: BootDiagnostic, connected: bool)
    requires
        d.wf(),
    ensures
        ({
            let (next, step) = d.looked(connected);
            &&& step is Publish <==> d.confirming && connected
            &&& step == (BootStep::Done { passed: false }) <==> d.confirming && !connected
                && d.attempt == 3
            &&& d.confirming && !connected && d.attempt < 3 ==> next.attempt == d.attempt + 1
                && next.waited_ms == 0 && !next.confirming
            &&& !d.confirming ==> next.attempt == d.attempt
            &&& !d.confirming && (connected || d.waited_ms == 12_000) ==> next.confirming
                && next.waited_ms == d.waited_ms && step == (BootStep::Look { after_ms: 0 })
            &&& !d.confirming && !connected && d.waited_ms < 12_000 ==> !next.confirming
                && next.waited_ms == d.waited_ms + 3_000 && step == (BootStep::Look {
                after_ms: 3_000,
            })
        }),
{
}

/// A boot log that could not be published is tried again in the next attempt, a second
/// later, and the third failure is the last.
pub proof fn a_failed_boot_log_is_tried_again(d: BootDiagnostic, ok: bool)
    requires
        d.wf(),
    ensures
        ({
            let (next, step) = d.published(ok);
            &&& ok <==> step == (BootStep::Done { passed: true })
            &&& !ok && d.attempt == 3 <==> step == (BootStep::Done { passed: false })
            &&& !ok && d.attempt < 3 ==> step == (BootStep::Look { after_ms: 1_000 })
                && next.attempt == d.attempt + 1 && next.waited_ms == 0 && !next.confirming
        }),
{
}

} // verus!
