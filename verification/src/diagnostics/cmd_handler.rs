//! The admin command channel: `{id}/admin/cmd`, answered on `{id}/admin/cmd/resp`.

use vstd::prelude::*;
use vstd::utf8::{decode_utf8, valid_utf8};

use crate::config::switchboard::{AdminSwitches, AdminTestsSwitches, BootHomingSwitches};
use crate::config_manager::{
    ConfigManager, RuntimeMode, NVS_KEY_OVERRIDES, NVS_KEY_RUNTIME_MODE,
};
use crate::diagnostics::admin_mode::{
    publication, publish_if, published_if, Publication, PublicationView,
};
use crate::diagnostics::listener::payload_text;
use crate::ieee::Single;
use crate::json::object_of;
use crate::logic::daily_reset::opt_str_view;
use crate::logic::encoder_fault::{persist_position, position_writes};
use crate::logic::types::{Direction, MotionMode};
use crate::std_text::lowercase_of;
use crate::storage::snapshot_store::{push_write, writes, NvsWrite, NvsWriteView};
use crate::text::{bool_str, bool_text, concat2, concat3, opt_text, same_text, text_pairs};

verus! {

pub open spec fn cmd_topic(device_id: Seq<char>) -> Seq<char> {
    device_id + "/admin/cmd"@
}

pub open spec fn cmd_resp_topic(device_id: Seq<char>) -> Seq<char> {
    device_id + "/admin/cmd/resp"@
}

/// Where commands arrive.
pub fn topic_cmd(device_id: &str) -> (r: String)
    ensures
        r@ == cmd_topic(device_id@),
{
    concat2(device_id, "/admin/cmd")
}

/// Where results go.
pub fn topic_cmd_resp(device_id: &str) -> (r: String)
    ensures
        r@ == cmd_resp_topic(device_id@),
{
    concat2(device_id, "/admin/cmd/resp")
}

/// A result never arrives as a command.
pub proof fn results_are_not_commands(device_id: Seq<char>)
    ensures
        cmd_topic(device_id) != cmd_resp_topic(device_id),
{
    reveal_strlit("/admin/cmd");
    reveal_strlit("/admin/cmd/resp");
    assert(cmd_topic(device_id).len() != cmd_resp_topic(device_id).len());
}

/// A command.
#[derive(Debug)]
pub enum Command {
    RunTest { test: String },
    GetStatus,
    SetMode { mode: String },
    /// The value is a JSON text.
    SetConfig { key: String, value: String },
    GetConfig { key: Option<String> },
    ResetConfig,
}

/// Who answers what.
#[derive(Debug, Clone, Copy)]
pub struct Channel<'a> {
    pub device_id: &'a str,
    /// Results are published.
    pub publish: bool,
}

impl<'a> Channel<'a> {
    pub open spec fn says(self, payload: Seq<char>) -> Option<PublicationView> {
        published_if(self.publish, cmd_resp_topic(self.device_id@), payload)
    }

    fn say(&self, payload: &str) -> (r: Option<Publication>)
        ensures
            publication(r) == self.says(payload@),
    {
        let topic = topic_cmd_resp(self.device_id);
        publish_if(self.publish, topic.as_str(), payload)
    }
}

pub open spec fn result_payload(cmd: Seq<char>, test: Seq<char>, result: Seq<char>) -> Seq<char> {
    "{\"cmd\":\""@ + cmd + "\",\"test\":\""@ + test + "\",\"result\":\""@ + result + "\"}"@
}

/// Publish the result of a command.
pub fn publish_result(channel: &Channel<'_>, cmd: &str, test: &str, result: &str) -> (r: Option<
    Publication,
>)
    ensures
        publication(r) == channel.says(result_payload(cmd@, test@, result@)),
{
    let payload = concat3("{\"cmd\":\"", cmd, "\",\"test\":\"");
    let payload = concat3(payload.as_str(), test, "\",\"result\":\"");
    let payload = concat3(payload.as_str(), result, "\"}");
    channel.say(payload.as_str())
}

pub open spec fn error_payload(error_type: Seq<char>, message: Seq<char>) -> Seq<char> {
    "{\"error\":\""@ + error_type + "\",\"msg\":\""@ + message + "\"}"@
}

/// Publish that a message was not a command.
pub fn publish_error(channel: &Channel<'_>, error_type: &str, msg: &str) -> (r: Option<
    Publication,
>)
    ensures
        publication(r) == channel.says(error_payload(error_type@, msg@)),
{
    let payload = concat3("{\"error\":\"", error_type, "\",\"msg\":\"");
    let payload = concat3(payload.as_str(), msg, "\"}");
    channel.say(payload.as_str())
}

/// What a message turned out to be.
#[derive(Debug)]
pub enum Received {
    /// There is none, or it is for another channel: nothing was processed.
    Nothing,
    /// It is not text: publish that, and it was processed.
    NotText(Option<Publication>),
    /// It is this text.
    Text(String),
}

/// What taking a message leads to.
pub open spec fn received_leads(
    channel: Channel<'_>,
    message: Option<(&str, &[u8])>,
    r: Received,
) -> bool {
    match message {
        None => r is Nothing,
        Some((topic, payload)) => if topic@ != cmd_topic(channel.device_id@) {
            r is Nothing
        } else if !valid_utf8(payload@) {
            r matches Received::NotText(p) && publication(p) == channel.says(
                error_payload(
                    "invalid_encoding"@,
                    "Command payload must be UTF-8"@,
                ),
            )
        } else {
            r matches Received::Text(text) && text@ == decode_utf8(payload@)
        },
    }
}

/// Handles the admin command channel.
#[derive(Debug, Clone, Copy)]
pub struct CommandHandler;

/// What setting or asking for configuration leads to.
#[derive(Debug)]
pub enum Handled {
    /// Publish the result.
    Done(Option<Publication>),
    /// The command failed with this message, and nothing is published.
    Failed(String),
    /// Run the named test.
    RunTest(String),
    /// Ask for the tower's state.
    ReportStatus,
}

impl CommandHandler {
    /// The topic to subscribe to.
    pub fn init(device_id: &str) -> (r: String)
        ensures
            r@ == cmd_topic(device_id@),
    {
        topic_cmd(device_id)
    }

    /// Take a message, if there is one.
    pub fn process_one(channel: &Channel<'_>, message: Option<(&str, &[u8])>) -> (r: Received)
        ensures
            received_leads(*channel, message, r),
    {
        match message {
            None => Received::Nothing,
            Some((topic, payload)) => {
                let expected = topic_cmd(channel.device_id);
                if !same_text(topic, expected.as_str()) {
                    return Received::Nothing;
                }
                match payload_text(payload) {
                    Some(text) => Received::Text(text),
                    None => Received::NotText(
                        publish_error(
                            channel,
                            "invalid_encoding",
                            "Command payload must be UTF-8",
                        ),
                    ),
                }
            },
        }
    }

    /// Publish that a text was not a command, for the reason given.
    pub fn not_a_command(channel: &Channel<'_>, reason: &str) -> (r: Option<Publication>)
        ensures
            publication(r) == channel.says(
                error_payload("parse_error"@, "Invalid JSON: "@ + reason@),
            ),
    {
        let message = concat2("Invalid JSON: ", reason);
        publish_error(channel, "parse_error", message.as_str())
    }

    /// Set the mode of the next runs.
    pub fn set_mode(
        mode_str: &str,
        config: &ConfigManager,
        journal: &mut Vec<NvsWrite>,
    ) -> (r: Result<String, String>)
        ensures
            match RuntimeMode::named(lowercase_of(mode_str@)) {
                Some(mode) => {
                    &&& r matches Ok(text) && text@ == "Runtime mode set to: "@ + mode.text()
                    &&& writes(final(journal)@) == (if config.persist_nvs {
                        writes(old(journal)@).push(
                            NvsWriteView::Str { key: NVS_KEY_RUNTIME_MODE@, value: mode.text() },
                        )
                    } else {
                        writes(old(journal)@)
                    })
                },
                None => {
                    &&& r matches Err(text) && text@ == invalid_mode(mode_str@)
                    &&& writes(final(journal)@) == writes(old(journal)@)
                },
            },
    {
        match RuntimeMode::from_str(mode_str) {
            Some(mode) => {
                match config.set_runtime_mode(mode) {
                    Some(name) => {
                        push_write(
                            journal,
                            NvsWrite::Str { key: NVS_KEY_RUNTIME_MODE, value: name.to_owned() },
                        );
                    },
                    None => {},
                }
                Ok(concat2("Runtime mode set to: ", mode.as_str()))
            },
            None => Err(
                concat3("Invalid mode: ", mode_str, ". Must be 'admin' or 'normal'"),
            ),
        }
    }

    /// Override a configuration value.
    pub fn set_config(
        key: &str,
        value: &str,
        config: &mut ConfigManager,
        journal: &mut Vec<NvsWrite>,
    ) -> (r: String)
        requires
            old(config).wf(),
        ensures
            r@ == "Config '"@ + key@ + "' updated"@,
            final(config).wf(),
            final(config).persist_nvs == old(config).persist_nvs,
            final(config).built_in == old(config).built_in,
            final(config).overrides@ == old(config).overrides@.insert(key@, value@),
            saved(*final(config), writes(old(journal)@), writes(final(journal)@)),
    {
        save(config.set_runtime(key, value), journal);
        concat3("Config '", key, "' updated")
    }

    /// Report the value of one key, or all overrides.
    pub fn get_config(key: Option<&str>, config: &ConfigManager) -> (r: String)
        requires
            config.wf(),
        ensures
            r@ == config_report(*config, opt_str_view(key)),
    {
        match key {
            Some(k) => match config.get(k) {
                Some(value) => {
                    let text = concat3("{\"key\":\"", k, "\",\"value\":");
                    concat3(text.as_str(), value, "}")
                },
                None => concat3(
                    "{\"key\":\"",
                    k,
                    "\",\"value\":null,\"note\":\"No override found, using .env/default\"}",
                ),
            },
            None => config.get_all_overrides(),
        }
    }

    /// Take every override back.
    pub fn reset_config(config: &mut ConfigManager, journal: &mut Vec<NvsWrite>) -> (r: String)
        requires
            old(config).wf(),
        ensures
            r@ == "All runtime config overrides cleared"@,
            final(config).wf(),
            final(config).persist_nvs == old(config).persist_nvs,
            final(config).built_in == old(config).built_in,
            final(config).overrides@ == Map::<Seq<char>, Seq<char>>::empty(),
            saved(*final(config), writes(old(journal)@), writes(final(journal)@)),
    {
        save(config.reset_to_defaults(), journal);
        "All runtime config overrides cleared".to_owned()
    }

    /// The tower's state. `location` and `wifi_state` are texts.
    pub fn get_status(location: &str, mqtt_connected: bool, wifi_state: &str) -> (r: String)
        ensures
            r@ == "{\"location\":"@ + location@ + ",\"mqtt_connected\":"@ + bool_text(
                mqtt_connected,
            ) + ",\"wifi_state\":\""@ + wifi_state@ + "\"}"@,
    {
        let text = concat3("{\"location\":", location, ",\"mqtt_connected\":");
        let text = concat3(text.as_str(), bool_str(mqtt_connected), ",\"wifi_state\":\"");
        concat3(text.as_str(), wifi_state, "\"}")
    }

    /// Publish the tower's state.
    pub fn report_status(channel: &Channel<'_>, status: &str) -> (r: Option<Publication>)
        ensures
            publication(r) == channel.says(result_payload("get_status"@, ""@, status@)),
    {
        publish_result(channel, "get_status", "", status)
    }

    /// Execute a command.
    pub fn execute(
        channel: &Channel<'_>,
        command: Command,
        config: &mut ConfigManager,
        journal: &mut Vec<NvsWrite>,
    ) -> (r: Handled)
        requires
            old(config).wf(),
        ensures
            final(config).wf(),
            executed(
                *channel,
                command,
                *old(config),
                writes(old(journal)@),
                *final(config),
                writes(final(journal)@),
                r,
            ),
    {
        match command {
            Command::RunTest { test } => Handled::RunTest(test),
            Command::GetStatus => Handled::ReportStatus,
            Command::SetMode { mode } => {
                match CommandHandler::set_mode(mode.as_str(), config, journal) {
                    Ok(result) => Handled::Done(
                        publish_result(channel, "set_mode", mode.as_str(), result.as_str()),
                    ),
                    Err(message) => Handled::Failed(message),
                }
            },
            Command::SetConfig { key, value } => {
                let result = CommandHandler::set_config(
                    key.as_str(),
                    value.as_str(),
                    config,
                    journal,
                );
                Handled::Done(
                    publish_result(channel, "set_config", key.as_str(), result.as_str()),
                )
            },
            Command::GetConfig { key } => {
                let wanted = match &key {
                    Some(k) => Some(k.as_str()),
                    None => None,
                };
                let result = CommandHandler::get_config(wanted, config);
                let name = match wanted {
                    Some(k) => k,
                    None => "all",
                };
                Handled::Done(publish_result(channel, "get_config", name, result.as_str()))
            },
            Command::ResetConfig => {
                let result = CommandHandler::reset_config(config, journal);
                Handled::Done(publish_result(channel, "reset_config", "", result.as_str()))
            },
        }
    }

    /// Begin a test: only it is on, whatever admin mode is set to. A name that is no
    /// test's gives the result that says so.
    pub fn run_test(channel: &Channel<'_>, test_name: &str, admin: &AdminSwitches) -> (r: Result<
        (AdminSwitches, Option<Publication>),
        String,
    >)
        ensures
            run_test_leads(*channel, test_name@, *admin, r),
    {
        let mut cfg = *admin;
        cfg.tests = AdminTestsSwitches {
            motor_test: same_text(test_name, "motor"),
            encoder_test: same_text(test_name, "encoder"),
            persistence_test: same_text(test_name, "persistence") || same_text(test_name, "nvs"),
            wifi_mqtt_test: same_text(test_name, "wifi_mqtt") || same_text(test_name, "wifi"),
        };
        cfg.run_recovery_on_start = false;
        cfg.run_homing_on_start = false;
        cfg.stop_after = false;
        if !cfg.tests.motor_test && !cfg.tests.encoder_test && !cfg.tests.persistence_test
            && !cfg.tests.wifi_mqtt_test {
            return Err(concat2("Unknown test: ", test_name));
        }
        let payload = concat3("{\"status\":\"starting\",\"test\":\"", test_name, "\"}");
        Ok((cfg, channel.say(payload.as_str())))
    }

    /// Go on after a test ran: a test that moved the motor homes, if homing is on.
    pub fn test_ran(
        channel: &Channel<'_>,
        test_name: &str,
        cfg: &AdminSwitches,
        homing: &BootHomingSwitches,
        failure: Option<&str>,
    ) -> (r: TestStep)
        ensures
            test_ran_leads(*channel, test_name@, *cfg, *homing, opt_str_view(failure), r),
    {
        let head = concat2("Test '", test_name);
        let result = match failure {
            None => concat2(
                head.as_str(),
                "' completed successfully. Check logs for PASS/FAIL details.",
            ),
            Some(e) => concat3(head.as_str(), "' execution failed: ", e),
        };
        if (cfg.tests.motor_test || cfg.tests.encoder_test) && homing.enabled {
            return TestStep::Rehome { dir: homing.dir, result };
        }
        finished(channel, test_name, result)
    }

    /// Finish a test that moved the motor, after the search for home.
    pub fn test_rehomed(
        channel: &Channel<'_>,
        test_name: &str,
        result: &str,
        reading: &HomingReading,
        persist: bool,
        actual_heading: &mut Single,
        journal: &mut Vec<NvsWrite>,
    ) -> (r: TestStep)
        ensures
            rehomed_leads(
                *channel,
                test_name@,
                result@,
                *reading,
                persist,
                (TestPlace { heading: *old(actual_heading), writes: writes(old(journal)@) }),
                (TestPlace { heading: *final(actual_heading), writes: writes(final(journal)@) }),
                r,
            ),
    {
        if !reading.found {
            return finished(
                channel,
                test_name,
                concat2(
                    result,
                    ". WARNING: Re-homing failed - position may be incorrect!",
                ),
            );
        }
        *actual_heading = reading.location;
        persist_position(
            persist,
            reading.location,
            reading.mode,
            reading.encoder_ticks,
            journal,
        );
        finished(channel, test_name, concat2(result, ". Re-homed successfully."))
    }

    /// Publish the result of a test.
    pub fn report_test(channel: &Channel<'_>, test_name: &str, result: &str) -> (r: Option<
        Publication,
    >)
        ensures
            publication(r) == channel.says(result_payload("run_test"@, test_name@, result@)),
    {
        publish_result(channel, "run_test", test_name, result)
    }
}

pub open spec fn invalid_mode(mode: Seq<char>) -> Seq<char> {
    "Invalid mode: "@ + mode + ". Must be 'admin' or 'normal'"@
}

/// The journal tells what to save of the overrides, if they are persisted.
pub open spec fn saved(
    config: ConfigManager,
    before: Seq<NvsWriteView>,
    after: Seq<NvsWriteView>,
) -> bool {
    if config.persist_nvs {
        &&& after.len() == before.len() + 1
        &&& after.drop_last() == before
        &&& after.last() matches NvsWriteView::Str { key, value } && key == NVS_KEY_OVERRIDES@
            && config.saves(value)
    } else {
        after == before
    }
}

fn save(json: Option<String>, journal: &mut Vec<NvsWrite>)
    ensures
        writes(final(journal)@) == (match opt_text(json) {
            Some(text) => writes(old(journal)@).push(
                NvsWriteView::Str { key: NVS_KEY_OVERRIDES@, value: text },
            ),
            None => writes(old(journal)@),
        }),
        json is Some ==> writes(final(journal)@).drop_last() == writes(old(journal)@),
{
    match json {
        Some(value) => {
            push_write(journal, NvsWrite::Str { key: NVS_KEY_OVERRIDES, value });
            assert(writes(journal@).drop_last() =~= writes(old(journal)@));
        },
        None => {},
    }
}

/// The report of the value of one key, or of all overrides.
pub open spec fn config_report(config: ConfigManager, key: Option<Seq<char>>) -> Seq<char> {
    match key {
        Some(k) => match config.value(k) {
            Some(json) => "{\"key\":\""@ + k + "\",\"value\":"@ + json + "}"@,
            None => "{\"key\":\""@ + k
                + "\",\"value\":null,\"note\":\"No override found, using .env/default\"}"@,
        },
        None => object_of(text_pairs(config.overrides.pairs@)),
    }
}

/// What a command leads to.
pub open spec fn executed(
    channel: Channel<'_>,
    command: Command,
    before: ConfigManager,
    written: Seq<NvsWriteView>,
    after: ConfigManager,
    journal: Seq<NvsWriteView>,
    r: Handled,
) -> bool {
    match command {
        Command::RunTest { test } => r == Handled::RunTest(test) && after == before && journal
            == written,
        Command::GetStatus => r is ReportStatus && after == before && journal == written,
        Command::SetMode { mode } => after == before && (match RuntimeMode::named(
            lowercase_of(mode@),
        ) {
            Some(m) => {
                &&& r matches Handled::Done(p) && publication(p) == channel.says(
                    result_payload(
                        "set_mode"@,
                        mode@,
                        "Runtime mode set to: "@ + m.text(),
                    ),
                )
                &&& journal == (if before.persist_nvs {
                    written.push(
                        NvsWriteView::Str { key: NVS_KEY_RUNTIME_MODE@, value: m.text() },
                    )
                } else {
                    written
                })
            },
            None => {
                &&& r matches Handled::Failed(message) && message@ == invalid_mode(mode@)
                &&& journal == written
            },
        }),
        Command::SetConfig { key, value } => {
            &&& r matches Handled::Done(p) && publication(p) == channel.says(
                result_payload("set_config"@, key@, "Config '"@ + key@ + "' updated"@),
            )
            &&& after.overrides@ == before.overrides@.insert(key@, value@)
            &&& after.persist_nvs == before.persist_nvs
            &&& after.built_in == before.built_in
            &&& saved(after, written, journal)
        },
        Command::GetConfig { key } => {
            &&& after == before
            &&& journal == written
            &&& r matches Handled::Done(p) && publication(p) == channel.says(
                result_payload(
                    "get_config"@,
                    match opt_text(key) {
                        Some(k) => k,
                        None => "all"@,
                    },
                    config_report(before, opt_text(key)),
                ),
            )
        },
        Command::ResetConfig => {
            &&& r matches Handled::Done(p) && publication(p) == channel.says(
                result_payload(
                    "reset_config"@,
                    ""@,
                    "All runtime config overrides cleared"@,
                ),
            )
            &&& after.overrides@ == Map::<Seq<char>, Seq<char>>::empty()
            &&& after.persist_nvs == before.persist_nvs
            &&& after.built_in == before.built_in
            &&& saved(after, written, journal)
        },
    }
}

/// The tests of a name.
pub open spec fn tests_named(name: Seq<char>) -> AdminTestsSwitches {
    AdminTestsSwitches {
        motor_test: name == "motor"@,
        encoder_test: name == "encoder"@,
        persistence_test: name == "persistence"@ || name == "nvs"@,
        wifi_mqtt_test: name == "wifi_mqtt"@ || name == "wifi"@,
    }
}

pub open spec fn some_test(tests: AdminTestsSwitches) -> bool {
    tests.motor_test || tests.encoder_test || tests.persistence_test || tests.wifi_mqtt_test
}

pub open spec fn moves_motor(tests: AdminTestsSwitches) -> bool {
    tests.motor_test || tests.encoder_test
}

/// Admin mode for these tests alone.
pub open spec fn single_test(admin: AdminSwitches, tests: AdminTestsSwitches) -> AdminSwitches {
    AdminSwitches {
        tests,
        run_recovery_on_start: false,
        run_homing_on_start: false,
        stop_after: false,
        ..admin
    }
}

/// What beginning a test leads to.
pub open spec fn run_test_leads(
    channel: Channel<'_>,
    test: Seq<char>,
    admin: AdminSwitches,
    r: Result<(AdminSwitches, Option<Publication>), String>,
) -> bool {
    let tests = tests_named(test);
    match r {
        Ok((cfg, started)) => {
            &&& some_test(tests)
            &&& cfg == single_test(admin, tests)
            &&& publication(started) == channel.says(started_payload(test))
        },
        Err(result) => !some_test(tests) && result@ == "Unknown test: "@ + test,
    }
}

pub open spec fn started_payload(test: Seq<char>) -> Seq<char> {
    "{\"status\":\"starting\",\"test\":\""@ + test + "\"}"@
}

pub open spec fn completed_payload(test: Seq<char>, result: Seq<char>) -> Seq<char> {
    "{\"status\":\"completed\",\"test\":\""@ + test + "\",\"result\":\""@ + result + "\"}"@
}

/// The result of a test that ran, or failed to.
pub open spec fn test_result(test: Seq<char>, failure: Option<Seq<char>>) -> Seq<char> {
    match failure {
        None => "Test '"@ + test
            + "' completed successfully. Check logs for PASS/FAIL details."@,
        Some(e) => "Test '"@ + test + "' execution failed: "@ + e,
    }
}

/// The result of a test after the search for home.
pub open spec fn rehomed_result(result: Seq<char>, found: bool) -> Seq<char> {
    if found {
        result + ". Re-homed successfully."@
    } else {
        result + ". WARNING: Re-homing failed - position may be incorrect!"@
    }
}

/// What a test that ran, or failed to, leads to.
pub open spec fn test_ran_leads(
    channel: Channel<'_>,
    test: Seq<char>,
    cfg: AdminSwitches,
    homing: BootHomingSwitches,
    failure: Option<Seq<char>>,
    r: TestStep,
) -> bool {
    let result = test_result(test, failure);
    match r {
        TestStep::Rehome { dir, result: text } => {
            &&& moves_motor(cfg.tests) && homing.enabled
            &&& dir == homing.dir
            &&& text@ == result
        },
        TestStep::Finished { result: text, completed } => {
            &&& !moves_motor(cfg.tests) || !homing.enabled
            &&& text@ == result
            &&& publication(completed) == channel.says(
                completed_payload(test, result),
            )
        },
    }
}

/// What a test does next.
#[derive(Debug)]
pub enum TestStep {
    /// Search for home.
    Rehome { dir: Direction, result: String },
    /// Publish that it completed; this is its result.
    Finished { result: String, completed: Option<Publication> },
}

/// What the search for home gave.
#[derive(Debug, Clone, Copy)]
pub struct HomingReading {
    pub found: bool,
    pub location: Single,
    pub mode: MotionMode,
    pub encoder_ticks: i32,
}

/// Where a tower believes to be around a test, and what it writes down of it.
#[verifier::ext_equal]
pub struct TestPlace {
    pub heading: Single,
    pub writes: Seq<NvsWriteView>,
}

/// What the search for home after a test leads to.
pub open spec fn rehomed_leads(
    channel: Channel<'_>,
    test: Seq<char>,
    result: Seq<char>,
    reading: HomingReading,
    persist: bool,
    before: TestPlace,
    after: TestPlace,
    r: TestStep,
) -> bool {
    let text = rehomed_result(result, reading.found);
    &&& r matches TestStep::Finished { result: told, completed } && told@ == text
        && publication(completed) == channel.says(
        completed_payload(test, text),
    )
    &&& after.heading == (if reading.found {
        reading.location
    } else {
        before.heading
    })
    &&& after.writes == (if reading.found {
        before.writes + position_writes(
            persist,
            reading.location,
            reading.mode,
            reading.encoder_ticks,
        )
    } else {
        before.writes
    })
}

fn finished(channel: &Channel<'_>, test_name: &str, result: String) -> (r: TestStep)
    ensures
        r matches TestStep::Finished { result: told, completed } && told@ == result@
            && publication(completed) == channel.says(completed_payload(test_name@, result@)),
{
    let payload = concat3("{\"status\":\"completed\",\"test\":\"", test_name, "\",\"result\":\"");
    let payload = concat3(payload.as_str(), result.as_str(), "\"}");
    let completed = channel.say(payload.as_str());
    TestStep::Finished { result, completed }
}

/// A name stands for at most one test.
pub proof fn a_name_selects_one_test(name: Seq<char>)
    ensures
        ({
            let t = tests_named(name);
            let n = |b: bool|
                if b {
                    1int
                } else {
                    0
                };
            n(t.motor_test) + n(t.encoder_test) + n(t.persistence_test) + n(t.wifi_mqtt_test) <= 1
        }),
{
    reveal_strlit("motor");
    reveal_strlit("encoder");
    reveal_strlit("persistence");
    reveal_strlit("nvs");
    reveal_strlit("wifi_mqtt");
    reveal_strlit("wifi");
    assert("motor"@.len() == 5);
    assert("encoder"@.len() == 7);
    assert("persistence"@.len() == 11);
    assert("nvs"@.len() == 3);
    assert("wifi_mqtt"@.len() == 9);
    assert("wifi"@.len() == 4);
}

/// What is set is what is reported: after a command that sets a value, asking for
/// its key gives that value.
pub proof fn a_set_value_is_reported(
    channel: Channel<'_>,
    key: String,
    value: String,
    before: ConfigManager,
    written: Seq<NvsWriteView>,
    after: ConfigManager,
    journal: Seq<NvsWriteView>,
    r: Handled,
    last: ConfigManager,
    last_journal: Seq<NvsWriteView>,
    report: Handled,
)
    requires
        executed(channel, Command::SetConfig { key, value }, before, written, after, journal, r),
        executed(
            channel,
            Command::GetConfig { key: Some(key) },
            after,
            journal,
            last,
            last_journal,
            report,
        ),
    ensures
        report matches Handled::Done(p) && publication(p) == channel.says(
            result_payload(
                "get_config"@,
                key@,
                "{\"key\":\""@ + key@ + "\",\"value\":"@ + value@ + "}"@,
            ),
        ),
{
    assert(after.overrides@.dom().contains(key@));
}

} // verus!
