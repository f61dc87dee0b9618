//! The MQTT topics of a tower.

use vstd::prelude::*;

use crate::text::concat3;

verus! {

pub open spec fn tower_topic(device_id: Seq<char>, rest: Seq<char>) -> Seq<char> {
    "tower/"@ + device_id + rest
}

/// Where diagnostics commands arrive.
pub fn diagnostics_cmd(device_id: &str) -> (r: String)
    ensures
        r@ == tower_topic(device_id@, "/cmd/diagnostics"@),
{
    concat3("tower/", device_id, "/cmd/diagnostics")
}

/// Where replies to diagnostics commands go.
pub fn diagnostics_ack(device_id: &str) -> (r: String)
    ensures
        r@ == tower_topic(device_id@, "/cmd/diagnostics/ack"@),
{
    concat3("tower/", device_id, "/cmd/diagnostics/ack")
}

/// Where heartbeats go.
pub fn status(device_id: &str) -> (r: String)
    ensures
        r@ == tower_topic(device_id@, "/status"@),
{
    concat3("tower/", device_id, "/status")
}

/// Where faults are reported.
pub fn logs_error(device_id: &str) -> (r: String)
    ensures
        r@ == tower_topic(device_id@, "/logs/error"@),
{
    concat3("tower/", device_id, "/logs/error")
}

/// Where restarts are reported.
pub fn logs_boot(device_id: &str) -> (r: String)
    ensures
        r@ == tower_topic(device_id@, "/logs/boot"@),
{
    concat3("tower/", device_id, "/logs/boot")
}

/// A reply never arrives as a command: on any tower the two topics differ.
pub proof fn replies_are_not_commands(device_id: Seq<char>)
    ensures
        tower_topic(device_id, "/cmd/diagnostics"@) != tower_topic(
            device_id,
            "/cmd/diagnostics/ack"@,
        ),
{
    reveal_strlit("/cmd/diagnostics");
    reveal_strlit("/cmd/diagnostics/ack");
    assert(tower_topic(device_id, "/cmd/diagnostics"@).len() != tower_topic(
        device_id,
        "/cmd/diagnostics/ack"@,
    ).len());
}

} // verus!
