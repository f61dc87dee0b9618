//! The remote command channel: every message on the command topic gets a reply on
//! the acknowledgement topic.

use vstd::prelude::*;
use vstd::utf8::{decode_utf8, valid_utf8};

use crate::diagnostics::commands::{self, CmdCtx, StatusData, StatusView};
use crate::diagnostics::listener::{ack_topic, payload_text};
use crate::diagnostics::motion_commands::{
    self, motion_command, ExitReply, HomeReply, MotionCommand, MoveReply,
};
use crate::ieee::Single;
use crate::text::same_text;
use crate::topic::{diagnostics_ack, diagnostics_cmd, tower_topic};

verus! {

/// A command as it arrives. What movement commands read besides is theirs.
#[derive(Debug)]
pub struct Command {
    pub cmd: String,
    pub request_id: Option<String>,
}

impl Command {
    pub open spec fn id(self) -> Seq<char> {
        match self.request_id {
            Some(id) => id@,
            None => ""@,
        }
    }

    fn request_id_str(&self) -> (r: &str)
        ensures
            r@ == self.id(),
    {
        match &self.request_id {
            Some(id) => id.as_str(),
            None => "",
        }
    }
}

/// What an Install image announces.
#[derive(Debug, Clone, Copy)]
pub struct InstallReady {
    pub heading_trusted: bool,
    pub lmsw_active: bool,
    pub max_step_deg: Single,
    pub tracking_inhibited: bool,
}

/// What a successful reply carries.
#[derive(Debug)]
pub enum ReplyData {
    Status(StatusData),
    Move(MoveReply),
    Home(HomeReply),
    Exit(ExitReply),
    InstallReady(InstallReady),
}

#[verifier::ext_equal]
pub enum ReplyDataView {
    Status(StatusView),
    Move(MoveReply),
    Home(HomeReply),
    Exit(ExitReply),
    InstallReady(InstallReady),
}

impl View for ReplyData {
    type V = ReplyDataView;

    open spec fn view(&self) -> ReplyDataView {
        match self {
            ReplyData::Status(data) => ReplyDataView::Status(data@),
            ReplyData::Move(reply) => ReplyDataView::Move(*reply),
            ReplyData::Home(reply) => ReplyDataView::Home(*reply),
            ReplyData::Exit(reply) => ReplyDataView::Exit(*reply),
            ReplyData::InstallReady(ready) => ReplyDataView::InstallReady(*ready),
        }
    }
}

/// A reply, without the time stamp that publishing adds. Its status is `ok` with
/// data, `error` with a message.
#[derive(Debug)]
pub struct Envelope {
    pub topic: String,
    pub request_id: String,
    pub cmd: String,
    pub outcome: Result<ReplyData, String>,
}

#[verifier::ext_equal]
pub struct EnvelopeView {
    pub topic: Seq<char>,
    pub request_id: Seq<char>,
    pub cmd: Seq<char>,
    pub outcome: Result<ReplyDataView, Seq<char>>,
}

pub open spec fn outcome_view(outcome: Result<ReplyData, String>) -> Result<
    ReplyDataView,
    Seq<char>,
> {
    match outcome {
        Ok(data) => Ok(data@),
        Err(message) => Err(message@),
    }
}

impl View for Envelope {
    type V = EnvelopeView;

    open spec fn view(&self) -> EnvelopeView {
        EnvelopeView {
            topic: self.topic@,
            request_id: self.request_id@,
            cmd: self.cmd@,
            outcome: outcome_view(self.outcome),
        }
    }
}

impl Envelope {
    /// The reply's `status`.
    pub fn status(&self) -> (r: &'static str)
        ensures
            r@ == (if self.outcome is Ok {
                "ok"@
            } else {
                "error"@
            }),
    {
        match &self.outcome {
            Ok(_) => "ok",
            Err(_) => "error",
        }
    }
}

pub open spec fn reply_view(
    device_id: Seq<char>,
    request_id: Seq<char>,
    cmd: Seq<char>,
    outcome: Result<ReplyDataView, Seq<char>>,
) -> EnvelopeView {
    EnvelopeView { topic: ack_topic(device_id), request_id, cmd, outcome }
}

/// A reply to a command.
pub fn reply(
    device_id: &str,
    request_id: &str,
    cmd: &str,
    outcome: Result<ReplyData, String>,
) -> (r: Envelope)
    ensures
        r@ == reply_view(device_id@, request_id@, cmd@, outcome_view(outcome)),
{
    Envelope {
        topic: diagnostics_ack(device_id),
        request_id: request_id.to_owned(),
        cmd: cmd.to_owned(),
        outcome,
    }
}

/// The topic to subscribe to once the connection stands.
pub fn subscribe(device_id: &str) -> (r: String)
    ensures
        r@ == tower_topic(device_id@, "/cmd/diagnostics"@),
{
    diagnostics_cmd(device_id)
}

/// What a message turned out to be.
#[derive(Debug)]
pub enum Inbound {
    /// There is none.
    Nothing,
    /// It is for another channel: it was consumed, and gets no reply.
    Ignored,
    /// It is not text: publish the reply.
    NotText(Envelope),
    /// It is this text.
    Text(String),
}

/// The reply to a message that is no command.
pub open spec fn unknown_reply(device_id: Seq<char>, message: Seq<char>) -> EnvelopeView {
    reply_view(device_id, ""@, "unknown"@, Err(message))
}

/// What taking a message leads to.
pub open spec fn receive_leads(
    device_id: Seq<char>,
    message: Option<(&str, &[u8])>,
    r: Inbound,
) -> bool {
    match message {
        None => r is Nothing,
        Some((topic, payload)) => if topic@ != tower_topic(
            device_id,
            "/cmd/diagnostics"@,
        ) {
            r is Ignored
        } else if !valid_utf8(payload@) {
            r matches Inbound::NotText(e) && e@ == unknown_reply(
                device_id,
                "payload must be UTF-8"@,
            )
        } else {
            r matches Inbound::Text(text) && text@ == decode_utf8(payload@)
        },
    }
}

/// Take a message, if there is one.
pub fn receive(device_id: &str, message: Option<(&str, &[u8])>) -> (r: Inbound)
    ensures
        receive_leads(device_id@, message, r),
{
    match message {
        None => Inbound::Nothing,
        Some((topic, payload)) => {
            let expected = diagnostics_cmd(device_id);
            if !same_text(topic, expected.as_str()) {
                return Inbound::Ignored;
            }
            match payload_text(payload) {
                Some(text) => Inbound::Text(text),
                None => Inbound::NotText(
                    reply(device_id, "", "unknown", Err("payload must be UTF-8".to_owned())),
                ),
            }
        },
    }
}

/// What a command leads to.
#[derive(Debug)]
pub enum Route {
    /// Publish the reply.
    Publish(Envelope),
    /// Run the movement command, and reply with its outcome.
    Motion(MotionCommand),
}

/// What a command leads to, `None` standing for a message that is none.
pub open spec fn route_leads(
    device_id: Seq<char>,
    command: Option<Command>,
    status: StatusView,
    motion_lent: bool,
    r: Route,
) -> bool {
    match command {
        None => r matches Route::Publish(e) && e@ == unknown_reply(
            device_id,
            "payload must be valid JSON with a `cmd` field"@,
        ),
        Some(c) => if c.cmd@ == "get_status"@ {
            r matches Route::Publish(e) && e@ == reply_view(
                device_id,
                c.id(),
                c.cmd@,
                Ok(ReplyDataView::Status(status)),
            )
        } else if motion_lent && motion_command(c.cmd@) is Some {
            r == Route::Motion(motion_command(c.cmd@)->0)
        } else {
            r matches Route::Publish(e) && e@ == reply_view(
                device_id,
                c.id(),
                c.cmd@,
                Err("unsupported command"@),
            )
        },
    }
}

/// Route what was read from a message's text, `None` where that is no command. The
/// read-only commands come first; movement commands are there where the tower lends
/// its motor.
pub fn process_one(
    device_id: &str,
    command: &Option<Command>,
    ctx: &CmdCtx<'_>,
    motion_lent: bool,
) -> (r: Route)
    ensures
        route_leads(device_id@, *command, ctx@, motion_lent, r),
{
    match command {
        None => Route::Publish(
            reply(
                device_id,
                "",
                "unknown",
                Err("payload must be valid JSON with a `cmd` field".to_owned()),
            ),
        ),
        Some(c) => {
            match commands::dispatch(c.cmd.as_str(), ctx) {
                Some(data) => {
                    return Route::Publish(
                        reply(
                            device_id,
                            c.request_id_str(),
                            c.cmd.as_str(),
                            Ok(ReplyData::Status(data)),
                        ),
                    );
                },
                None => {},
            }
            if motion_lent {
                match motion_commands::dispatch(c.cmd.as_str()) {
                    Some(motion) => {
                        return Route::Motion(motion);
                    },
                    None => {},
                }
            }
            Route::Publish(
                reply(
                    device_id,
                    c.request_id_str(),
                    c.cmd.as_str(),
                    Err("unsupported command".to_owned()),
                ),
            )
        },
    }
}

/// The reply to a movement command that ran or was refused.
pub fn motion_reply(
    device_id: &str,
    command: &Command,
    outcome: Result<ReplyData, String>,
) -> (r: Envelope)
    ensures
        r@ == reply_view(device_id@, command.id(), command.cmd@, outcome_view(outcome)),
{
    reply(device_id, command.request_id_str(), command.cmd.as_str(), outcome)
}

/// What an Install image says once it listens, in the shape of a reply.
pub fn announce_install_ready(device_id: &str, ready: InstallReady) -> (r: Envelope)
    ensures
        r@ == reply_view(
            device_id@,
            ""@,
            "install_ready"@,
            Ok(ReplyDataView::InstallReady(ready)),
        ),
{
    reply(device_id, "", "install_ready", Ok(ReplyData::InstallReady(ready)))
}

/// No command is both read-only and one that moves the tower.
pub proof fn the_catalogs_do_not_overlap(cmd: Seq<char>)
    ensures
        !(cmd == "get_status"@ && motion_command(cmd) is Some),
{
    reveal_strlit("get_status");
    reveal_strlit("move_by");
    reveal_strlit("set_home_here");
    reveal_strlit("exit_install");
    assert("get_status"@.len() == 10);
    assert("move_by"@.len() == 7);
    assert("set_home_here"@.len() == 13);
    assert("exit_install"@.len() == 12);
}

} // verus!
