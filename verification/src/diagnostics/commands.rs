//! The read-only commands that a tower answers.

use vstd::prelude::*;

use crate::ieee::Single;
use crate::logic::types::MotionMode;
use crate::text::same_text;

verus! {

/// What commands may report on.
#[derive(Debug, Clone, Copy)]
pub struct CmdCtx<'a> {
    pub device_id: &'a str,
    pub firmware_version: &'a str,
    pub mqtt_connected: bool,
    pub wifi_connected: bool,
    pub motion_mode: &'a str,
    pub current_heading: Single,
}

/// A snapshot of the tower's health and orientation.
#[derive(Debug)]
pub struct StatusData {
    pub device_id: String,
    pub firmware_version: String,
    pub mqtt_connected: bool,
    pub wifi_connected: bool,
    pub motion_mode: String,
    pub current_heading: Single,
}

#[verifier::ext_equal]
pub struct StatusView {
    pub device_id: Seq<char>,
    pub firmware_version: Seq<char>,
    pub mqtt_connected: bool,
    pub wifi_connected: bool,
    pub motion_mode: Seq<char>,
    pub current_heading: Single,
}

impl<'a> View for CmdCtx<'a> {
    type V = StatusView;

    open spec fn view(&self) -> StatusView {
        StatusView {
            device_id: self.device_id@,
            firmware_version: self.firmware_version@,
            mqtt_connected: self.mqtt_connected,
            wifi_connected: self.wifi_connected,
            motion_mode: self.motion_mode@,
            current_heading: self.current_heading,
        }
    }
}

impl View for StatusData {
    type V = StatusView;

    open spec fn view(&self) -> StatusView {
        StatusView {
            device_id: self.device_id@,
            firmware_version: self.firmware_version@,
            mqtt_connected: self.mqtt_connected,
            wifi_connected: self.wifi_connected,
            motion_mode: self.motion_mode@,
            current_heading: self.current_heading,
        }
    }
}

fn get_status(ctx: &CmdCtx<'_>) -> (r: StatusData)
    ensures
        r@ == ctx@,
{
    StatusData {
        device_id: ctx.device_id.to_owned(),
        firmware_version: ctx.firmware_version.to_owned(),
        mqtt_connected: ctx.mqtt_connected,
        wifi_connected: ctx.wifi_connected,
        motion_mode: ctx.motion_mode.to_owned(),
        current_heading: ctx.current_heading,
    }
}

/// Answer a command, if it is one of these.
pub fn dispatch(cmd: &str, ctx: &CmdCtx<'_>) -> (r: Option<StatusData>)
    ensures
        match r {
            Some(data) => cmd@ == "get_status"@ && data@ == ctx@,
            None => cmd@ != "get_status"@,
        },
{
    if same_text(cmd, "get_status") {
        Some(get_status(ctx))
    } else {
        None
    }
}

pub open spec fn mode_name(mode: MotionMode) -> Seq<char> {
    match mode {
        MotionMode::StepperOnly => "stepper_only"@,
        MotionMode::EncoderGuarded => "encoder_guarded"@,
    }
}

/// The name under which commands report a mode.
pub fn motion_mode_name(mode: MotionMode) -> (r: &'static str)
    ensures
        r@ == mode_name(mode),
{
    match mode {
        MotionMode::StepperOnly => "stepper_only",
        MotionMode::EncoderGuarded => "encoder_guarded",
    }
}

} // verus!
