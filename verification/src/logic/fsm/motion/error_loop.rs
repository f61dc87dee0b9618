//! Stopped by a fault, and saying so.

use vstd::prelude::*;

use crate::logic::fsm::motion::context::MotionErrorLoop;
use crate::logic::types::{Component, FaultView, Severity};
use crate::topic::{logs_error, tower_topic};

verus! {

/// How often a stopped tower repeats its report, in minutes.
pub const ERROR_REPEAT_MINUTES: u64 = 15;

/// A fault report as it is published, without its time stamp.
#[derive(Debug)]
pub struct ErrorLog {
    pub topic: String,
    pub log_type: &'static str,
    pub message: String,
    pub component: Component,
    pub severity: Severity,
    pub notes: String,
}

#[verifier::ext_equal]
pub struct ErrorLogView {
    pub topic: Seq<char>,
    pub log_type: Seq<char>,
    pub message: Seq<char>,
    pub component: Component,
    pub severity: Severity,
    pub notes: Seq<char>,
}

impl View for ErrorLog {
    type V = ErrorLogView;

    open spec fn view(&self) -> ErrorLogView {
        ErrorLogView {
            topic: self.topic@,
            log_type: self.log_type@,
            message: self.message@,
            component: self.component,
            severity: self.severity,
            notes: self.notes@,
        }
    }
}

pub open spec fn fault_log(device_id: Seq<char>, fault: FaultView) -> ErrorLogView {
    ErrorLogView {
        topic: tower_topic(device_id, "/logs/error"@),
        log_type: "error"@,
        message: fault.message,
        component: fault.component,
        severity: Severity::Fault,
        notes: fault.notes,
    }
}

impl MotionErrorLoop {
    /// The report to publish. The machine stays here and repeats it every
    /// [`ERROR_REPEAT_MINUTES`].
    pub fn process(&self, device_id: &str) -> (r: ErrorLog)
        ensures
            r@ == fault_log(device_id@, self@),
    {
        ErrorLog {
            topic: logs_error(device_id),
            log_type: "error",
            message: self.message.as_str().to_owned(),
            component: self.component,
            severity: Severity::Fault,
            notes: self.notes.as_str().to_owned(),
        }
    }
}

} // verus!
