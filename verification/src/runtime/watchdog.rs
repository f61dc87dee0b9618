//! The task watchdog's bookkeeping.

use vstd::prelude::*;
use vstd::string::StrSliceExecFns;

use crate::text::{concat3, signed_decimal, signed_text};

verus! {

/// What the driver returns on success.
pub const ESP_OK: i32 = 0;

pub open spec fn esp_error_text(code: i32, operation: Seq<char>) -> Seq<char> {
    operation + " failed with esp_err_t = "@ + signed_text(code as int)
}

/// What a driver's return code stands for.
pub open spec fn answered(code: i32, operation: Seq<char>, r: Result<(), String>) -> bool {
    match r {
        Ok(_) => code == ESP_OK,
        Err(message) => code != ESP_OK && message@ == esp_error_text(code, operation),
    }
}

/// Turn a driver's return code into a result that names the operation.
pub fn esp_err_to_result(code: i32, operation: &str) -> (r: Result<(), String>)
    ensures
        answered(code, operation@, r),
{
    if code == ESP_OK {
        return Ok(());
    }
    let number = signed_decimal(code as i64);
    Err(concat3(operation, " failed with esp_err_t = ", number.as_str()))
}

/// Whether a text holds a null character.
pub open spec fn holds_null(text: Seq<char>) -> bool {
    exists|i: int| 0 <= i < text.len() && #[trigger] text[i] == '\0'
}

/// The name of a watchdog user, which must not hold a null character.
pub fn cstr_from_str(s: &str) -> (r: Result<String, String>)
    ensures
        match r {
            Ok(name) => !holds_null(s@) && name@ == s@,
            Err(message) => holds_null(s@) && message@ == "string contains interior null byte"@,
        },
{
    let n: usize = s.unicode_len();
    let mut i: usize = 0;
    while i < n
        invariant
            n == s@.len(),
            0 <= i <= n,
            forall|j: int| 0 <= j < i ==> #[trigger] s@[j] != '\0',
        decreases n - i,
    {
        if s.get_char(i) == '\0' {
            assert(s@[i as int] == '\0');
            return Err("string contains interior null byte".to_owned());
        }
        i = i + 1;
    }
    Ok(s.to_owned())
}

/// A task that the watchdog monitors.
#[derive(Debug, Clone, Copy)]
pub struct TaskWatchdog;

impl TaskWatchdog {
    /// Take the driver's answer to registering the current task.
    pub fn register(code: i32) -> (r: Result<TaskWatchdog, String>)
        ensures
            match r {
                Ok(_) => code == ESP_OK,
                Err(message) => code != ESP_OK && message@ == esp_error_text(
                    code,
                    "esp_task_wdt_add"@,
                ),
            },
    {
        match esp_err_to_result(code, "esp_task_wdt_add") {
            Ok(_) => Ok(TaskWatchdog),
            Err(message) => Err(message),
        }
    }

    /// Take the driver's answer to resetting the timer.
    pub fn feed(&self, code: i32) -> (r: Result<(), String>)
        ensures
            answered(code, "esp_task_wdt_reset"@, r),
    {
        esp_err_to_result(code, "esp_task_wdt_reset")
    }

    /// Take the driver's answer to unregistering the current task.
    pub fn unregister(&self, code: i32) -> (r: Result<(), String>)
        ensures
            answered(code, "esp_task_wdt_delete"@, r),
    {
        esp_err_to_result(code, "esp_task_wdt_delete")
    }
}

/// A named user of the watchdog.
#[derive(Debug)]
pub struct UserWatchdog {
    pub name: String,
    pub registered: bool,
}

/// What adding a user leads to.
pub open spec fn addition_leads(
    name: Seq<char>,
    added: i32,
    reset: i32,
    r: Result<UserWatchdog, String>,
) -> bool {
    match r {
        Ok(user) => !holds_null(name) && added == ESP_OK && reset == ESP_OK
            && user.registered && user.name@ == name,
        Err(message) => if holds_null(name) {
            message@ == "string contains interior null byte"@
        } else if added != ESP_OK {
            message@ == esp_error_text(added, "esp_task_wdt_add_user"@)
        } else {
            reset != ESP_OK && message@ == esp_error_text(
                reset,
                "esp_task_wdt_reset_user"@,
            )
        },
    }
}

/// What removing a user leads to.
pub open spec fn removal_leads(
    registered: bool,
    code: i32,
    left: bool,
    r: Result<(), String>,
) -> bool {
    match r {
        Ok(_) => (!registered || code == ESP_OK) && !left,
        Err(message) => {
            &&& registered && code != ESP_OK
            &&& left
            &&& message@ == esp_error_text(code, "esp_task_wdt_delete_user"@)
        },
    }
}

impl UserWatchdog {
    /// Take the driver's answers to adding a user and to its first reset; the second
    /// is only looked at if the first is a success.
    pub fn new(name: &str, added: i32, reset: i32) -> (r: Result<UserWatchdog, String>)
        ensures
            addition_leads(name@, added, reset, r),
    {
        let name = match cstr_from_str(name) {
            Ok(name) => name,
            Err(message) => {
                return Err(message);
            },
        };
        match esp_err_to_result(added, "esp_task_wdt_add_user") {
            Ok(_) => {},
            Err(message) => {
                return Err(message);
            },
        }
        match esp_err_to_result(reset, "esp_task_wdt_reset_user") {
            Ok(_) => {},
            Err(message) => {
                return Err(message);
            },
        }
        Ok(UserWatchdog { name, registered: true })
    }

    /// Take the driver's answer to resetting the user's timer.
    pub fn feed(&self, code: i32) -> (r: Result<(), String>)
        ensures
            answered(code, "esp_task_wdt_reset_user"@, r),
    {
        esp_err_to_result(code, "esp_task_wdt_reset_user")
    }

    /// Whether unregistering has anything to ask the driver for.
    pub fn needs_unregister(&self) -> (r: bool)
        ensures
            r == self.registered,
    {
        self.registered
    }

    /// Take the driver's answer to removing the user. A user that was removed before
    /// is left alone; one that could not be removed stays registered.
    pub fn unregister(&mut self, code: i32) -> (r: Result<(), String>)
        ensures
            final(self).name == old(self).name,
            removal_leads(old(self).registered, code, final(self).registered, r),
    {
        if !self.registered {
            return Ok(());
        }
        match esp_err_to_result(code, "esp_task_wdt_delete_user") {
            Ok(_) => {
                self.registered = false;
                Ok(())
            },
            Err(message) => Err(message),
        }
    }
}

} // verus!
