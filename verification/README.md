# tower

The logic of a solar tower that follows the sun: how it homes, tracks, recovers from
encoder faults, keeps its bearings in flash, talks to its operators and updates itself.
Every function of the library carries a contract that Verus proves.

## Layout

- `src/` is the verified library.
  - `logic/` holds the state machines (motion, network, buttons, LED, diagnostics), the
    recovery from encoder faults and the daily reset.
  - `diagnostics/` holds the command channels (serial, broker, admin), the probes and the
    provisioning of settings.
  - `storage/`, `config/`, `config_manager.rs` and `version.rs` hold what survives a reset.
  - `runtime/` and `hardware/` hold the rules around the watchdog, the temperature, the
    reset cause and the sensor lock.
  - `ieee.rs` compares floating-point values by their bit patterns; `calendar.rs`,
    `json.rs`, `std_text.rs` and `version.rs` state what is relied on of `chrono`,
    `serde_json`, `std` and `semver`.
- `tests/` runs the library on concrete values.
- `app/` is ordinary Rust around it: threads, mail, flash, the broker and floating-point
  arithmetic. The devices stand behind the traits of `app/ports.rs`.

## How the library meets the world

Nothing in `src/` does I/O. A step of a machine takes readings and times as values and
returns what is to be done: motor commands, flash writes, mail, console lines or a request
for another reading. Laws that span several steps are public proof functions beside the
functions they speak of.
