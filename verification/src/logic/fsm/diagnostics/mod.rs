//! The board diagnostics channel: a line protocol over the serial console.
//!
//! A diagnostic is answered by whoever owns the hardware it touches. This machine
//! owns the transport, the protocol and the sequencing; it answers what needs
//! nothing else, and asks the machine that holds the peripheral for the rest.

pub mod awaiting;
pub mod config;
pub mod config_laws;
pub mod console;
pub mod console_laws;
pub mod delegate;
pub mod idle;
pub mod laws;
pub mod local;
pub mod serve;
