//! What the running tower reports about itself.

pub mod encoder_fault;
pub mod laws;
pub mod reset_reason;
pub mod temperature;
pub mod tracking_loop;
pub mod watchdog;
