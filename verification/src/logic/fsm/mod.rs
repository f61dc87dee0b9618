//! The machines of the tower and what they send each other.

pub mod buttons;
pub mod diagnostics;
pub mod led;
pub mod led_states;
pub mod mail;
pub mod maintenance;
pub mod motion;
pub mod network;
pub mod network_laws;
pub mod panel_laws;
pub mod startup;
