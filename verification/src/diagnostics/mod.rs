//! Board diagnostics: what a technician or the backend may ask the tower, who
//! answers, and in which words.

pub mod admin_laws;
pub mod admin_mode;
pub mod answer;
pub mod board_laws;
pub mod boot_recovery;
pub mod channel_laws;
pub mod cmd_handler;
pub mod command;
pub mod commands;
pub mod configuration;
pub mod environment;
pub mod executor;
pub mod go_home;
pub mod installation_laws;
pub mod listener;
pub mod listener_laws;
pub mod motion_commands;
pub mod mqtt;
pub mod mqtt_laws;
pub mod probes;
pub mod serial;
pub mod transcript;
pub mod transport;
