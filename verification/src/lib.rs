//! The decision logic of the solar tower firmware.

pub mod calendar;
pub mod config;
pub mod config_laws;
pub mod config_manager;
pub mod diagnostics;
pub mod hardware;
pub mod ieee;
pub mod json;
pub mod logic;
pub mod runtime;
pub mod std_text;
pub mod storage;
pub mod text;
pub mod text_map;
pub mod topic;
pub mod value_laws;
pub mod version;
