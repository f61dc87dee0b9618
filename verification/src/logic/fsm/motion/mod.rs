//! The motion machine: restoring the tower's bearings, homing, following the sun.

pub mod context;
pub mod error_loop;
pub mod homing;
pub mod homing_laws;
pub mod init;
pub mod maintenance;
pub mod position;
pub mod position_laws;
pub mod sweep;
pub mod sweep_laws;
pub mod tracking;
pub mod tracking_laws;
