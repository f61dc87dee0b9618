//! What the firmware keeps in flash.

pub mod laws;
pub mod snapshot_store;
pub mod store_laws;
