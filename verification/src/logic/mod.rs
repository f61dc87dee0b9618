//! The machines of the tower and the values they exchange.

pub mod daily_reset;
pub mod encoder_fault;
pub mod fsm;
pub mod recovery_laws;
pub mod tower;
pub mod tower_laws;
pub mod tracking_loop;
pub mod types;
