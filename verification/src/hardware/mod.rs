//! What the hardware's drivers decide.

pub mod sensors;
