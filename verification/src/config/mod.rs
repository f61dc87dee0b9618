//! Deployment values of a tower.

pub mod site_laws;
pub mod switchboard;
