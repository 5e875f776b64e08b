//! A scooter rental protocol: riders rent scooters from shopkeepers, pay the
//! rental and a collateral into a vault, and are settled with when they
//! return the scooter.

pub mod effects;
pub mod errors;
pub mod events;
pub mod instructions;
pub mod laws;
pub mod pricing;
pub mod state;
