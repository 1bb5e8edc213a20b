//! A verified model of the BettaPay settlement contract: merchant registry,
//! settlement rules, fee splitting, payment records, admin recovery and the
//! administrative timelock.

pub mod address;
pub mod errors;
pub mod types;
pub mod fees;
pub mod assoc;
pub mod events;
pub mod governance;
pub mod env;
pub mod model;
pub mod contract;
pub mod laws;
pub mod effects;
