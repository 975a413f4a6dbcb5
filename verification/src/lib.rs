//! A two-player chess session and the authority that pairs players and
//! settles rewards, with every rule stated as a contract.

pub mod arbiter;
pub mod engine;
pub mod error;
pub mod game;
pub mod laws;
pub mod ledger;
pub mod types;
