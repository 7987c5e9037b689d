//! Two-party, points-staked game sessions: a session record, the rules that
//! move it from creation to a reported outcome, and a store of such records.
//!
//! Nothing here talks to a ledger or to the hub that holds the stakes. Every
//! operation is a function of the state it is given, and says which call the
//! hub is owed as a value.

pub mod contract;
pub mod error;
pub mod game;
pub mod hub;
pub mod identity;
pub mod laws;
pub mod moves;
pub mod session;
pub mod store;
pub mod template;
