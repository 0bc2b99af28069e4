//! Voting-power ledger for factions, citizens, proposals, votes and
//! delegations, plus hash-driven discovery of resource fields.
//!
//! Every operation is a state transition on the records it is handed: it
//! either commits the new state or returns an error and leaves every record
//! as it was.
pub mod account;
pub mod conservation;
pub mod constant;
pub mod error;
pub mod ledger;
pub mod resource;
