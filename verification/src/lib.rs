//! A verified engine for a two-player naval combat match.
//!
//! The engine arbitrates one match from creation through setup, alternating
//! play, a one-shot sonar scan per side and the final victory claim.  Every
//! operation either commits as a whole or is rejected and leaves the ledger
//! as it was.
//!
//! - [`record`] holds the match record and its mathematical model.
//! - [`rules`] states which action is accepted in which state and what it
//!   does, and implements the transitions of a record.
//! - [`ledger`] is the keyed store of records and singletons, together with
//!   the authorizations and the calls queued for the hub.
//! - [`contract`] holds the entry points, which serve calls on a ledger.
//! - [`laws`] proves what holds of every match and every ledger.

pub mod address;
pub mod contract;
pub mod error;
pub mod laws;
pub mod ledger;
pub mod record;
pub mod rules;

pub use address::Address;
pub use contract::BattleshipContract;
pub use error::GameError;
pub use ledger::{DataKey, HubCall, Ledger};
pub use record::Game;
