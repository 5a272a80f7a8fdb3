//! Escrow and ledger accounting core for a peer-to-peer car rental
//! marketplace settled in a single fungible asset.
//!
//! The core is a verified state machine over an explicit state value: car
//! listings keyed by owner, active rentals keyed by (renter, owner), and the
//! two global counters that track escrowed funds. The host substrate — keyed
//! persistence, signature verification, the asset-transfer primitive, and
//! the event log — is out of scope and is modeled at its interface:
//! authorization arrives as an [`types::AuthContext`] value, and every
//! operation that moves funds returns the [`types::TokenTransfer`] the host
//! must perform.

pub mod laws;
pub mod model;
pub mod state;
pub mod types;
