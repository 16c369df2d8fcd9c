//! Decision logic of a price-oracle bridge: it maps assets to ledger price
//! feeds, turns decimal USD quotes into the ledger's 10^18 fixed-point
//! encoding, keeps the account's transaction sequence number locally, decodes
//! ledger event records and drives the subscription lifecycle.
//!
//! Every effect (network, signing, sleeping) is left to the caller, which
//! performs the actions that this library plans and reports the results back.

pub mod registry;
pub mod price;
pub mod sequence;
pub mod events;
pub mod link;
pub mod service;
