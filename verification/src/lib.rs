//! Redemption coordination for limited-quantity promotional gift codes.
//!
//! The library owns the logic of the redemption path: the code-key format,
//! the button-id index, the in-memory models of the inventory store and the
//! redemption ledger, the redemption protocol that keeps the two consistent,
//! and the decision rules of the administrative commands. Network and chat
//! plumbing live outside, and hand these functions plain values.

pub mod admin;
pub mod auth;
pub mod clock;
pub mod config;
pub mod engine;
pub mod gift_code;
pub mod index;
pub mod inventory;
pub mod laws;
pub mod ledger;
pub mod listener;
pub mod models;
pub mod protocol;
pub mod store;
pub mod text;
pub mod validate;
