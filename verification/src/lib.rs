//! A sealed-bid, commit-reveal auction.
//!
//! Bidders first commit to a hash of their bid, later reveal the amount and
//! nonce behind it, and the auction is finalized against a reserve price once
//! the reveal window has closed.  Records live in an address-keyed ledger that
//! is not part of this crate: every operation here takes the records it works
//! on, and the current time, as plain values, and hands back the updated
//! records together with the notification to emit or the request to pass on.

pub mod address;
pub mod constant;
pub mod delegation;
pub mod error;
pub mod event;
pub mod handlers;
pub mod helpers;
pub mod history;
pub mod permission;
pub mod seeds;
pub mod state;

pub use state::AuctionStatus;
