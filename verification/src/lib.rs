//! A peer-to-peer escrow protocol with dispute resolution and a
//! fee-aggregation treasury.
//!
//! The crate models the two halves of the protocol as verified state
//! machines over plain values:
//!
//! - [`handshake`] drives one escrow record (a "handshake") between a
//!   creator and a worker through its lifecycle, applying the pinch-fee
//!   split of [`fees`] when funds are released.
//! - [`treasury`] pools fee deposits per token and releases them in
//!   threshold-triggered batches to an incentivized keeper.
//!
//! Moving balances between accounts, authenticating callers, and reading
//! the clock are capabilities of the surrounding system: every operation
//! here takes the authenticated caller, the current instant, and any
//! needed vault balance as arguments, and returns the transfers the
//! caller must perform together with the notification event to publish.
//! An operation either succeeds with all of its state changes applied or
//! fails with a specific error and changes nothing.

pub mod account;
pub mod errors;
pub mod events;
pub mod fees;
pub mod handshake;
pub mod state;
pub mod treasury;
