//! A verified crowdfunding custody engine.
//!
//! A creator registers a campaign with a funding goal; independent donors
//! contribute value to the campaign's custody record; the creator withdraws
//! accumulated funds subject to a platform fee, a reserved-balance floor and
//! strict authorization.
//!
//! The engine is pure bookkeeping: the hosting substrate performs the actual
//! value transfers, supplies wall-clock timestamps and the reserved minimum
//! balance of a custody record, and authenticates the calling identity. The
//! engine receives those facts as plain values, decides whether an operation
//! is allowed, and maintains the campaign's accounting under its invariants.

pub mod errors;
pub mod state;
pub mod engine;
