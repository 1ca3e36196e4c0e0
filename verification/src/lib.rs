//! A vault for one named shared secret, and the time-based one-time codes
//! that are derived from it.
//!
//! The vault is a two-phase record: it starts empty, takes one credential,
//! and hands out six-digit codes until it is reset. Every function here works
//! on plain values; keeping the record in a store and reading the clock is
//! left to the caller.

pub mod contract;
pub mod errors;
pub mod msg;
pub mod state;
pub mod totp;
