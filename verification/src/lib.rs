//! An access-gated signing proxy: a per-caller rate limiter in front of a
//! request that asks a threshold-signing service to sign a payload digest.
//!
//! The library decides and computes. Who calls and what time it is are
//! handed to `Contract::sign` as plain values, and what it returns is the
//! `SignRequest` that the host has to send: the library asks the host for
//! neither and issues no call. The payload is decoded by `hex` and digested
//! by `near_sdk`, which off chain computes Keccak-256 in plain Rust.

pub mod error;
pub mod payload;
pub mod ledger;
pub mod contract;

pub use contract::{Contract, SignRequest};
pub use error::SignError;
