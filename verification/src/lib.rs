//! Token-weighted governance engine.
//!
//! A community creates a DAO with a voting configuration, opens proposals,
//! collects weighted votes over a bounded time window, decides pass/fail by a
//! configurable percentage threshold, and executes a passed decision only
//! after a mandatory hold-up delay.
//!
//! The engine is a pure state machine: it owns the DAO, proposal and vote
//! records and is driven from outside with plain values. In particular the
//! current time is an argument of every time-gated operation, so the host
//! decides where the clock comes from, and identities (authorities, voters,
//! token mints) are opaque numeric keys that an external authentication
//! layer has already verified. All mutations go through `&mut` methods, so
//! Rust's exclusive borrows serialize concurrent access to one engine.

pub mod config;
pub mod engine;
pub mod errors;
pub mod laws;
pub mod ledger;
pub mod state;
pub mod stores;
pub mod tally;
