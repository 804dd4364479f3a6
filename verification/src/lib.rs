//! Finds which pharmacy locations near a postal code may have open vaccine
//! appointment slots.
//!
//! The crate holds the decisions of the lookup pipeline: the cache of resolved
//! locations, the rule that turns a decoded slot mapping into an availability
//! flag, and the per-request state machine that fans probes out and collects
//! their outcomes. Network calls are made by the caller, which feeds their
//! outcomes back as events.
pub mod aggregator;
pub mod cache;
pub mod error;
pub mod guarantees;
pub mod location;
pub mod record;
pub mod slots;
pub mod upstream;
