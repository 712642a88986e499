//! Event-driven synchronization engine that keeps a target issue tracker in
//! step with a source issue tracker.
//!
//! The engine is built from small components: a status mapper that translates
//! source lifecycle states into target status labels, a bounded deduplication
//! window over event identifiers, a source-to-target identity mapping, and a
//! dispatcher that turns a change event into an idempotent create-or-update
//! decision. Network transport lives outside this crate; the engine works on
//! plain values handed in by the surrounding program.

pub mod dedup;
pub mod mapping;
pub mod source;
pub mod state_mapper;
pub mod sync;
pub mod target;
