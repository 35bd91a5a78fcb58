//! Attribution of heap allocations to allocation groups.
//!
//! Every allocation made through the tracking allocator is tagged with the
//! allocation group that is active on the allocating thread. The tag travels
//! with the block, in a trailing metadata word, so that a later deallocation
//! can report both the group that made the allocation and the group that
//! released it.
//!
//! This crate holds the rules of that scheme as functions on explicit state:
//! the counter that issues group identifiers, the per-thread cell with the
//! active group, the idle/active state machine of tokens and guards, the
//! registry of the tracker, and the steps of the allocator shim around the
//! wrapped allocator. The caller owns the state (a cell per thread, one
//! counter and one registry per process), does the raw memory work between
//! the steps, and delivers the events to the tracker.
//!
//! - [`token`]: identifiers, the counter, the cell, tokens and guards.
//! - [`allocator`]: the shim, the metadata word, and the events.
//! - [`registry`]: the tracker slot and the switch for tracking.
//! - [`tracing`]: groups that follow a `tracing` span.

pub mod allocator;
pub mod registry;
pub mod token;
pub mod tracing;
