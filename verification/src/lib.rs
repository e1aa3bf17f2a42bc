//! Finalization subsystem of a custom-resource reconciliation engine.
//!
//! A parent resource marked for deletion is torn down in a fixed order:
//! its children are deleted first, then — only while the operator's own
//! ownership marker ("finalizer") is still on the parent — the domain
//! handler runs, the parent's status is reconciled, and the marker is
//! removed once the handler confirms that teardown is complete. Every
//! pass, whatever its outcome, ends by emitting one completion event
//! that releases the parent's slot in the external processing queue.
//!
//! The decisions of that protocol live here as a verified state machine
//! ([`machine::FinalizePass`]): each step consumes the outcome of the
//! previous network or handler operation and yields the next operation
//! to perform. The surrounding runtime performs the operations (deletes,
//! patches, delays, the channel send) and feeds the results back in.

pub mod config;
pub mod laws;
pub mod machine;
pub mod marker;
pub mod resource;
