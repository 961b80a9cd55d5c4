//! Self-update core for a ClassiCube plugin: an async-to-main-thread bridge
//! and the update-and-replace protocol built on top of it.
//!
//! The library holds the verified logic: the FIFO callback queue that hands
//! work from background tasks to the host's main thread, the per-group update
//! checker that compares a persisted version marker against the latest
//! registry release and drives installation of every asset in the group, and
//! the orchestrator that aggregates the results into a single user-visible
//! notice. The host-facing FFI glue and the actual network and file I/O live
//! outside the library and feed it plain values.

pub mod bridge;
pub mod checker;
pub mod plugin_updater;
pub mod release;
pub mod text;
