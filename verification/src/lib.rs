//! Per-tick decision engine for autonomous units in a resource-gathering
//! simulation.
//!
//! The engine never touches the host world itself. The caller observes the
//! world, hands the observations in as plain values, and carries out the
//! commands that come back. Everything decided in between is stated in
//! contracts and proved.

pub mod role;
pub mod task;
pub mod place;
pub mod selector;
pub mod executor;
pub mod registry;
pub mod reaper;
pub mod spawn;
pub mod driver;
pub mod tick;
