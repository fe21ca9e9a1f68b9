//! Admission control and capacity introspection for a bounded-concurrency
//! mock workload service.
//!
//! The crate provides the service's core: a counting admission gate that
//! enforces a hard ceiling on simultaneous in-flight work, a layered
//! resource introspector that discovers the effective CPU and memory budget
//! of the process (container limits first, host totals as the terminal
//! fallback), a capacity reporter that turns both into a health verdict,
//! and the per-request admission state machine of the workload handler.

pub mod config;
pub mod gate;
pub mod handler;
pub mod introspect;
pub mod proc_cgroup;
pub mod report;
pub mod scan;
