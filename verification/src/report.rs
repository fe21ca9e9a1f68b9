//! The capacity reporter: live gate usage plus a fresh resource snapshot,
//! combined into a health verdict, and a lightweight metrics snapshot.
//!
//! The verdict is `Overloaded` exactly when concurrency usage is strictly
//! above 90% or memory usage is strictly above 95%; at exactly those
//! percentages the service is still `Healthy`. The thresholds are fixed
//! constants by design: a blunt safety signal for liveness probes, not a
//! tunable objective. Usage is carried in permille (tenths of a percent,
//! rounded down), so the comparison against the thresholds is exact
//! integer arithmetic with no rounding at the boundary.

use vstd::prelude::*;
use crate::gate::AdmissionGate;
use crate::introspect::CpuInfo;
use crate::introspect::MemoryInfo;

verus! {

#[derive(Clone, Copy, Debug, PartialEq, Eq, Structural)]
pub enum HealthStatus {
    Healthy,
    Overloaded,
}

/// Concurrency usage strictly above 90%: `held / capacity > 9 / 10`.
pub open spec fn spec_concurrency_overloaded(held: nat, capacity: nat) -> bool {
    held * 10 > capacity * 9
}

/// Memory usage strictly above 95%: `used / total > 19 / 20`. A zero
/// total counts as 0% usage, never as overload.
pub open spec fn spec_memory_overloaded(used: nat, total: nat) -> bool {
    total != 0 && used * 20 > total * 19
}

/// The verdict the fixed thresholds dictate.
pub open spec fn spec_status(held: nat, capacity: nat, used: nat, total: nat) -> HealthStatus {
    if spec_concurrency_overloaded(held, capacity) || spec_memory_overloaded(used, total) {
        HealthStatus::Overloaded
    } else {
        HealthStatus::Healthy
    }
}

/// `num / den` in permille, rounded down; 0 when `den` is 0, saturated
/// at `u64::MAX`.
pub open spec fn spec_permille(num: nat, den: nat) -> u64 {
    if den == 0 {
        0
    } else if num * 1000 / den > u64::MAX {
        u64::MAX
    } else {
        (num * 1000 / den) as u64
    }
}

/// One health answer. Each query builds a fresh one and nothing keeps
/// it afterwards.
#[derive(Clone, Copy, Debug, PartialEq, Eq, Structural)]
pub struct HealthVerdict {
    pub status: HealthStatus,
    pub capacity: usize,
    pub available_slots: usize,
    pub concurrency_used: usize,
    /// Concurrency usage in tenths of a percent, rounded down.
    pub concurrency_permille: u64,
    /// Memory usage in tenths of a percent, rounded down.
    pub memory_permille: u64,
    pub memory: MemoryInfo,
    pub cpu: CpuInfo,
}

/// The lightweight snapshot for a metrics-style consumer: no thresholds,
/// never fails.
#[derive(Clone, Copy, Debug, PartialEq, Eq, Structural)]
pub struct MetricsSnapshot {
    pub active_requests: usize,
    pub max_concurrent_requests: usize,
}

fn permille_of(num: u64, den: u64) -> (r: u64)
    ensures
        r == spec_permille(num as nat, den as nat),
{
    if den == 0 {
        0
    } else {
        let wide: u128 = (num as u128) * 1000 / (den as u128);
        if wide > u64::MAX as u128 {
            u64::MAX
        } else {
            wide as u64
        }
    }
}

/// Computes a `HealthVerdict` for the operator-facing probe.
pub fn report(gate: &AdmissionGate, memory: MemoryInfo, cpu: CpuInfo) -> (v: HealthVerdict)
    requires
        gate.wf(),
    ensures
        v.capacity == gate.spec_capacity(),
        v.available_slots == gate.spec_available(),
        v.concurrency_used == gate.spec_held(),
        v.concurrency_permille == spec_permille(gate.spec_held(), gate.spec_capacity()),
        v.memory_permille == spec_permille(memory.used_bytes as nat, memory.total_bytes as nat),
        v.memory == memory,
        v.cpu == cpu,
        v.status == spec_status(
            gate.spec_held(),
            gate.spec_capacity(),
            memory.used_bytes as nat,
            memory.total_bytes as nat,
        ),
        v.status == HealthStatus::Overloaded <==> (gate.spec_held() * 10 > gate.spec_capacity()
            * 9 || (memory.total_bytes != 0 && memory.used_bytes * 20 > memory.total_bytes * 19)),
{
    let capacity = gate.capacity();
    let available = gate.available_slots();
    let held = capacity - available;
    let concurrency_over = (held as u128) * 10 > (capacity as u128) * 9;
    let memory_over = memory.total_bytes != 0 && (memory.used_bytes as u128) * 20 > (
    memory.total_bytes as u128) * 19;
    let status = if concurrency_over || memory_over {
        HealthStatus::Overloaded
    } else {
        HealthStatus::Healthy
    };
    HealthVerdict {
        status,
        capacity,
        available_slots: available,
        concurrency_used: held,
        concurrency_permille: permille_of(held as u64, capacity as u64),
        memory_permille: permille_of(memory.used_bytes, memory.total_bytes),
        memory,
        cpu,
    }
}

/// The metrics snapshot: live usage against the configured ceiling.
pub fn metrics(gate: &AdmissionGate) -> (m: MetricsSnapshot)
    requires
        gate.wf(),
    ensures
        m.active_requests == gate.spec_held(),
        m.max_concurrent_requests == gate.spec_capacity(),
{
    let capacity = gate.capacity();
    let available = gate.available_slots();
    MetricsSnapshot { active_requests: capacity - available, max_concurrent_requests: capacity }
}

} // verus!
