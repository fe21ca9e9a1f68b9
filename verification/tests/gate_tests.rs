//! Tests of the admission gate, the reporter and the handler path.

use llm_mock_server::gate::AdmissionGate;
use llm_mock_server::handler::mock_handler_admit;
use llm_mock_server::handler::mock_handler_complete;
use llm_mock_server::introspect::CpuInfo;
use llm_mock_server::introspect::MemoryInfo;
use llm_mock_server::introspect::ResourceSource;
use llm_mock_server::report::metrics;
use llm_mock_server::report::report;
use llm_mock_server::report::HealthStatus;

fn mem_info(total: u64, used: u64) -> MemoryInfo {
    MemoryInfo {
        total_bytes: total,
        used_bytes: used,
        available_bytes: total.saturating_sub(used),
        source: ResourceSource::CGroupV2,
    }
}

fn cpu_info() -> CpuInfo {
    CpuInfo {
        total_millicores: 2000,
        available_millicores: 2000,
        source: ResourceSource::SystemFallback,
    }
}

#[test]
fn fresh_gate_is_empty() {
    let g = AdmissionGate::new(7);
    assert_eq!(g.capacity(), 7);
    assert_eq!(g.available_slots(), 7);
}

#[test]
fn burst_admits_exactly_min_of_n_and_capacity() {
    // More callers than capacity: capacity 3, 5 attempts.
    let mut g = AdmissionGate::new(3);
    let mut successes = 0;
    let mut rejections = 0;
    let mut slots = Vec::new();
    for _ in 0..5 {
        match g.try_acquire() {
            Some(s) => {
                successes += 1;
                slots.push(s);
            }
            None => rejections += 1,
        }
    }
    assert_eq!(successes, 3);
    assert_eq!(rejections, 2);
    assert_eq!(g.available_slots(), 0);

    // Fewer callers than capacity: capacity 5, 3 attempts.
    let mut g = AdmissionGate::new(5);
    let mut successes = 0;
    let mut slots = Vec::new();
    for _ in 0..3 {
        match g.try_acquire() {
            Some(s) => {
                successes += 1;
                slots.push(s);
            }
            None => unreachable!("burst below capacity must not be rejected"),
        }
    }
    assert_eq!(successes, 3);
    assert_eq!(g.available_slots(), 2);
}

#[test]
fn available_plus_held_equals_capacity_through_any_sequence() {
    let mut g = AdmissionGate::new(4);
    let mut held = Vec::new();
    // acquire, acquire, release, acquire, acquire, acquire, release, release
    for step in [true, true, false, true, true, true, false, false] {
        if step {
            if let Some(s) = g.try_acquire() {
                held.push(s);
            }
        } else if let Some(s) = held.pop() {
            g.release(s);
        }
        assert_eq!(g.available_slots() + held.len(), g.capacity());
    }
}

#[test]
fn released_slot_is_immediately_acquirable() {
    // A single slot, cycled many times: no leak across full cycles.
    let mut g = AdmissionGate::new(1);
    for _ in 0..10000 {
        let s = g.try_acquire().expect("the one slot must be free");
        assert_eq!(g.available_slots(), 0);
        g.release(s);
        assert_eq!(g.available_slots(), 1);
    }
}

#[test]
fn full_gate_rejects_until_release() {
    let mut g = AdmissionGate::new(2);
    let a = g.try_acquire().unwrap();
    let _b = g.try_acquire().unwrap();
    assert!(g.try_acquire().is_none());
    g.release(a);
    assert!(g.try_acquire().is_some());
}

#[test]
fn metrics_snapshot_tracks_usage() {
    let mut g = AdmissionGate::new(5);
    let s1 = g.try_acquire().unwrap();
    let _s2 = g.try_acquire().unwrap();
    let m = metrics(&g);
    assert_eq!(m.active_requests, 2);
    assert_eq!(m.max_concurrent_requests, 5);
    g.release(s1);
    let m = metrics(&g);
    assert_eq!(m.active_requests, 1);
}

#[test]
fn report_healthy_at_exactly_ninety_percent_concurrency() {
    let mut g = AdmissionGate::new(10);
    let mut slots = Vec::new();
    for _ in 0..9 {
        slots.push(g.try_acquire().unwrap());
    }
    let v = report(&g, mem_info(100, 0), cpu_info());
    assert_eq!(v.status, HealthStatus::Healthy);
    assert_eq!(v.concurrency_permille, 900);
    assert_eq!(v.concurrency_used, 9);
    assert_eq!(v.available_slots, 1);
    assert_eq!(v.capacity, 10);
}

#[test]
fn report_overloaded_above_ninety_percent_concurrency_with_no_memory_usage() {
    let mut g = AdmissionGate::new(10);
    let mut slots = Vec::new();
    for _ in 0..10 {
        slots.push(g.try_acquire().unwrap());
    }
    let v = report(&g, mem_info(100, 0), cpu_info());
    assert_eq!(v.status, HealthStatus::Overloaded);
    assert_eq!(v.memory_permille, 0);
}

#[test]
fn report_healthy_at_exactly_ninety_five_percent_memory() {
    let g = AdmissionGate::new(10);
    let v = report(&g, mem_info(100, 95), cpu_info());
    assert_eq!(v.status, HealthStatus::Healthy);
    assert_eq!(v.memory_permille, 950);
}

#[test]
fn report_overloaded_above_ninety_five_percent_memory_with_no_concurrency() {
    let g = AdmissionGate::new(10);
    let v = report(&g, mem_info(100, 96), cpu_info());
    assert_eq!(v.status, HealthStatus::Overloaded);
    assert_eq!(v.concurrency_used, 0);
}

#[test]
fn report_zero_total_memory_counts_as_zero_usage() {
    let g = AdmissionGate::new(10);
    let v = report(&g, mem_info(0, 0), cpu_info());
    assert_eq!(v.status, HealthStatus::Healthy);
    assert_eq!(v.memory_permille, 0);
    // Even with bytes in use, a zero total reads as 0% — never overload.
    let m = MemoryInfo {
        total_bytes: 0,
        used_bytes: 1,
        available_bytes: 0,
        source: ResourceSource::CGroupV2,
    };
    let v = report(&g, m, cpu_info());
    assert_eq!(v.status, HealthStatus::Healthy);
    assert_eq!(v.memory_permille, 0);
}

#[test]
fn report_carries_the_snapshot_through() {
    let g = AdmissionGate::new(3);
    let mem = mem_info(2048, 1024);
    let cpu = cpu_info();
    let v = report(&g, mem, cpu);
    assert_eq!(v.memory, mem);
    assert_eq!(v.cpu, cpu);
    assert_eq!(v.memory_permille, 500);
}

#[test]
fn handler_end_to_end_one_slot() {
    // capacity 1, zero delay: of two simultaneous invocations exactly one
    // is admitted; after it completes, a third succeeds.
    let mut g = AdmissionGate::new(1);
    let first = mock_handler_admit(&mut g);
    let second = mock_handler_admit(&mut g);
    let admitted = first.expect("first invocation must be admitted");
    assert!(second.is_none(), "second invocation must be rejected");
    mock_handler_complete(&mut g, admitted);
    let third = mock_handler_admit(&mut g);
    assert!(third.is_some(), "after completion the slot must be free");
    assert_eq!(g.available_slots(), 0);
}
