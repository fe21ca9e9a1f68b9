//! Tests of the resource introspector, its parsing primitives, the
//! legacy path discovery and the configuration defaults.

use llm_mock_server::config::build_config;
use llm_mock_server::config::default_tuning;
use llm_mock_server::config::ConfigError;
use llm_mock_server::introspect::get_cgroup_v1_cpu_info;
use llm_mock_server::introspect::get_cgroup_v1_memory_info;
use llm_mock_server::introspect::get_cgroup_v2_cpu_info;
use llm_mock_server::introspect::get_cgroup_v2_memory_info;
use llm_mock_server::introspect::get_container_cpu_info;
use llm_mock_server::introspect::get_container_memory_info;
use llm_mock_server::introspect::get_system_cpu_info;
use llm_mock_server::introspect::get_system_memory_info;
use llm_mock_server::introspect::query_cpu;
use llm_mock_server::introspect::query_memory;
use llm_mock_server::introspect::CpuInfo;
use llm_mock_server::introspect::HostMemory;
use llm_mock_server::introspect::MemoryInfo;
use llm_mock_server::introspect::ResourceSource;
use llm_mock_server::proc_cgroup::cpu_cgroup_root;
use llm_mock_server::proc_cgroup::memory_cgroup_root;
use llm_mock_server::scan::parse_i64;
use llm_mock_server::scan::parse_u64;

fn host() -> HostMemory {
    HostMemory {
        total_bytes: 7777,
        used_bytes: 5555,
        available_bytes: 2222,
    }
}

#[test]
fn unified_memory_fabricated_two_gib_half_used() {
    let r = get_cgroup_v2_memory_info(Some(&b"2147483648\n"[..]), Some(&b"1073741824\n"[..]));
    assert_eq!(
        r,
        Some(MemoryInfo {
            total_bytes: 2147483648,
            used_bytes: 1073741824,
            available_bytes: 1073741824,
            source: ResourceSource::CGroupV2,
        })
    );
}

#[test]
fn unified_memory_max_sentinel_falls_through() {
    assert_eq!(get_cgroup_v2_memory_info(Some(&b"max\n"[..]), Some(&b"1073741824\n"[..])), None);
    // and the chain then answers from the legacy hierarchy ...
    let m = get_container_memory_info(
        Some(&b"max\n"[..]),
        Some(&b"1073741824\n"[..]),
        Some(&b"536870912\n"[..]),
        Some(&b"268435456\n"[..]),
        host(),
    );
    assert_eq!(m.source, ResourceSource::CGroupV1);
    assert_eq!(m.total_bytes, 536870912);
    assert_eq!(m.used_bytes, 268435456);
    assert_eq!(m.available_bytes, 268435456);
    // ... or, with the legacy hierarchy also unavailable, from the host.
    let m = get_container_memory_info(Some(&b"max\n"[..]), None, None, None, host());
    assert_eq!(m.source, ResourceSource::SystemFallback);
    assert_eq!(m.total_bytes, 7777);
    assert_eq!(m.used_bytes, 5555);
    assert_eq!(m.available_bytes, 2222);
}

#[test]
fn unified_memory_wins_over_legacy_and_host() {
    let m = get_container_memory_info(
        Some(&b"2147483648\n"[..]),
        Some(&b"1073741824\n"[..]),
        Some(&b"536870912\n"[..]),
        Some(&b"268435456\n"[..]),
        host(),
    );
    assert_eq!(m.source, ResourceSource::CGroupV2);
    assert_eq!(m.total_bytes, 2147483648);
}

#[test]
fn unified_memory_malformed_numbers_fall_through() {
    assert_eq!(get_cgroup_v2_memory_info(Some(&b"lots\n"[..]), Some(&b"1\n"[..])), None);
    assert_eq!(get_cgroup_v2_memory_info(Some(&b"1024\n"[..]), Some(&b"soon\n"[..])), None);
    assert_eq!(get_cgroup_v2_memory_info(Some(&b"1024\n"[..]), None), None);
    assert_eq!(get_cgroup_v2_memory_info(None, Some(&b"1\n"[..])), None);
}

#[test]
fn unified_memory_usage_above_limit_floors_available_at_zero() {
    let r = get_cgroup_v2_memory_info(Some(&b"1000\n"[..]), Some(&b"1500\n"[..]));
    let m = r.unwrap();
    assert_eq!(m.available_bytes, 0);
    assert_eq!(m.total_bytes, 1000);
    assert_eq!(m.used_bytes, 1500);
}

#[test]
fn legacy_memory_reads_limit_and_usage() {
    let r = get_cgroup_v1_memory_info(Some(&b"536870912\n"[..]), Some(&b"10485760\n"[..]));
    assert_eq!(
        r,
        Some(MemoryInfo {
            total_bytes: 536870912,
            used_bytes: 10485760,
            available_bytes: 526385152,
            source: ResourceSource::CGroupV1,
        })
    );
}

#[test]
fn legacy_memory_implausibly_large_limit_is_unlimited() {
    // The kernel reports "no limit" as a huge number; above 1 PiB the
    // source is skipped.
    assert_eq!(
        get_cgroup_v1_memory_info(Some(&b"9223372036854771712\n"[..]), Some(&b"10485760\n"[..])),
        None
    );
    // Exactly 1 PiB is still a limit.
    let r = get_cgroup_v1_memory_info(Some(&b"1125899906842624\n"[..]), Some(&b"0\n"[..]));
    assert_eq!(r.unwrap().total_bytes, 1125899906842624);
}

#[test]
fn unified_cpu_quota_over_period_is_fractional_cores() {
    // 150000 / 100000 = 1.5 cores = 1500 millicores.
    let r = get_cgroup_v2_cpu_info(Some(&b"150000 100000\n"[..]));
    assert_eq!(
        r,
        Some(CpuInfo {
            total_millicores: 1500,
            available_millicores: 1500,
            source: ResourceSource::CGroupV2,
        })
    );
}

#[test]
fn unified_cpu_max_sentinel_falls_through() {
    assert_eq!(get_cgroup_v2_cpu_info(Some(&b"max\n"[..])), None);
    assert_eq!(get_cgroup_v2_cpu_info(Some(&b"max 100000\n"[..])), None);
}

#[test]
fn unified_cpu_malformed_records_fall_through() {
    assert_eq!(get_cgroup_v2_cpu_info(None), None);
    assert_eq!(get_cgroup_v2_cpu_info(Some(&b"150000\n"[..])), None);
    assert_eq!(get_cgroup_v2_cpu_info(Some(&b"1 2 3\n"[..])), None);
    assert_eq!(get_cgroup_v2_cpu_info(Some(&b"150000 0\n"[..])), None);
    assert_eq!(get_cgroup_v2_cpu_info(Some(&b"-1 100000\n"[..])), None);
    assert_eq!(get_cgroup_v2_cpu_info(Some(&b"\n"[..])), None);
}

#[test]
fn legacy_cpu_negative_quota_is_unlimited() {
    // quota -1 means no limit: fall through, not an answer.
    assert_eq!(get_cgroup_v1_cpu_info(Some(&b"-1\n"[..]), Some(&b"100000\n"[..])), None);
    assert_eq!(get_cgroup_v1_cpu_info(Some(&b"0\n"[..]), Some(&b"100000\n"[..])), None);
    assert_eq!(get_cgroup_v1_cpu_info(Some(&b"100000\n"[..]), Some(&b"0\n"[..])), None);
}

#[test]
fn legacy_cpu_quota_over_period() {
    let r = get_cgroup_v1_cpu_info(Some(&b"150000\n"[..]), Some(&b"100000\n"[..]));
    assert_eq!(
        r,
        Some(CpuInfo {
            total_millicores: 1500,
            available_millicores: 1500,
            source: ResourceSource::CGroupV1,
        })
    );
    // A quarter core.
    let r = get_cgroup_v1_cpu_info(Some(&b"25000\n"[..]), Some(&b"100000\n"[..]));
    assert_eq!(r.unwrap().total_millicores, 250);
}

#[test]
fn cpu_precedence_unified_then_legacy_then_host() {
    let c = get_container_cpu_info(Some(&b"150000 100000\n"[..]), Some(&b"50000\n"[..]), Some(&b"100000\n"[..]), 8);
    assert_eq!(c.source, ResourceSource::CGroupV2);
    assert_eq!(c.total_millicores, 1500);
    let c = get_container_cpu_info(Some(&b"max\n"[..]), Some(&b"50000\n"[..]), Some(&b"100000\n"[..]), 8);
    assert_eq!(c.source, ResourceSource::CGroupV1);
    assert_eq!(c.total_millicores, 500);
    let c = get_container_cpu_info(Some(&b"max\n"[..]), Some(&b"-1\n"[..]), Some(&b"100000\n"[..]), 8);
    assert_eq!(c.source, ResourceSource::SystemFallback);
    assert_eq!(c.total_millicores, 8000);
    assert_eq!(c.available_millicores, 8000);
}

#[test]
fn host_fallback_queries_answer() {
    // The real machine answers: the values are machine-dependent, but the
    // shape is pinned.
    let m = get_system_memory_info();
    assert_eq!(m.source, ResourceSource::SystemFallback);
    let c = get_system_cpu_info();
    assert_eq!(c.source, ResourceSource::SystemFallback);
    assert!(c.total_millicores >= 1000);
    assert_eq!(c.available_millicores, c.total_millicores);
    let m = query_memory(None, None, None, None);
    assert_eq!(m.source, ResourceSource::SystemFallback);
    let c = query_cpu(None, None, None);
    assert_eq!(c.source, ResourceSource::SystemFallback);
}

#[test]
fn query_honours_fabricated_limits_over_the_host() {
    let m = query_memory(Some(&b"2147483648\n"[..]), Some(&b"1073741824\n"[..]), None, None);
    assert_eq!(m.source, ResourceSource::CGroupV2);
    assert_eq!(m.total_bytes, 2147483648);
    let c = query_cpu(Some(&b"150000 100000\n"[..]), None, None);
    assert_eq!(c.source, ResourceSource::CGroupV2);
    assert_eq!(c.total_millicores, 1500);
}

#[test]
fn memory_cgroup_root_finds_the_memory_line() {
    let content = b"12:pids:/init.scope\n4:memory:/kubepods/pod1\n3:cpu,cpuacct:/kubepods/pod1\n";
    let r = memory_cgroup_root(content).unwrap();
    assert_eq!(r, b"/sys/fs/cgroup/memory/kubepods/pod1".to_vec());
}

#[test]
fn cpu_cgroup_root_matches_cpu_comma_and_cpu_colon() {
    let content = b"4:memory:/kubepods/pod1\n3:cpu,cpuacct:/docker/abc\n";
    let r = cpu_cgroup_root(content).unwrap();
    assert_eq!(r, b"/sys/fs/cgroup/cpu/docker/abc".to_vec());
    let content = b"4:memory:/kubepods/pod1\n3:cpu:/docker/abc\n";
    let r = cpu_cgroup_root(content).unwrap();
    assert_eq!(r, b"/sys/fs/cgroup/cpu/docker/abc".to_vec());
    // "cpuset" alone must not pass for "cpu".
    let content = b"5:cpuset:/docker/abc\n";
    assert_eq!(cpu_cgroup_root(content), None);
}

#[test]
fn cgroup_root_missing_or_short_lines() {
    assert_eq!(memory_cgroup_root(b""), None);
    assert_eq!(memory_cgroup_root(b"12:pids:/init.scope\n"), None);
    // A matching line without a third field yields nothing.
    assert_eq!(memory_cgroup_root(b"4:memory\n"), None);
    // The first matching line wins.
    let r = memory_cgroup_root(b"5:memory:/a\n4:memory:/b\n").unwrap();
    assert_eq!(r, b"/sys/fs/cgroup/memory/a".to_vec());
}

#[test]
fn decimal_parsing_mirrors_the_standard_parser() {
    assert_eq!(parse_u64(b" 123 \n"), Some(123));
    assert_eq!(parse_u64(b"+5"), Some(5));
    assert_eq!(parse_u64(b"max"), None);
    assert_eq!(parse_u64(b""), None);
    assert_eq!(parse_u64(b"  "), None);
    assert_eq!(parse_u64(b"12 3"), None);
    assert_eq!(parse_u64(b"18446744073709551615"), Some(u64::MAX));
    assert_eq!(parse_u64(b"18446744073709551616"), None);
    assert_eq!(parse_u64(b"999999999999999999999999"), None);
    assert_eq!(parse_i64(b"-1\n"), Some(-1));
    assert_eq!(parse_i64(b"150000"), Some(150000));
    assert_eq!(parse_i64(b"-9223372036854775808"), Some(i64::MIN));
    assert_eq!(parse_i64(b"-9223372036854775809"), None);
    assert_eq!(parse_i64(b"9223372036854775807"), Some(i64::MAX));
    assert_eq!(parse_i64(b"9223372036854775808"), None);
    assert_eq!(parse_i64(b"-"), None);
    assert_eq!(parse_i64(b"1-2"), None);
}

#[test]
fn default_tuning_scales_with_cpu_count() {
    assert_eq!(default_tuning(1), (10000, 2));
    assert_eq!(default_tuning(2), (20000, 4));
    assert_eq!(default_tuning(3), (40000, 8));
    assert_eq!(default_tuning(64), (40000, 8));
}

#[test]
fn zero_capacity_refuses_to_start() {
    assert_eq!(build_config(0, Some(10), 8080, 4, 200), Err(ConfigError::NonPositiveCapacity));
    let cfg = build_config(40000, Some(10), 8080, 8, 200).unwrap();
    assert_eq!(cfg.max_concurrent_requests, 40000);
    assert_eq!(cfg.response_delay_seconds, 10);
    assert_eq!(cfg.port, 8080);
    assert_eq!(cfg.worker_threads, 8);
    assert_eq!(cfg.http2_max_concurrent_streams, 200);
}

#[test]
fn malformed_duration_refuses_to_start() {
    // A delay setting that did not parse arrives as `None` and is fatal.
    assert_eq!(build_config(40000, None, 8080, 8, 200), Err(ConfigError::MalformedDuration));
    // The capacity is judged first.
    assert_eq!(build_config(0, None, 8080, 8, 200), Err(ConfigError::NonPositiveCapacity));
    // A zero delay is well-formed, merely no wait.
    assert_eq!(build_config(1, Some(0), 8080, 1, 200).unwrap().response_delay_seconds, 0);
}
