//! The resource introspector: effective CPU and memory budget discovery.
//!
//! Each query follows a strict precedence chain and stops at the first
//! source that yields a bounded answer: the unified container hierarchy,
//! then the legacy per-subsystem hierarchy, then the host itself. A
//! missing file, a malformed number, or an "unlimited" sentinel means the
//! source is unavailable and the next one is consulted; the host-level
//! fallback always answers. Callers read the relevant control-group files
//! and hand their raw contents in; the host totals come from trusted
//! queries against the running machine.
//!
//! CPU budgets are held in millicores, so a quota of 150000 over a period
//! of 100000 is 1500 — one and a half cores. Under a control-group source
//! the available core count equals the total: the introspector discovers
//! limits, not live utilization.

use vstd::prelude::*;
use crate::scan::parse_token_u64;
use crate::scan::parse_i64_spec;
use crate::scan::parse_u64_spec;
use crate::scan::trim_spec;
use crate::scan::two_ws_tokens;
use crate::scan::find_non_ws_from;
use crate::scan::find_ws_from;
use crate::scan::find_non_ws_in_range;
use crate::scan::find_ws_in_range;
use crate::scan::parse_i64;
use crate::scan::parse_u64;
use crate::scan::parse_token_u64_range;
use crate::scan::trim_bounds;

verus! {

/// Which layer of the precedence chain answered a query.
#[derive(Clone, Copy, Debug, PartialEq, Eq, Structural)]
pub enum ResourceSource {
    CGroupV2,
    CGroupV1,
    SystemFallback,
}

/// The effective memory budget, tagged with the source that yielded it.
#[derive(Clone, Copy, Debug, PartialEq, Eq, Structural)]
pub struct MemoryInfo {
    pub total_bytes: u64,
    pub used_bytes: u64,
    pub available_bytes: u64,
    pub source: ResourceSource,
}

/// The effective CPU budget in millicores (1000 = one core), tagged with
/// the source that yielded it.
#[derive(Clone, Copy, Debug, PartialEq, Eq, Structural)]
pub struct CpuInfo {
    pub total_millicores: u64,
    pub available_millicores: u64,
    pub source: ResourceSource,
}

/// Host memory totals in bytes, as the machine reports them.
#[derive(Clone, Copy, Debug, PartialEq, Eq, Structural)]
pub struct HostMemory {
    pub total_bytes: u64,
    pub used_bytes: u64,
    pub available_bytes: u64,
}

/// A legacy memory limit above this many bytes (one pebibyte) is the
/// kernel's way of saying "no limit".
pub const V1_MEMORY_LIMIT_CAP: u64 = 1125899906842624;

/// The bytes of `max`, the unified hierarchy's "no limit" sentinel.
pub open spec fn max_word() -> Seq<u8> {
    seq![109u8, 97u8, 120u8]
}

/// The contents a caller managed to read, file by file.
pub open spec fn content_view(o: Option<&[u8]>) -> Option<Seq<u8>> {
    match o {
        None => None,
        Some(s) => Some(s@),
    }
}

/// `a - b`, floored at zero.
pub open spec fn sat_sub(a: u64, b: u64) -> u64 {
    if a >= b {
        (a - b) as u64
    } else {
        0
    }
}

/// `quota * 1000 / period` millicores, saturated at `u64::MAX`.
pub open spec fn spec_millicores(quota: nat, period: nat) -> u64 {
    if quota * 1000 / period > u64::MAX {
        u64::MAX
    } else {
        (quota * 1000 / period) as u64
    }
}

/// `cpus * 1000` millicores, saturated at `u64::MAX`.
pub open spec fn spec_cores_millicores(cpus: nat) -> u64 {
    if cpus * 1000 > u64::MAX {
        u64::MAX
    } else {
        (cpus * 1000) as u64
    }
}

/// What the unified hierarchy's memory files yield: `None` on a missing
/// file, a malformed number, or the `max` sentinel.
pub open spec fn spec_cgroup_v2_memory(
    max_c: Option<Seq<u8>>,
    cur_c: Option<Seq<u8>>,
) -> Option<MemoryInfo> {
    match max_c {
        None => None,
        Some(mx) => if trim_spec(mx) == max_word() {
            None
        } else {
            match parse_u64_spec(mx) {
                None => None,
                Some(total) => match cur_c {
                    None => None,
                    Some(cu) => match parse_u64_spec(cu) {
                        None => None,
                        Some(used) => Some(
                            MemoryInfo {
                                total_bytes: total,
                                used_bytes: used,
                                available_bytes: sat_sub(total, used),
                                source: ResourceSource::CGroupV2,
                            },
                        ),
                    },
                },
            }
        },
    }
}

/// What the legacy hierarchy's memory files yield: `None` on a missing
/// file, a malformed number, or an implausibly large (unlimited) limit.
pub open spec fn spec_cgroup_v1_memory(
    limit_c: Option<Seq<u8>>,
    usage_c: Option<Seq<u8>>,
) -> Option<MemoryInfo> {
    match limit_c {
        None => None,
        Some(l) => match parse_u64_spec(l) {
            None => None,
            Some(total) => if total > V1_MEMORY_LIMIT_CAP {
                None
            } else {
                match usage_c {
                    None => None,
                    Some(u) => match parse_u64_spec(u) {
                        None => None,
                        Some(used) => Some(
                            MemoryInfo {
                                total_bytes: total,
                                used_bytes: used,
                                available_bytes: sat_sub(total, used),
                                source: ResourceSource::CGroupV1,
                            },
                        ),
                    },
                }
            },
        },
    }
}

/// The terminal fallback: the host totals, taken as they are.
pub open spec fn spec_system_memory(host: HostMemory) -> MemoryInfo {
    MemoryInfo {
        total_bytes: host.total_bytes,
        used_bytes: host.used_bytes,
        available_bytes: host.available_bytes,
        source: ResourceSource::SystemFallback,
    }
}

/// The whole memory precedence chain.
pub open spec fn spec_container_memory(
    v2_max: Option<Seq<u8>>,
    v2_cur: Option<Seq<u8>>,
    v1_limit: Option<Seq<u8>>,
    v1_usage: Option<Seq<u8>>,
    host: HostMemory,
) -> MemoryInfo {
    match spec_cgroup_v2_memory(v2_max, v2_cur) {
        Some(m) => m,
        None => match spec_cgroup_v1_memory(v1_limit, v1_usage) {
            Some(m) => m,
            None => spec_system_memory(host),
        },
    }
}

/// What the unified hierarchy's combined quota-period record yields:
/// `None` on a missing file, the `max` sentinel, anything but exactly two
/// tokens, a malformed number, or a zero period.
pub open spec fn spec_cgroup_v2_cpu(max_c: Option<Seq<u8>>) -> Option<CpuInfo> {
    match max_c {
        None => None,
        Some(s) => {
            let t = trim_spec(s);
            if t == max_word() {
                None
            } else {
                match two_ws_tokens(t) {
                    None => None,
                    Some(tk) => match parse_token_u64(tk.0) {
                        None => None,
                        Some(quota) => match parse_token_u64(tk.1) {
                            None => None,
                            Some(period) => if period == 0 {
                                None
                            } else {
                                Some(
                                    CpuInfo {
                                        total_millicores: spec_millicores(
                                            quota as nat,
                                            period as nat,
                                        ),
                                        available_millicores: spec_millicores(
                                            quota as nat,
                                            period as nat,
                                        ),
                                        source: ResourceSource::CGroupV2,
                                    },
                                )
                            },
                        },
                    },
                }
            }
        },
    }
}

/// What the legacy hierarchy's quota and period files yield: `None` on a
/// missing file, a malformed number, a non-positive quota (unlimited), or
/// a zero period.
pub open spec fn spec_cgroup_v1_cpu(
    quota_c: Option<Seq<u8>>,
    period_c: Option<Seq<u8>>,
) -> Option<CpuInfo> {
    match quota_c {
        None => None,
        Some(q) => match parse_i64_spec(q) {
            None => None,
            Some(quota) => match period_c {
                None => None,
                Some(p) => match parse_u64_spec(p) {
                    None => None,
                    Some(period) => if quota <= 0 || period == 0 {
                        None
                    } else {
                        Some(
                            CpuInfo {
                                total_millicores: spec_millicores(quota as nat, period as nat),
                                available_millicores: spec_millicores(quota as nat, period as nat),
                                source: ResourceSource::CGroupV1,
                            },
                        )
                    },
                },
            },
        },
    }
}

/// The terminal fallback: every host core counted as available.
pub open spec fn spec_system_cpu(cpus: nat) -> CpuInfo {
    CpuInfo {
        total_millicores: spec_cores_millicores(cpus),
        available_millicores: spec_cores_millicores(cpus),
        source: ResourceSource::SystemFallback,
    }
}

/// The whole CPU precedence chain.
pub open spec fn spec_container_cpu(
    v2_max: Option<Seq<u8>>,
    v1_quota: Option<Seq<u8>>,
    v1_period: Option<Seq<u8>>,
    host_cpus: nat,
) -> CpuInfo {
    match spec_cgroup_v2_cpu(v2_max) {
        Some(c) => c,
        None => match spec_cgroup_v1_cpu(v1_quota, v1_period) {
            Some(c) => c,
            None => spec_system_cpu(host_cpus),
        },
    }
}

/// Relies on `sysinfo::System::refresh_memory` and the byte-valued
/// queries `total_memory`, `used_memory` and `available_memory`: each
/// returns a machine-dependent byte count, of which nothing further is
/// promised.
#[verifier::external_body]
fn host_memory() -> HostMemory {
    let mut sys = sysinfo::System::new();
    sys.refresh_memory();
    HostMemory {
        total_bytes: sys.total_memory(),
        used_bytes: sys.used_memory(),
        available_bytes: sys.available_memory(),
    }
}

/// Relies on `num_cpus::get`: the number of logical CPUs available to
/// this process, documented to be at least one.
#[verifier::external_body]
fn host_cpu_count() -> (n: usize)
    ensures
        1 <= n,
{
    num_cpus::get()
}

fn trimmed_is_max(s: &[u8]) -> (r: bool)
    ensures
        r == (trim_spec(s@) == max_word()),
{
    let (lo, hi) = trim_bounds(s);
    let ghost t = trim_spec(s@);
    if hi - lo == 3 && s[lo] == 109 && s[lo + 1] == 97 && s[lo + 2] == 120 {
        proof {
            assert(t =~= max_word());
        }
        true
    } else {
        proof {
            if t == max_word() {
                assert(t.len() == 3);
                assert(t[0] == s@[lo as int]);
                assert(t[1] == s@[lo as int + 1]);
                assert(t[2] == s@[lo as int + 2]);
                assert(false);
            }
        }
        false
    }
}

fn millicores_of(quota: u64, period: u64) -> (r: u64)
    requires
        1 <= period,
    ensures
        r == spec_millicores(quota as nat, period as nat),
{
    let wide: u128 = (quota as u128) * 1000 / (period as u128);
    if wide > u64::MAX as u128 {
        u64::MAX
    } else {
        wide as u64
    }
}

/// Reads the unified hierarchy's memory ceiling and usage out of the
/// given file contents (`None` marks a file that could not be read).
pub fn get_cgroup_v2_memory_info(
    memory_max: Option<&[u8]>,
    memory_current: Option<&[u8]>,
) -> (r: Option<MemoryInfo>)
    ensures
        r == spec_cgroup_v2_memory(content_view(memory_max), content_view(memory_current)),
{
    match memory_max {
        None => None,
        Some(mx) => {
            if trimmed_is_max(mx) {
                return None;
            }
            match parse_u64(mx) {
                None => None,
                Some(total) => match memory_current {
                    None => None,
                    Some(cu) => match parse_u64(cu) {
                        None => None,
                        Some(used) => Some(
                            MemoryInfo {
                                total_bytes: total,
                                used_bytes: used,
                                available_bytes: if total >= used {
                                    total - used
                                } else {
                                    0
                                },
                                source: ResourceSource::CGroupV2,
                            },
                        ),
                    },
                },
            }
        },
    }
}

/// Reads the legacy hierarchy's memory limit and usage out of the given
/// file contents, skipping an implausibly large (unlimited) limit.
pub fn get_cgroup_v1_memory_info(limit: Option<&[u8]>, usage: Option<&[u8]>) -> (r: Option<
    MemoryInfo,
>)
    ensures
        r == spec_cgroup_v1_memory(content_view(limit), content_view(usage)),
{
    match limit {
        None => None,
        Some(l) => match parse_u64(l) {
            None => None,
            Some(total) => {
                if total > V1_MEMORY_LIMIT_CAP {
                    return None;
                }
                match usage {
                    None => None,
                    Some(u) => match parse_u64(u) {
                        None => None,
                        Some(used) => Some(
                            MemoryInfo {
                                total_bytes: total,
                                used_bytes: used,
                                available_bytes: if total >= used {
                                    total - used
                                } else {
                                    0
                                },
                                source: ResourceSource::CGroupV1,
                            },
                        ),
                    },
                }
            },
        },
    }
}

/// Shapes host memory totals into the fallback answer.
pub fn memory_info_from_host(host: HostMemory) -> (r: MemoryInfo)
    ensures
        r == spec_system_memory(host),
{
    MemoryInfo {
        total_bytes: host.total_bytes,
        used_bytes: host.used_bytes,
        available_bytes: host.available_bytes,
        source: ResourceSource::SystemFallback,
    }
}

/// The host memory fallback, queried from the running machine.
pub fn get_system_memory_info() -> (r: MemoryInfo)
    ensures
        r.source == ResourceSource::SystemFallback,
{
    memory_info_from_host(host_memory())
}

/// The whole memory precedence chain over pre-read file contents and
/// given host totals: unified hierarchy first, then legacy, then host.
pub fn get_container_memory_info(
    v2_max: Option<&[u8]>,
    v2_current: Option<&[u8]>,
    v1_limit: Option<&[u8]>,
    v1_usage: Option<&[u8]>,
    host: HostMemory,
) -> (r: MemoryInfo)
    ensures
        r == spec_container_memory(
            content_view(v2_max),
            content_view(v2_current),
            content_view(v1_limit),
            content_view(v1_usage),
            host,
        ),
{
    match get_cgroup_v2_memory_info(v2_max, v2_current) {
        Some(m) => m,
        None => match get_cgroup_v1_memory_info(v1_limit, v1_usage) {
            Some(m) => m,
            None => memory_info_from_host(host),
        },
    }
}

/// The memory query: the precedence chain over pre-read file contents,
/// with the host totals taken from the running machine.
pub fn query_memory(
    v2_max: Option<&[u8]>,
    v2_current: Option<&[u8]>,
    v1_limit: Option<&[u8]>,
    v1_usage: Option<&[u8]>,
) -> (r: MemoryInfo)
    ensures
        (spec_cgroup_v2_memory(content_view(v2_max), content_view(v2_current)) matches Some(m)
            ==> r == m),
        spec_cgroup_v2_memory(content_view(v2_max), content_view(v2_current)) is None ==> (
        spec_cgroup_v1_memory(content_view(v1_limit), content_view(v1_usage)) matches Some(m)
            ==> r == m),
        spec_cgroup_v2_memory(content_view(v2_max), content_view(v2_current)) is None
            && spec_cgroup_v1_memory(content_view(v1_limit), content_view(v1_usage)) is None
            ==> r.source == ResourceSource::SystemFallback,
{
    get_container_memory_info(v2_max, v2_current, v1_limit, v1_usage, host_memory())
}

/// Reads the unified hierarchy's combined "quota period" record out of
/// the given file content.
pub fn get_cgroup_v2_cpu_info(cpu_max: Option<&[u8]>) -> (r: Option<CpuInfo>)
    ensures
        r == spec_cgroup_v2_cpu(content_view(cpu_max)),
{
    match cpu_max {
        None => None,
        Some(c) => {
            if trimmed_is_max(c) {
                return None;
            }
            let (lo, hi) = trim_bounds(c);
            let ghost t = trim_spec(c@);
            let i = find_ws_in_range(c, lo, hi);
            if i == hi {
                return None;
            }
            let j = find_non_ws_in_range(c, i, hi);
            proof {
                assert(c@.subrange(i as int, hi as int) =~= t.subrange(i - lo, t.len() as int));
            }
            if j == hi {
                return None;
            }
            let k = find_ws_in_range(c, j, hi);
            proof {
                assert(c@.subrange(j as int, hi as int) =~= t.subrange(j - lo, t.len() as int));
            }
            if k < hi {
                return None;
            }
            proof {
                assert(c@.subrange(lo as int, i as int) =~= t.subrange(0, i - lo));
            }
            let quota_opt = parse_token_u64_range(c, lo, i);
            let period_opt = parse_token_u64_range(c, j, hi);
            match quota_opt {
                None => None,
                Some(quota) => match period_opt {
                    None => None,
                    Some(period) => {
                        if period == 0 {
                            return None;
                        }
                        Some(
                            CpuInfo {
                                total_millicores: millicores_of(quota, period),
                                available_millicores: millicores_of(quota, period),
                                source: ResourceSource::CGroupV2,
                            },
                        )
                    },
                },
            }
        },
    }
}

/// Reads the legacy hierarchy's quota and period files out of the given
/// contents, skipping a non-positive (unlimited) quota.
pub fn get_cgroup_v1_cpu_info(quota_content: Option<&[u8]>, period_content: Option<&[u8]>) -> (r:
    Option<CpuInfo>)
    ensures
        r == spec_cgroup_v1_cpu(content_view(quota_content), content_view(period_content)),
{
    match quota_content {
        None => None,
        Some(q) => match parse_i64(q) {
            None => None,
            Some(quota) => match period_content {
                None => None,
                Some(p) => match parse_u64(p) {
                    None => None,
                    Some(period) => {
                        if quota <= 0 || period == 0 {
                            return None;
                        }
                        Some(
                            CpuInfo {
                                total_millicores: millicores_of(quota as u64, period),
                                available_millicores: millicores_of(quota as u64, period),
                                source: ResourceSource::CGroupV1,
                            },
                        )
                    },
                },
            },
        },
    }
}

/// Shapes a host CPU count into the fallback answer.
pub fn cpu_info_from_host(cpus: usize) -> (r: CpuInfo)
    ensures
        r == spec_system_cpu(cpus as nat),
{
    let wide: u128 = (cpus as u128) * 1000;
    let m: u64 = if wide > u64::MAX as u128 {
        u64::MAX
    } else {
        wide as u64
    };
    CpuInfo { total_millicores: m, available_millicores: m, source: ResourceSource::SystemFallback }
}

/// The host CPU fallback, queried from the running machine: at least one
/// core, all of it counted available.
pub fn get_system_cpu_info() -> (r: CpuInfo)
    ensures
        r.source == ResourceSource::SystemFallback,
        r.available_millicores == r.total_millicores,
        1000 <= r.total_millicores,
{
    cpu_info_from_host(host_cpu_count())
}

/// The whole CPU precedence chain over pre-read file contents and a
/// given host CPU count: unified hierarchy first, then legacy, then host.
pub fn get_container_cpu_info(
    v2_max: Option<&[u8]>,
    v1_quota: Option<&[u8]>,
    v1_period: Option<&[u8]>,
    host_cpus: usize,
) -> (r: CpuInfo)
    ensures
        r == spec_container_cpu(
            content_view(v2_max),
            content_view(v1_quota),
            content_view(v1_period),
            host_cpus as nat,
        ),
{
    match get_cgroup_v2_cpu_info(v2_max) {
        Some(c) => c,
        None => match get_cgroup_v1_cpu_info(v1_quota, v1_period) {
            Some(c) => c,
            None => cpu_info_from_host(host_cpus),
        },
    }
}

/// The CPU query: the precedence chain over pre-read file contents, with
/// the host CPU count taken from the running machine.
pub fn query_cpu(
    v2_max: Option<&[u8]>,
    v1_quota: Option<&[u8]>,
    v1_period: Option<&[u8]>,
) -> (r: CpuInfo)
    ensures
        (spec_cgroup_v2_cpu(content_view(v2_max)) matches Some(c) ==> r == c),
        spec_cgroup_v2_cpu(content_view(v2_max)) is None ==> (spec_cgroup_v1_cpu(
            content_view(v1_quota),
            content_view(v1_period),
        ) matches Some(c) ==> r == c),
        spec_cgroup_v2_cpu(content_view(v2_max)) is None && spec_cgroup_v1_cpu(
            content_view(v1_quota),
            content_view(v1_period),
        ) is None ==> r.source == ResourceSource::SystemFallback && r.available_millicores
            == r.total_millicores && 1000 <= r.total_millicores,
{
    get_container_cpu_info(v2_max, v1_quota, v1_period, host_cpu_count())
}

} // verus!
