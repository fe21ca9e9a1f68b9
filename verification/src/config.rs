//! Startup configuration of the service.
//!
//! The transport layer reads the environment and hands plain values in;
//! here the defaults are chosen and the one fatal startup check is made:
//! a gate with no capacity cannot admit anything, so a non-positive
//! ceiling refuses to start rather than configuring a dead service.

use vstd::prelude::*;

verus! {

/// Startup settings. `max_concurrent_requests` sizes the admission
/// gate and `response_delay_seconds` is how long an admitted request
/// sleeps; the remaining fields only matter to the HTTP server.
#[derive(Clone, Copy, Debug, PartialEq, Eq, Structural)]
pub struct AppConfig {
    pub max_concurrent_requests: usize,
    pub response_delay_seconds: u64,
    pub port: u16,
    pub worker_threads: usize,
    pub http2_max_concurrent_streams: u32,
}

/// The fatal startup errors: configuration that cannot admit work, or a
/// delay setting that did not read as a number.
#[derive(Clone, Copy, Debug, PartialEq, Eq, Structural)]
pub enum ConfigError {
    NonPositiveCapacity,
    MalformedDuration,
}

/// The default concurrency ceiling for a machine with `cpus` logical
/// CPUs.
pub open spec fn spec_default_concurrent(cpus: nat) -> nat {
    if cpus == 1 {
        10000
    } else if cpus == 2 {
        20000
    } else {
        40000
    }
}

/// The default worker-thread count for a machine with `cpus` logical
/// CPUs.
pub open spec fn spec_default_workers(cpus: nat) -> nat {
    if cpus == 1 {
        2
    } else if cpus == 2 {
        4
    } else {
        8
    }
}

/// The CPU-count-sized defaults for the concurrency ceiling and the
/// worker-thread count.
pub fn default_tuning(cpus: usize) -> (r: (usize, usize))
    ensures
        r.0 == spec_default_concurrent(cpus as nat),
        r.1 == spec_default_workers(cpus as nat),
{
    if cpus == 1 {
        (10000, 2)
    } else if cpus == 2 {
        (20000, 4)
    } else {
        (40000, 8)
    }
}

/// Validates the supplied values into a configuration. A capacity that
/// could never admit a request is refused; so is a delay whose setting
/// did not read as a number (`response_delay_seconds` carries the parse
/// outcome, `None` for a present but malformed setting). The capacity
/// is judged first.
pub fn build_config(
    max_concurrent_requests: usize,
    response_delay_seconds: Option<u64>,
    port: u16,
    worker_threads: usize,
    http2_max_concurrent_streams: u32,
) -> (r: Result<AppConfig, ConfigError>)
    ensures
        max_concurrent_requests == 0 ==> r == Err::<AppConfig, ConfigError>(
            ConfigError::NonPositiveCapacity,
        ),
        1 <= max_concurrent_requests && response_delay_seconds is None ==> r == Err::<
            AppConfig,
            ConfigError,
        >(ConfigError::MalformedDuration),
        1 <= max_concurrent_requests ==> (response_delay_seconds matches Some(delay) ==> r
            == Ok::<AppConfig, ConfigError>(
            (AppConfig {
                max_concurrent_requests,
                response_delay_seconds: delay,
                port,
                worker_threads,
                http2_max_concurrent_streams,
            }),
        )),
{
    if max_concurrent_requests == 0 {
        Err(ConfigError::NonPositiveCapacity)
    } else {
        match response_delay_seconds {
            None => Err(ConfigError::MalformedDuration),
            Some(delay) => Ok(
                AppConfig {
                    max_concurrent_requests,
                    response_delay_seconds: delay,
                    port,
                    worker_threads,
                    http2_max_concurrent_streams,
                },
            ),
        }
    }
}

} // verus!
