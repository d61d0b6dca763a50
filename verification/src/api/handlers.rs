//! What the HTTP endpoints answer, apart from the transport.

use vstd::prelude::*;
use crate::time::DateTimeUtc;
use super::models::{
    BatchOperationResponse, ComponentHealth, ComponentStatus, HealthCheckResponse, VersionInfo,
};

verus! {

/// The health report for an uptime in seconds: healthy, with the library's
/// version and the API component healthy.
pub fn health_report(uptime: u64) -> (r: HealthCheckResponse)
    ensures
        r.status@ == "healthy"@,
        r.version@ == crate::VERSION@,
        r.uptime == uptime,
        r.components@.len() == 1,
        r.components@[0].name@ == "api"@,
        r.components@[0].status == ComponentStatus::Healthy,
        r.components@[0].details is None,
{
    let components = vec![
        ComponentHealth {
            name: String::from_str("api"),
            status: ComponentStatus::Healthy,
            details: None,
        },
    ];
    HealthCheckResponse {
        status: String::from_str("healthy"),
        version: String::from_str(crate::VERSION),
        uptime,
        components,
    }
}

/// The version information, built at `now`.
pub fn version_info(now: DateTimeUtc) -> (r: VersionInfo)
    ensures
        r.version@ == crate::VERSION@,
        r.build_timestamp == now,
        r.commit_hash@ == "unknown"@,
{
    VersionInfo {
        version: String::from_str(crate::VERSION),
        build_timestamp: now,
        commit_hash: String::from_str("unknown"),
    }
}

/// The result of a batch of `count` operations: all of them succeed.
pub fn batch_outcome(count: usize) -> (r: BatchOperationResponse)
    ensures
        r.success_count == count,
        r.failures@.len() == 0,
{
    BatchOperationResponse { success_count: count, failures: Vec::new() }
}

} // verus!
