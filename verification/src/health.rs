//! Health reporting: the status of one named check and how the statuses of
//! many checks combine into an overall verdict. The service that stores
//! checks behind a lock, and the asynchronous providers that compute them,
//! run outside the library.

use vstd::prelude::*;

verus! {

/// How healthy one check, or the whole extension, is.
#[derive(Debug, Clone, Copy, PartialEq, Eq, Structural)]
pub enum HealthStatus {
    Healthy,
    Degraded,
    Unhealthy,
}

/// One named health check. The check time is carried as milliseconds since
/// the Unix epoch, as read by the caller's clock.
#[derive(Debug, Clone)]
pub struct HealthCheck {
    pub name: String,
    pub status: HealthStatus,
    pub message: Option<String>,
    pub last_check_millis: u64,
}

/// The combined verdict over a set of checks: unhealthy when any check is,
/// else degraded when any check is, else healthy — and healthy when there
/// are no checks at all.
pub open spec fn spec_overall_status(statuses: Seq<HealthStatus>) -> HealthStatus {
    if exists|i: int| 0 <= i < statuses.len() && statuses[i] == HealthStatus::Unhealthy {
        HealthStatus::Unhealthy
    } else if exists|i: int| 0 <= i < statuses.len() && statuses[i] == HealthStatus::Degraded {
        HealthStatus::Degraded
    } else {
        HealthStatus::Healthy
    }
}

/// The statuses of a list of checks, in order.
pub open spec fn statuses_of(checks: Seq<HealthCheck>) -> Seq<HealthStatus> {
    checks.map_values(|c: HealthCheck| c.status)
}

/// Combines the statuses of the given checks into the overall verdict.
pub fn overall_status(checks: &Vec<HealthCheck>) -> (r: HealthStatus)
    ensures
        r == spec_overall_status(statuses_of(checks@)),
{
    let ghost statuses = statuses_of(checks@);
    let mut has_degraded = false;
    let mut i: usize = 0;
    while i < checks.len()
        invariant
            0 <= i <= checks@.len(),
            statuses == statuses_of(checks@),
            statuses.len() == checks@.len(),
            forall|k: int| 0 <= k < i ==> statuses[k] != HealthStatus::Unhealthy,
            has_degraded == exists|k: int| 0 <= k < i && statuses[k] == HealthStatus::Degraded,
        decreases checks@.len() - i,
    {
        proof {
            assert(statuses[i as int] == checks@[i as int].status);
        }
        match checks[i].status {
            HealthStatus::Unhealthy => {
                return HealthStatus::Unhealthy;
            },
            HealthStatus::Degraded => {
                has_degraded = true;
            },
            HealthStatus::Healthy => {},
        }
        i = i + 1;
    }
    if has_degraded {
        HealthStatus::Degraded
    } else {
        HealthStatus::Healthy
    }
}

/// A snapshot of every check and the overall verdict, timestamped by the
/// caller's clock.
#[derive(Debug, Clone)]
pub struct HealthReport {
    pub status: HealthStatus,
    pub checks: Vec<HealthCheck>,
    pub timestamp_millis: u64,
}

} // verus!
