//! Health reports and the outbound-call reply.

use vstd::prelude::*;

verus! {

/// Health of a component.
#[derive(PartialEq, Eq, Structural, Clone, Copy)]
pub enum HealthStatus {
    Up,
    Down,
    Unknown,
}

impl HealthStatus {
    /// The upper-case name used in health reports.
    pub fn as_str(&self) -> (r: &'static str)
        ensures
            *self == HealthStatus::Up ==> r@ == "UP"@,
            *self == HealthStatus::Down ==> r@ == "DOWN"@,
            *self == HealthStatus::Unknown ==> r@ == "UNKNOWN"@,
    {
        match self {
            HealthStatus::Up => "UP",
            HealthStatus::Down => "DOWN",
            HealthStatus::Unknown => "UNKNOWN",
        }
    }
}

/// Health of one named component.
pub struct HealthCheck {
    pub name: String,
    pub status: HealthStatus,
}

/// The health report: overall status and each component's.
pub struct HealthResponse {
    pub status: HealthStatus,
    pub checks: Vec<HealthCheck>,
}

/// The overall status: down if any component is down, else unknown if any
/// is unknown, else up.
pub open spec fn overall(checks: Seq<HealthCheck>) -> HealthStatus {
    if exists|i: int| 0 <= i < checks.len() && checks[i].status == HealthStatus::Down {
        HealthStatus::Down
    } else if exists|i: int| 0 <= i < checks.len() && checks[i].status == HealthStatus::Unknown {
        HealthStatus::Unknown
    } else {
        HealthStatus::Up
    }
}

/// Computes the overall status of a set of component checks.
pub fn overall_status(checks: &Vec<HealthCheck>) -> (r: HealthStatus)
    ensures
        r == overall(checks@),
{
    let mut any_down = false;
    let mut any_unknown = false;
    let mut i: usize = 0;
    while i < checks.len()
        invariant
            0 <= i <= checks@.len(),
            any_down == exists|k: int| 0 <= k < i && checks@[k].status == HealthStatus::Down,
            any_unknown == exists|k: int|
                0 <= k < i && checks@[k].status == HealthStatus::Unknown,
        decreases checks@.len() - i,
    {
        match checks[i].status {
            HealthStatus::Down => {
                any_down = true;
            },
            HealthStatus::Unknown => {
                any_unknown = true;
            },
            HealthStatus::Up => {},
        }
        i = i + 1;
    }
    if any_down {
        HealthStatus::Down
    } else if any_unknown {
        HealthStatus::Unknown
    } else {
        HealthStatus::Up
    }
}

impl HealthResponse {
    /// A report over `checks`, with their overall status.
    pub fn from_checks(checks: Vec<HealthCheck>) -> (r: HealthResponse)
        ensures
            r.checks == checks,
            r.status == overall(checks@),
    {
        let status = overall_status(&checks);
        HealthResponse { status, checks }
    }
}

/// The reply to a request for an outbound call.
pub struct MakeCallResponse {
    pub message: String,
    pub call_id: String,
}

} // verus!
