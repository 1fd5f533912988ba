//! The liveness probe's answer.
use vstd::prelude::*;
use vstd::string::*;

use crate::ids::utc_now_rfc3339;

verus! {

/// Answer of `GET /health`.
#[derive(Debug)]
pub struct HealthReport {
    pub status: String,
    /// The current time (UTC), RFC 3339.
    pub timestamp: String,
}

/// The liveness answer: status `ok` and the current time.
pub fn health_report() -> (r: HealthReport)
    ensures
        r.status@ == "ok"@,
{
    HealthReport { status: String::from_str("ok"), timestamp: utc_now_rfc3339() }
}

} // verus!
