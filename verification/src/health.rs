//! The health endpoint's response.

use vstd::prelude::*;

use crate::ids::now_rfc3339;

verus! {

pub struct HealthResponse {
    pub status: String,
    pub version: String,
    pub timestamp: String,
}

/// The healthy answer, stamped with the current time.
pub fn health_response(version: String) -> (r: HealthResponse)
    ensures
        r.status@ == "healthy"@,
        r.version == version,
{
    HealthResponse { status: "healthy".to_owned(), version, timestamp: now_rfc3339() }
}

} // verus!
