//! Fixed replies of the HTTP surface.
//!
//! The HTTP handlers themselves are asynchronous plumbing and live with the
//! callers; the payloads they answer with are built and pinned down here.

use vstd::prelude::*;

verus! {

/// Payload of the health endpoint.
pub struct HealthResponse {
    pub status: String,
}

/// The health endpoint always reports the status "ok".
pub fn health_check_response() -> (r: HealthResponse)
    ensures
        r.status@ == "ok"@,
{
    HealthResponse { status: "ok".to_owned() }
}

/// Message of the market-data endpoint while no live data source is wired up.
pub fn market_data_message() -> (m: String)
    ensures
        m@ == "Market data endpoint placeholder"@,
{
    "Market data endpoint placeholder".to_owned()
}

} // verus!
