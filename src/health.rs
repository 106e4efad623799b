//! The liveness probe.

use vstd::prelude::*;
use crate::routes::{Endpoint, Method, ServiceConfig};

verus! {

/// The version that the probe reports.
pub const API_VERSION: &'static str = "v0.0.3";

/// The header that carries the version.
pub const HEALTH_HEADER: &'static str = "health-check";

/// The probe's answer: a status and one header, with no body.
#[derive(Debug, PartialEq, Eq)]
pub struct HealthCheck {
    pub status: u16,
    pub header_name: &'static str,
    pub header_value: &'static str,
}

/// Registers `GET /health`.
pub fn service(cfg: &mut ServiceConfig)
    ensures
        final(cfg)@ == old(cfg)@.push((Method::Get, "/health"@, Endpoint::HealthCheck)),
{
    cfg.route("/health", Method::Get, Endpoint::HealthCheck);
}

/// Answers the probe: 200, with the version in the `health-check` header.
pub fn health_check() -> (r: HealthCheck)
    ensures
        r.status == 200,
        r.header_name == HEALTH_HEADER,
        r.header_value == API_VERSION,
{
    HealthCheck { status: 200, header_name: HEALTH_HEADER, header_value: API_VERSION }
}

} // verus!
