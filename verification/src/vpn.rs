//! The payload types of the mobile VPN capability, and the desktop
//! loopback implementation of its ping.
//!
//! On mobile platforms the proxy runs inside a platform VPN service that
//! this library treats as an opaque capability with start, stop and ping
//! operations; these are the plain values that cross that boundary. On
//! desktop the capability is a loopback: a ping simply echoes its payload.

use vstd::prelude::*;

verus! {

/// A ping request: an optional probe value the capability echoes back.
#[derive(Debug)]
pub struct PingRequest {
    pub value: Option<String>,
}

/// A ping response: the echoed probe value.
#[derive(Debug, Clone)]
pub struct PingResponse {
    pub value: Option<String>,
}

impl Default for PingResponse {
    /// The default response carries no value.
    fn default() -> (r: Self)
        ensures
            r.value is None,
    {
        PingResponse { value: None }
    }
}

/// A request to start the platform VPN: the full configuration text the
/// service needs.
#[derive(Debug)]
pub struct StartVpnRequest {
    pub config: String,
}

/// The platform's answer to a start request.
#[derive(Debug)]
pub struct StartVpnResponse {
    pub status: String,
}

/// The platform's answer to a stop request.
#[derive(Debug)]
pub struct StopVpnResponse {
    pub status: String,
}

/// The desktop VPN capability: no platform service exists there, so the
/// capability is a loopback.
#[derive(Debug)]
pub struct VpnHelper;

impl VpnHelper {
    /// A desktop ping echoes the request's value unchanged.
    pub fn ping(&self, payload: PingRequest) -> (r: PingResponse)
        ensures
            r.value == payload.value,
    {
        PingResponse { value: payload.value }
    }
}

} // verus!
