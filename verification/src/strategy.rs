//! Connection strategy: which endpoint to try first, and the one-shot
//! fallback from a failed proxied attempt to a single direct attempt.

use vstd::prelude::*;
use crate::endpoints::{Proxy, Tunnel};

verus! {

/// The path a connection attempt takes: through the configured proxy, or
/// straight to the tunnel's destination.
#[derive(Clone, Copy, Debug, PartialEq, Eq, Structural)]
pub enum Route {
    Proxied,
    Direct,
}

/// The route of the first connection attempt: through the proxy exactly
/// when one is configured.
pub open spec fn spec_initial_route(has_proxy: bool) -> Route {
    if has_proxy {
        Route::Proxied
    } else {
        Route::Direct
    }
}

/// After a failed attempt on `failed`, the route of the next attempt, if
/// any: a failed proxied attempt falls back to one direct attempt; a failed
/// direct attempt ends the operation.
pub open spec fn spec_fallback_route(failed: Route) -> Option<Route> {
    match failed {
        Route::Proxied => Some(Route::Direct),
        Route::Direct => None,
    }
}

/// Whether a stream obtained on `route` went through the proxy, and hence
/// owes the CONNECT handshake and response validation.
pub open spec fn spec_route_is_proxied(route: Route) -> bool {
    route is Proxied
}

pub fn initial_route(has_proxy: bool) -> (r: Route)
    ensures
        r == spec_initial_route(has_proxy),
{
    if has_proxy {
        Route::Proxied
    } else {
        Route::Direct
    }
}

pub fn fallback_route(failed: Route) -> (r: Option<Route>)
    ensures
        r == spec_fallback_route(failed),
{
    match failed {
        Route::Proxied => Some(Route::Direct),
        Route::Direct => None,
    }
}

pub fn route_is_proxied(route: Route) -> (r: bool)
    ensures
        r == spec_route_is_proxied(route),
{
    match route {
        Route::Proxied => true,
        Route::Direct => false,
    }
}

/// The host and port a given route connects to: the proxy's own address
/// when proxied, the tunnel destination when direct.
pub fn route_endpoint<'a>(route: Route, tunnel: &'a Tunnel, proxy: Option<&'a Proxy>) -> (r: (
    &'a str,
    u16,
))
    requires
        route is Proxied ==> proxy is Some,
    ensures
        route is Proxied ==> r.0@ == proxy->Some_0.host@ && r.1 == proxy->Some_0.port,
        route is Direct ==> r.0@ == tunnel.remote_host@ && r.1 == tunnel.remote_port,
{
    match route {
        Route::Proxied => {
            let p = proxy.unwrap();
            (p.host.as_str(), p.port)
        },
        Route::Direct => (tunnel.remote_host.as_str(), tunnel.remote_port),
    }
}

} // verus!
