//! The two endpoint descriptions a tunnel works with: the final
//! destination, and the optional intermediary forward proxy.

use vstd::prelude::*;

verus! {

/// The final destination of the tunnel. Supplied by the caller and treated
/// as an opaque immutable value: no hostname syntax is validated here.
#[derive(Clone, Debug)]
pub struct Tunnel {
    pub remote_host: String,
    pub remote_port: u16,
}

/// An intermediary forward proxy. Its absence means a direct connection.
#[derive(Clone, Debug)]
pub struct Proxy {
    pub host: String,
    pub port: u16,
}

impl Tunnel {
    pub fn new(remote_host: String, remote_port: u16) -> (r: Tunnel)
        ensures
            r.remote_host@ == remote_host@,
            r.remote_port == remote_port,
    {
        Tunnel { remote_host, remote_port }
    }
}

impl Proxy {
    pub fn new(host: String, port: u16) -> (r: Proxy)
        ensures
            r.host@ == host@,
            r.port == port,
    {
        Proxy { host, port }
    }
}

} // verus!
