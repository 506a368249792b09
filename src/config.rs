//! The server's settings, as the caller loads them.

use vstd::prelude::*;

verus! {

/// Where this server listens, and the sibling servers it mirrors to.
#[derive(Debug, PartialEq)]
pub struct ServerConfig {
    /// The address this server listens on.
    pub server_address: String,
    /// The addresses of the sibling servers.
    pub cluster_address: Vec<String>,
}

impl ServerConfig {
    /// Settings with the given addresses.
    pub fn new(server_address: String, cluster_address: Vec<String>) -> (r: Self)
        ensures
            r.server_address == server_address,
            r.cluster_address == cluster_address,
    {
        ServerConfig { server_address, cluster_address }
    }
}

} // verus!
