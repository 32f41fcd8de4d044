//! Starting the server: where to listen, and with what configuration.
//!
//! Binding a socket and accepting connections is left to the caller. What is
//! decided here is the address to bind, as text, and the proxy that serves
//! the connections.

use crate::proxy::FBIProxy;
use crate::router::filter_of;
use crate::text::{decimal, push_decimal};
use vstd::prelude::*;
use vstd::string::*;

verus! {

/// The address that the server listens on where none is given.
pub const DEFAULT_BIND_HOST: &'static str = "127.0.0.1";

/// The address to bind: the host, a colon, and the port in decimal.
pub open spec fn bind_address(host: Seq<char>, port: u16) -> Seq<char> {
    host + ":"@ + decimal(port as nat)
}

/// The line that tells which hosts are served.
pub open spec fn filter_notice(domain: Seq<char>) -> Seq<char> {
    "Domain filter: Only accepting requests for *."@ + domain
}

/// What it takes to start the server.
#[derive(Debug)]
pub struct ServerPlan {
    /// The address to bind, as `host:port`.
    pub bind_address: String,
    /// The proxy that serves the connections.
    pub proxy: FBIProxy,
    /// The line that tells which hosts are served, where a filter is set.
    pub notice: Option<String>,
}

/// Plans a server on `host` and `port` that serves the hosts under
/// `domain_filter`, or every host where that is absent or empty.
pub fn start_proxy_server_with_options(
    host: &str,
    port: u16,
    domain_filter: Option<String>,
) -> (plan: ServerPlan)
    ensures
        plan.bind_address@ == bind_address(host@, port),
        plan.proxy.filter() == filter_of(domain_filter),
        match filter_of(domain_filter) {
            Some(domain) => plan.notice matches Some(line) && line@ == filter_notice(domain),
            None => plan.notice is None,
        },
{
    let mut address = String::from_str(host);
    address.append(":");
    push_decimal(&mut address, port);
    let notice = match &domain_filter {
        Some(domain) => {
            if !domain.as_str().is_empty() {
                let mut line = String::from_str("Domain filter: Only accepting requests for *.");
                line.append(domain.as_str());
                Some(line)
            } else {
                None
            }
        },
        None => None,
    };
    ServerPlan { bind_address: address, proxy: FBIProxy::new(domain_filter), notice }
}

/// Plans a server on `host` and `port` that serves every host.
pub fn start_proxy_server_with_host(host: &str, port: u16) -> (plan: ServerPlan)
    ensures
        plan.bind_address@ == bind_address(host@, port),
        plan.proxy.filter() is None,
        plan.notice is None,
{
    start_proxy_server_with_options(host, port, None)
}

/// Plans a server on the loopback address and `port` that serves every host.
pub fn start_proxy_server(port: u16) -> (plan: ServerPlan)
    ensures
        plan.bind_address@ == bind_address(DEFAULT_BIND_HOST@, port),
        plan.proxy.filter() is None,
        plan.notice is None,
{
    start_proxy_server_with_host(DEFAULT_BIND_HOST, port)
}

} // verus!
