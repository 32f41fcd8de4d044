//! A reverse proxy for local development that picks the upstream by
//! decoding the `Host` header.
//!
//! This crate is the proxy's logic, without its I/O: the router that turns
//! a `Host` header into a target, the plan for each request, the relay's
//! handling of headers and answers, and the state machine that bridges
//! WebSocket upgrades and `CONNECT` tunnels. A server around it reports what
//! happens on its sockets and carries out what the library decides.

pub mod bridge;
pub mod journal;
pub mod labels;
pub mod proxy;
pub mod relay;
pub mod reply;
pub mod router;
pub mod server;
pub mod splice;
pub mod text;

pub use proxy::{handle_connection, FBIProxy, Plan, RequestHead};
pub use relay::ProxyError;
pub use reply::{Failure, Reply};
pub use router::RoutingDecision;
pub use server::{
    start_proxy_server, start_proxy_server_with_host, start_proxy_server_with_options, ServerPlan,
};
