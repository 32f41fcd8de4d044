//! The proxy: what to do with one request.
//!
//! The proxy holds the configuration, which never changes while it runs, and
//! decides for each request where it goes. It does no I/O: a request comes
//! in as the few plain values that the decision reads, and the decision goes
//! out as a plan that the caller carries out.

use crate::relay::{
    asks_for_websocket, dial_url, first_host, header_values, host_header, http_uri, path_or_root,
    relay_error, relay_uri, request_path, uri_parses, validate_relay, wants_websocket,
    websocket_url, ProxyError,
};
use crate::reply::{Failure, Reply, ReplyView, CONNECT_TIMEOUT_MS};
use crate::router::{filter_of, route_host, routed, Decision, RoutingDecision};
use crate::text::same_text;
use hyper::header::HeaderValue;
use hyper::HeaderMap;
use vstd::prelude::*;
use vstd::string::*;

verus! {

/// The host that a request without a usable `Host` header is routed by.
pub const DEFAULT_HOST: &'static str = "localhost";

/// The method that asks for a tunnel.
pub const CONNECT: &'static str = "CONNECT";

/// What the proxy reads of a request.
#[derive(Debug, PartialEq, Eq)]
pub struct RequestHead {
    /// The method, as it stands in the request line.
    pub method: String,
    /// The `Host` header, where the request has one that is text.
    pub host: Option<String>,
    /// The authority of the request's URI, where it has one.
    pub authority: Option<String>,
    /// The path and query of the request's URI, where it has them.
    pub path_and_query: Option<String>,
    /// Whether the request asks for an upgrade to WebSocket.
    pub is_upgrade: bool,
}

/// The mathematical value of a `RequestHead`.
pub struct RequestHeadView {
    pub method: Seq<char>,
    pub host: Option<Seq<char>>,
    pub authority: Option<Seq<char>>,
    pub path_and_query: Option<Seq<char>>,
    pub is_upgrade: bool,
}

/// The mathematical value of an optional text.
pub open spec fn text_of(text: Option<String>) -> Option<Seq<char>> {
    match text {
        Some(t) => Some(t@),
        None => None,
    }
}

impl View for RequestHead {
    type V = RequestHeadView;

    open spec fn view(&self) -> RequestHeadView {
        RequestHeadView {
            method: self.method@,
            host: text_of(self.host),
            authority: text_of(self.authority),
            path_and_query: text_of(self.path_and_query),
            is_upgrade: self.is_upgrade,
        }
    }
}

/// The mathematical value of an optional text slice.
pub open spec fn slice_of(text: Option<&str>) -> Option<Seq<char>> {
    match text {
        Some(t) => Some(t@),
        None => None,
    }
}

/// Makes an owned text of an optional slice.
fn owned(text: Option<&str>) -> (copy: Option<String>)
    ensures
        text_of(copy) == slice_of(text),
{
    match text {
        Some(t) => Some(String::from_str(t)),
        None => None,
    }
}

impl RequestHead {
    /// Gathers what the proxy reads of a request: its method, the
    /// authority and the path and query of its URI, and from its headers
    /// the `Host` header and whether they ask for an upgrade to WebSocket.
    /// Of several `Host` headers the first counts, and one that is not text
    /// counts as none.
    pub fn read(
        method: &str,
        headers: &HeaderMap<HeaderValue>,
        authority: Option<&str>,
        path_and_query: Option<&str>,
    ) -> (head: RequestHead)
        ensures
            head@ == (RequestHeadView {
                method: method@,
                host: host_header(header_values(*headers)),
                authority: slice_of(authority),
                path_and_query: slice_of(path_and_query),
                is_upgrade: asks_for_websocket(header_values(*headers)),
            }),
    {
        RequestHead {
            method: String::from_str(method),
            host: first_host(headers),
            authority: owned(authority),
            path_and_query: owned(path_and_query),
            is_upgrade: wants_websocket(headers),
        }
    }
}

impl RequestHead {
    /// The host that the request names: its `Host` header, or `localhost`
    /// where it has none.
    pub fn named_host(&self) -> (host: &str)
        ensures
            host@ == self@.named_host(),
    {
        match &self.host {
            Some(host) => host.as_str(),
            None => DEFAULT_HOST,
        }
    }
}

/// What is to be done with a request.
#[derive(Debug, PartialEq, Eq)]
pub enum Plan {
    /// Answer with `reply`. No upstream is contacted.
    Respond { reply: Reply },
    /// Answer with the landing page.
    LandingPage,
    /// Relay the request to `authority`: send it to `uri` with `host` as
    /// its `Host` header, and give up connecting after `timeout_ms`
    /// milliseconds.
    Relay { authority: String, uri: String, host: String, timeout_ms: u64 },
    /// Bridge a WebSocket to `authority`: dial it at `url`.
    Bridge { authority: String, url: String },
    /// Open a tunnel to `authority`, and give up connecting after
    /// `timeout_ms` milliseconds.
    Tunnel { authority: String, timeout_ms: u64 },
}

/// The mathematical value of a `Plan`.
pub enum PlanView {
    Respond { reply: ReplyView },
    LandingPage,
    Relay { authority: Seq<char>, uri: Seq<char>, host: Seq<char>, timeout_ms: int },
    Bridge { authority: Seq<char>, url: Seq<char> },
    Tunnel { authority: Seq<char>, timeout_ms: int },
}

impl View for Plan {
    type V = PlanView;

    open spec fn view(&self) -> PlanView {
        match self {
            Plan::Respond { reply } => PlanView::Respond { reply: reply@ },
            Plan::LandingPage => PlanView::LandingPage,
            Plan::Relay { authority, uri, host, timeout_ms } => PlanView::Relay {
                authority: authority@,
                uri: uri@,
                host: host@,
                timeout_ms: *timeout_ms as int,
            },
            Plan::Bridge { authority, url } => PlanView::Bridge {
                authority: authority@,
                url: url@,
            },
            Plan::Tunnel { authority, timeout_ms } => PlanView::Tunnel {
                authority: authority@,
                timeout_ms: *timeout_ms as int,
            },
        }
    }
}

impl RequestHeadView {
    /// The host that the request names: its `Host` header, or `localhost`
    /// where it has none.
    pub open spec fn named_host(self) -> Seq<char> {
        match self.host {
            Some(host) => host,
            None => DEFAULT_HOST@,
        }
    }

    /// Whether the request asks for a tunnel.
    pub open spec fn is_connect(self) -> bool {
        self.method == CONNECT@
    }

    /// The text that names the target. For a tunnel it is the authority of
    /// the request's URI; for anything else it is the `Host` header, or
    /// `localhost` where there is none.
    pub open spec fn target(self) -> Option<Seq<char>> {
        if self.is_connect() {
            self.authority
        } else {
            Some(self.named_host())
        }
    }

    /// The decision of the router on this request. A tunnel to nowhere is
    /// rejected.
    pub open spec fn decision(self, filter: Option<Seq<char>>) -> Decision {
        match self.target() {
            Some(target) => routed(target, filter),
            None => Decision::Rejected,
        }
    }

    /// The URI that the request is relayed to, once the router has named
    /// `authority`.
    pub open spec fn relay_uri(self, authority: Seq<char>) -> Seq<char> {
        http_uri(authority, path_or_root(self.path_and_query))
    }
}

/// The plan for a request that the router has decided on, given whether the
/// URI to relay it to is one. Only a request that is relayed depends on
/// that.
pub open spec fn planned(request: RequestHeadView, decision: Decision, uri_ok: bool) -> Result<
    PlanView,
    ProxyError,
> {
    match decision {
        Decision::Rejected => Ok(PlanView::Respond { reply: Failure::RoutingRejected.answer() }),
        Decision::LandingPage => Ok(PlanView::LandingPage),
        Decision::Forward { authority, host } => {
            if request.is_connect() {
                Ok(PlanView::Tunnel { authority, timeout_ms: CONNECT_TIMEOUT_MS as int })
            } else if request.is_upgrade {
                Ok(
                    PlanView::Bridge {
                        authority,
                        url: websocket_url(authority, path_or_root(request.path_and_query)),
                    },
                )
            } else {
                match relay_error(uri_ok, host) {
                    Some(error) => Err(error),
                    None => Ok(
                        PlanView::Relay {
                            authority,
                            uri: request.relay_uri(authority),
                            host,
                            timeout_ms: CONNECT_TIMEOUT_MS as int,
                        },
                    ),
                }
            }
        },
    }
}

/// Whether the URI that `request` would be relayed to under `decision` is
/// one. Where the decision names no target there is no such URI.
pub open spec fn relay_uri_parses(request: RequestHeadView, decision: Decision) -> bool {
    match decision {
        Decision::Forward { authority, host } => uri_parses(request.relay_uri(authority)),
        _ => true,
    }
}

/// The mathematical value of a plan or the error in its place.
pub open spec fn outcome_of(outcome: Result<Plan, ProxyError>) -> Result<PlanView, ProxyError> {
    match outcome {
        Ok(plan) => Ok(plan@),
        Err(error) => Err(error),
    }
}

/// The plan that stands for an outcome: the plan itself, or the answer to an
/// internal failure where there is none.
pub open spec fn settled(outcome: Result<PlanView, ProxyError>) -> PlanView {
    match outcome {
        Ok(plan) => plan,
        Err(_) => PlanView::Respond { reply: Failure::InternalFailure.answer() },
    }
}

/// The proxy's configuration, shared by all requests.
#[derive(Debug)]
pub struct FBIProxy {
    domain_filter: Option<String>,
}

impl FBIProxy {
    /// The domain that hosts are restricted to, if any.
    pub closed spec fn filter(&self) -> Option<Seq<char>> {
        filter_of(self.domain_filter)
    }

    /// Makes a proxy that serves the hosts under `domain_filter`, or every
    /// host where that is absent or empty.
    pub fn new(domain_filter: Option<String>) -> (proxy: Self)
        ensures
            proxy.filter() == filter_of(domain_filter),
    {
        FBIProxy { domain_filter }
    }

    /// The filter that the proxy was made with.
    pub fn domain_filter(&self) -> (domain_filter: &Option<String>)
        ensures
            filter_of(*domain_filter) == self.filter(),
    {
        &self.domain_filter
    }

    /// Decides where a request with the given `Host` header goes.
    pub fn parse_host(&self, host_header: &str) -> (decision: RoutingDecision)
        ensures
            decision@ == routed(host_header@, self.filter()),
            decision@.well_formed(),
    {
        route_host(host_header, &self.domain_filter)
    }

    /// Makes the plan for a request that the router has decided on.
    pub fn plan_request(&self, request: &RequestHead, decision: RoutingDecision) -> (outcome:
        Result<Plan, ProxyError>)
        ensures
            outcome_of(outcome) == planned(
                request@,
                decision@,
                relay_uri_parses(request@, decision@),
            ),
    {
        match decision {
            RoutingDecision::Rejected => Ok(
                Plan::Respond { reply: Failure::RoutingRejected.reply() },
            ),
            RoutingDecision::LandingPage => Ok(Plan::LandingPage),
            RoutingDecision::Forward { target_authority, rewritten_host } => {
                if same_text(request.method.as_str(), CONNECT) {
                    return Ok(
                        Plan::Tunnel {
                            authority: target_authority,
                            timeout_ms: CONNECT_TIMEOUT_MS,
                        },
                    );
                }
                let path = request_path(&request.path_and_query);
                if request.is_upgrade {
                    let url = dial_url(target_authority.as_str(), path);
                    return Ok(Plan::Bridge { authority: target_authority, url });
                }
                let uri = relay_uri(target_authority.as_str(), path);
                match validate_relay(uri.as_str(), rewritten_host.as_str()) {
                    Ok(()) => Ok(
                        Plan::Relay {
                            authority: target_authority,
                            uri,
                            host: rewritten_host,
                            timeout_ms: CONNECT_TIMEOUT_MS,
                        },
                    ),
                    Err(error) => Err(error),
                }
            },
        }
    }

    /// Decides what to do with a request.
    pub fn handle_request(&self, request: &RequestHead) -> (outcome: Result<Plan, ProxyError>)
        ensures
            outcome_of(outcome) == planned(
                request@,
                request@.decision(self.filter()),
                relay_uri_parses(request@, request@.decision(self.filter())),
            ),
    {
        let decision = if same_text(request.method.as_str(), CONNECT) {
            match &request.authority {
                Some(authority) => self.parse_host(authority.as_str()),
                None => RoutingDecision::Rejected,
            }
        } else {
            self.parse_host(request.named_host())
        };
        self.plan_request(request, decision)
    }
}

/// Decides what to do with a request, whatever happens: where no plan can be
/// made the plan is to answer with an internal failure.
pub fn handle_connection(request: &RequestHead, proxy: &FBIProxy) -> (plan: Plan)
    ensures
        plan@ == settled(
            planned(
                request@,
                request@.decision(proxy.filter()),
                relay_uri_parses(request@, request@.decision(proxy.filter())),
            ),
        ),
{
    match proxy.handle_request(request) {
        Ok(plan) => plan,
        Err(_) => Plan::Respond { reply: Failure::InternalFailure.reply() },
    }
}

} // verus!
