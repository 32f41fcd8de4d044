//! The answers that the proxy gives on its own account.
//!
//! Whatever goes wrong with one request ends in a response to that request.
//! Each kind of failure has a status and a plain-text body of its own, so
//! that a client can tell them apart.

use vstd::prelude::*;
use vstd::string::*;

verus! {

/// The kinds of failure that are answered by the proxy itself.
#[derive(Debug, Clone, Copy, PartialEq, Eq, Structural)]
pub enum Failure {
    /// The host is not under the configured domain. No upstream is contacted.
    RoutingRejected,
    /// The upstream refused the connection or could not be found.
    UpstreamUnreachable,
    /// Connecting to the upstream took longer than the bound.
    UpstreamTimeout,
    /// The WebSocket dial to the upstream failed. The client is not upgraded.
    WebSocketDialFailure,
    /// A request for the upstream could not be built.
    InternalFailure,
}

/// A response made by the proxy: a status code and a plain-text body.
#[derive(Debug, PartialEq, Eq)]
pub struct Reply {
    pub status: u16,
    pub body: String,
}

/// The mathematical value of a `Reply`.
pub struct ReplyView {
    pub status: int,
    pub body: Seq<char>,
}

impl View for Reply {
    type V = ReplyView;

    open spec fn view(&self) -> ReplyView {
        ReplyView { status: self.status as int, body: self.body@ }
    }
}

/// The status `502 Bad Gateway`.
pub const STATUS_BAD_GATEWAY: u16 = 502;

/// The status `500 Internal Server Error`.
pub const STATUS_INTERNAL_SERVER_ERROR: u16 = 500;

/// The status `200 OK`.
pub const STATUS_OK: u16 = 200;

/// The longest that connecting to an upstream may take, in milliseconds.
pub const CONNECT_TIMEOUT_MS: u64 = 3000;

impl Failure {
    /// The status that answers this failure: 500 for an internal failure,
    /// 502 for every other.
    pub open spec fn status(self) -> int {
        match self {
            Failure::InternalFailure => 500,
            _ => 502,
        }
    }

    /// The body that answers this failure.
    pub open spec fn message(self) -> Seq<char> {
        match self {
            Failure::RoutingRejected => "Bad Gateway: Host not allowed"@,
            Failure::UpstreamUnreachable => "FBIPROXY ERROR: connect refused"@,
            Failure::UpstreamTimeout => "FBIPROXY ERROR: timed out"@,
            Failure::WebSocketDialFailure => "WebSocket connection failed"@,
            Failure::InternalFailure => "Internal Server Error"@,
        }
    }

    /// The answer to this failure, as a mathematical value.
    pub open spec fn answer(self) -> ReplyView {
        ReplyView { status: self.status(), body: self.message() }
    }

    /// Builds the response that answers this failure.
    pub fn reply(self) -> (reply: Reply)
        ensures
            reply@ == self.answer(),
    {
        match self {
            Failure::RoutingRejected => Reply {
                status: STATUS_BAD_GATEWAY,
                body: String::from_str("Bad Gateway: Host not allowed"),
            },
            Failure::UpstreamUnreachable => Reply {
                status: STATUS_BAD_GATEWAY,
                body: String::from_str("FBIPROXY ERROR: connect refused"),
            },
            Failure::UpstreamTimeout => Reply {
                status: STATUS_BAD_GATEWAY,
                body: String::from_str("FBIPROXY ERROR: timed out"),
            },
            Failure::WebSocketDialFailure => Reply {
                status: STATUS_BAD_GATEWAY,
                body: String::from_str("WebSocket connection failed"),
            },
            Failure::InternalFailure => Reply {
                status: STATUS_INTERNAL_SERVER_ERROR,
                body: String::from_str("Internal Server Error"),
            },
        }
    }
}

/// The answer to a `CONNECT` whose tunnel stands: status 200 and no body.
pub open spec fn established() -> ReplyView {
    ReplyView { status: 200, body: Seq::empty() }
}

/// Builds the answer to a `CONNECT` whose tunnel stands.
pub fn tunnel_established() -> (reply: Reply)
    ensures
        reply@ == established(),
{
    Reply { status: STATUS_OK, body: String::new() }
}

/// Different failures have different bodies: a client can tell from the
/// text alone what went wrong.
pub proof fn lemma_messages_are_distinct(a: Failure, b: Failure)
    requires
        a != b,
    ensures
        a.message() != b.message(),
        a.answer() != b.answer(),
{
    reveal_strlit("Bad Gateway: Host not allowed");
    reveal_strlit("FBIPROXY ERROR: connect refused");
    reveal_strlit("FBIPROXY ERROR: timed out");
    reveal_strlit("WebSocket connection failed");
    reveal_strlit("Internal Server Error");
    assert(a.message().len() != b.message().len());
}

/// No failure is answered with a success: the status is 500 or 502, and the
/// body is never empty.
pub proof fn lemma_failure_is_not_success(a: Failure)
    ensures
        a.status() == 500 || a.status() == 502,
        a.message().len() > 0,
        a.answer() != established(),
{
    reveal_strlit("Bad Gateway: Host not allowed");
    reveal_strlit("FBIPROXY ERROR: connect refused");
    reveal_strlit("FBIPROXY ERROR: timed out");
    reveal_strlit("WebSocket connection failed");
    reveal_strlit("Internal Server Error");
}

} // verus!
