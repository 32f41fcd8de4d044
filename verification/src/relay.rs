//! The HTTP relay: what is sent upstream, and what comes back.
//!
//! A request is relayed to the target that the router named. Its path and
//! query are kept as they are, its `Host` header becomes the rewritten host.
//! What the upstream answers goes back to the client unchanged; only when
//! the upstream cannot be reached does the proxy answer itself.

use crate::reply::{Failure, Reply};
use hyper::header::{HeaderValue, HOST};
use hyper::{HeaderMap, Request, Uri};
use hyper_tungstenite::is_upgrade_request;
use vstd::prelude::*;
use vstd::string::*;
use vstd::utf8::encode_utf8;

verus! {

/// Why a request for the upstream could not be built.
#[derive(Debug, Clone, Copy, PartialEq, Eq, Structural)]
pub enum ProxyError {
    /// The target and the path do not make a URI.
    InvalidUri,
    /// The rewritten host cannot stand in a header.
    InvalidHost,
    /// The request has no room for one more header.
    TooManyHeaders,
}

/// The header map of the `http` crate, which `hyper` hands out as
/// `hyper::HeaderMap`: the headers of one request or response.
#[verifier::external_type_specification]
#[verifier::external_body]
#[verifier::reject_recursive_types(T)]
pub struct ExHeaderMap<T>(HeaderMap<T>);

/// The value of one header in the `http` crate.
#[verifier::external_type_specification]
#[verifier::external_body]
pub struct ExHeaderValue(HeaderValue);

/// What a header map holds: under each name, in lower case, the values of
/// the headers of that name, in order, each as its bytes. A name without
/// headers is not in the map.
pub uninterp spec fn header_values(headers: HeaderMap<HeaderValue>) -> Map<Seq<char>, Seq<Seq<u8>>>;

/// The name of the `Host` header, as a header map holds it.
pub open spec fn host_name() -> Seq<char> {
    "host"@
}

/// The path and query of a request, or `/` where it has none.
pub open spec fn path_or_root(path_and_query: Option<Seq<char>>) -> Seq<char> {
    match path_and_query {
        Some(path) => path,
        None => "/"@,
    }
}

/// The URI that a request is relayed to: the target over plain HTTP, with
/// the path and query of the request.
pub open spec fn http_uri(authority: Seq<char>, path: Seq<char>) -> Seq<char> {
    "http://"@ + authority + path
}

/// The URL that a WebSocket upgrade is dialed at.
pub open spec fn websocket_url(authority: Seq<char>, path: Seq<char>) -> Seq<char> {
    "ws://"@ + authority + path
}

/// Whether `c` may stand in the value of a header: the tab, and any
/// character from the space on but the delete character.
pub open spec fn is_header_char(c: char) -> bool {
    (c >= ' ' && c != '\u{7f}') || c == '\t'
}

/// Whether `value` can be the value of a header.
pub open spec fn is_header_value(value: Seq<char>) -> bool {
    forall|i: int| 0 <= i < value.len() ==> is_header_char(#[trigger] value[i])
}

/// Whether the `http` crate reads `uri` as a URI.
pub uninterp spec fn uri_parses(uri: Seq<char>) -> bool;

/// Asks the `http` crate, through `hyper::Uri`, whether `uri` is a URI:
/// calls `Uri::from_str` and tells whether it succeeded. Which texts are
/// URIs is left to that crate; the contract gives the answer a name.
#[verifier::external_body]
fn uri_is_valid(uri: &str) -> (valid: bool)
    ensures
        valid == uri_parses(uri@),
{
    uri.parse::<Uri>().is_ok()
}

/// Asks the `http` crate, through `hyper::header::HeaderValue`, whether
/// `value` can be a header value: calls `HeaderValue::from_str` and tells
/// whether it succeeded. That function accepts a text exactly when each of
/// its bytes is 32 or more and not 127, or is the tab. The bytes of
/// a character beyond ASCII are all 128 or more, so this is a test on the
/// characters.
#[verifier::external_body]
fn header_value_is_valid(value: &str) -> (valid: bool)
    ensures
        valid == is_header_value(value@),
{
    HeaderValue::from_str(value).is_ok()
}

/// Whether `b` is a visible ASCII character, a space or a tab.
pub open spec fn is_visible_ascii(b: u8) -> bool {
    (32 <= b && b < 127) || b == 9
}

/// Whether `value` is made of visible ASCII characters, spaces and tabs.
pub open spec fn is_text(value: Seq<u8>) -> bool {
    forall|i: int| 0 <= i < value.len() ==> is_visible_ascii(#[trigger] value[i])
}

/// The text that the ASCII bytes of `value` spell.
pub open spec fn spelled(value: Seq<u8>) -> Seq<char> {
    Seq::new(value.len(), |i: int| value[i] as char)
}

/// The `Host` header that a request is routed by: its first one, where that
/// is text.
pub open spec fn host_header(fields: Map<Seq<char>, Seq<Seq<u8>>>) -> Option<Seq<char>> {
    if fields.contains_key(host_name()) && fields[host_name()].len() > 0 && is_text(
        fields[host_name()][0],
    ) {
        Some(spelled(fields[host_name()][0]))
    } else {
        None
    }
}

/// Reads the `Host` header: looks it up with `HeaderMap::get` under
/// `hyper::header::HOST`, which gives the first value of that name, and
/// turns it into text with `HeaderValue::to_str`, which succeeds exactly
/// when every byte is visible ASCII, a space or a tab.
#[verifier::external_body]
pub(crate) fn first_host(headers: &HeaderMap<HeaderValue>) -> (host: Option<String>)
    ensures
        match host {
            Some(text) => host_header(header_values(*headers)) == Some(text@),
            None => host_header(header_values(*headers)) is None,
        },
{
    match headers.get(HOST) {
        Some(value) => match value.to_str() {
            Ok(text) => Some(text.to_owned()),
            Err(_) => None,
        },
        None => None,
    }
}

/// Whether headers ask for an upgrade to WebSocket, as `hyper_tungstenite`
/// reads them.
pub uninterp spec fn asks_for_websocket(fields: Map<Seq<char>, Seq<Seq<u8>>>) -> bool;

/// Asks `hyper_tungstenite::is_upgrade_request` whether a request with these
/// headers wants an upgrade to WebSocket. That function takes a request and
/// reads nothing of it but its `Connection` and `Upgrade` headers, so it is
/// handed an empty request with a copy of the headers. How it reads the two
/// headers is left to that crate; the contract gives the answer a name.
#[verifier::external_body]
pub(crate) fn wants_websocket(headers: &HeaderMap<HeaderValue>) -> (upgrade: bool)
    ensures
        upgrade == asks_for_websocket(header_values(*headers)),
{
    let mut request = Request::new(());
    *request.headers_mut() = headers.clone();
    is_upgrade_request(&request)
}

/// Puts `value` under the name `host` in place of whatever is there:
/// makes the value with `HeaderValue::from_str` and stores it with
/// `HeaderMap::try_insert` under `hyper::header::HOST`. `try_insert` removes
/// every value that the name had and leaves the new one alone under it; no
/// other name is touched. It fails, and changes nothing, when the map cannot
/// grow; when that is depends on what the map has allocated, so the contract
/// does not say. The value holds the bytes of the text.
#[verifier::external_body]
fn store_host(headers: &mut HeaderMap<HeaderValue>, value: &str) -> (stored: bool)
    requires
        is_header_value(value@),
    ensures
        stored ==> header_values(*final(headers)) == header_values(*old(headers)).insert(
            host_name(),
            seq![encode_utf8(value@)],
        ),
        !stored ==> header_values(*final(headers)) == header_values(*old(headers)),
{
    match HeaderValue::from_str(value) {
        Ok(header) => headers.try_insert(HOST, header).is_ok(),
        Err(_) => false,
    }
}

/// The headers `before` with `host` in place of their `Host` headers.
pub open spec fn with_host(before: Map<Seq<char>, Seq<Seq<u8>>>, host: Seq<char>) -> Map<
    Seq<char>,
    Seq<Seq<u8>>,
> {
    before.insert(host_name(), seq![encode_utf8(host)])
}

/// Replaces the `Host` header of a request with `host`. Whatever `Host`
/// headers the request had are gone, and there is exactly one afterwards;
/// all other headers stay. A host that cannot stand in a header is refused.
/// Where the map has no room the headers stay as they were.
pub fn rewrite_host(headers: &mut HeaderMap<HeaderValue>, host: &str) -> (done: Result<
    (),
    ProxyError,
>)
    ensures
        !is_header_value(host@) <==> done == Err::<(), ProxyError>(ProxyError::InvalidHost),
        is_header_value(host@) && done is Err ==> done == Err::<(), ProxyError>(
            ProxyError::TooManyHeaders,
        ),
        done is Ok ==> header_values(*final(headers)) == with_host(
            header_values(*old(headers)),
            host@,
        ),
        done is Err ==> header_values(*final(headers)) == header_values(*old(headers)),
{
    if !header_value_is_valid(host) {
        return Err(ProxyError::InvalidHost);
    }
    if store_host(headers, host) {
        Ok(())
    } else {
        Err(ProxyError::TooManyHeaders)
    }
}

/// Headers whose host was replaced hold that host as their one and only
/// `Host` header, and every other header as it was: the host is never
/// duplicated, and nothing else is rewritten.
pub proof fn lemma_host_is_replaced_alone(before: Map<Seq<char>, Seq<Seq<u8>>>, host: Seq<char>)
    ensures
        with_host(before, host).contains_key(host_name()),
        with_host(before, host)[host_name()] == seq![encode_utf8(host)],
        with_host(before, host)[host_name()].len() == 1,
        forall|name: Seq<char>|
            name != host_name() ==> (with_host(before, host).contains_key(name)
                <==> before.contains_key(name)),
        forall|name: Seq<char>|
            name != host_name() && before.contains_key(name) ==> with_host(before, host)[name]
                == before[name],
        with_host(with_host(before, host), host) == with_host(before, host),
{
}

/// The path and query to ask the upstream for.
pub fn request_path<'a>(path_and_query: &'a Option<String>) -> (path: &'a str)
    ensures
        path@ == path_or_root(
            match *path_and_query {
                Some(p) => Some(p@),
                None => None,
            },
        ),
{
    match path_and_query {
        Some(path) => path.as_str(),
        None => "/",
    }
}

/// Builds the URI that a request is relayed to.
pub fn relay_uri(authority: &str, path: &str) -> (uri: String)
    ensures
        uri@ == http_uri(authority@, path@),
{
    let mut uri = String::from_str("http://");
    uri.append(authority);
    uri.append(path);
    uri
}

/// Builds the URL that a WebSocket upgrade is dialed at.
pub fn dial_url(authority: &str, path: &str) -> (url: String)
    ensures
        url@ == websocket_url(authority@, path@),
{
    let mut url = String::from_str("ws://");
    url.append(authority);
    url.append(path);
    url
}

/// What stands in the way of relaying to `uri` with the `Host` header
/// `host`, given whether `uri` is a URI: an invalid URI first, then a host
/// that cannot stand in a header.
pub open spec fn relay_error(uri_ok: bool, host: Seq<char>) -> Option<ProxyError> {
    if !uri_ok {
        Some(ProxyError::InvalidUri)
    } else if !is_header_value(host) {
        Some(ProxyError::InvalidHost)
    } else {
        None
    }
}

/// Checks the rewritten host of a request whose URI has been checked, with
/// `uri_ok` as the outcome.
pub fn check_relay(uri_ok: bool, host: &str) -> (checked: Result<(), ProxyError>)
    ensures
        checked == match relay_error(uri_ok, host@) {
            Some(error) => Err::<(), ProxyError>(error),
            None => Ok(()),
        },
{
    if !uri_ok {
        Err(ProxyError::InvalidUri)
    } else if !header_value_is_valid(host) {
        Err(ProxyError::InvalidHost)
    } else {
        Ok(())
    }
}

/// Checks that a request can be relayed to `uri` with the `Host` header
/// `host`.
pub fn validate_relay(uri: &str, host: &str) -> (checked: Result<(), ProxyError>)
    ensures
        checked == match relay_error(uri_parses(uri@), host@) {
            Some(error) => Err::<(), ProxyError>(error),
            None => Ok(()),
        },
{
    let uri_ok = uri_is_valid(uri);
    check_relay(uri_ok, host)
}

/// How the attempt to reach the upstream ended. `R` is the upstream's
/// response, whatever it is made of.
#[derive(Debug, PartialEq, Eq)]
pub enum Upstream<R> {
    /// The upstream answered with `R`.
    Answered(R),
    /// The upstream refused the connection or could not be found.
    Unreachable,
    /// Connecting and sending took longer than the bound.
    TimedOut,
}

/// What the client gets.
#[derive(Debug, PartialEq, Eq)]
pub enum Answer<R> {
    /// The upstream's response, as it is.
    Upstream(R),
    /// A response of the proxy's own.
    Proxy(Reply),
}

/// The failure that an attempt ended in, if it did.
pub open spec fn upstream_failure<R>(outcome: Upstream<R>) -> Option<Failure> {
    match outcome {
        Upstream::Answered(_) => None,
        Upstream::Unreachable => Some(Failure::UpstreamUnreachable),
        Upstream::TimedOut => Some(Failure::UpstreamTimeout),
    }
}

/// Turns the outcome of a relayed request into what the client gets: the
/// upstream's response itself, untouched, or a 502 that tells a refused
/// connection from a timeout.
pub fn relay_answer<R>(outcome: Upstream<R>) -> (answer: Answer<R>)
    ensures
        outcome matches Upstream::Answered(response) ==> answer == Answer::Upstream(response),
        upstream_failure(outcome) matches Some(failure) ==> (answer matches Answer::Proxy(reply)
            && reply@ == failure.answer()),
{
    match outcome {
        Upstream::Answered(response) => Answer::Upstream(response),
        Upstream::Unreachable => Answer::Proxy(Failure::UpstreamUnreachable.reply()),
        Upstream::TimedOut => Answer::Proxy(Failure::UpstreamTimeout.reply()),
    }
}

} // verus!
