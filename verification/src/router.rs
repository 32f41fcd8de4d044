//! The host router: from a `Host` header to a routing decision.
//!
//! A header is decoded in three steps. The port is cut off at the first
//! colon. Where a domain filter is set, the host must lie under that domain
//! and is reduced to the label in front of it. The label then names the
//! target: a number is a port on `localhost`, `name--port` is that host and
//! port, `sub.domain` is `domain` on port 80 with `sub` as the new host, and
//! anything else is that host on port 80.

use crate::text::{
    ends_with, find_char, find_dashes, first_at, first_dashes, first_dashes_at, first_index_of,
    is_decimal, is_digit, last_at, last_index_of, lemma_first_index_of, lemma_first_index_of_none,
    rfind_char, to_chars,
};
use regex::Regex;
use vstd::prelude::*;
use vstd::string::*;

verus! {

/// The pattern of a host that is a port number: one or more ASCII digits and
/// nothing else.
pub const NUMBER_PATTERN: &'static str = "^[0-9]+$";

/// What the router decides for one request.
#[derive(Debug, PartialEq, Eq)]
pub enum RoutingDecision {
    /// Forward to `target_authority`, a `host:port` pair, and announce
    /// `rewritten_host` as the `Host` header.
    Forward { target_authority: String, rewritten_host: String },
    /// The host is not under the configured domain.
    Rejected,
    /// The host is the configured domain itself.
    LandingPage,
}

/// The mathematical value of a `RoutingDecision`.
pub enum Decision {
    Forward { authority: Seq<char>, host: Seq<char> },
    Rejected,
    LandingPage,
}

impl View for RoutingDecision {
    type V = Decision;

    open spec fn view(&self) -> Decision {
        match self {
            RoutingDecision::Forward { target_authority, rewritten_host } => Decision::Forward {
                authority: target_authority@,
                host: rewritten_host@,
            },
            RoutingDecision::Rejected => Decision::Rejected,
            RoutingDecision::LandingPage => Decision::LandingPage,
        }
    }
}

/// How a host stands to a domain.
#[derive(Debug, Clone, Copy, PartialEq, Eq)]
pub enum DomainMatch {
    /// The host is the domain.
    Root,
    /// The host is a label of `label_len` characters, a dot, and the domain.
    Under { label_len: usize },
    /// The host is neither.
    Outside,
}

/// The header without its port: what stands before the first colon.
pub open spec fn host_part(header: Seq<char>) -> Seq<char> {
    match first_index_of(header, ':') {
        Some(i) => header.take(i),
        None => header,
    }
}

/// `host` is some label, one dot, and `domain`.
pub open spec fn under_domain(host: Seq<char>, domain: Seq<char>) -> bool {
    &&& host.len() > domain.len()
    &&& domain.is_suffix_of(host)
    &&& host[host.len() - domain.len() - 1] == '.'
}

/// The label of a host that is under `domain`.
pub open spec fn label_under(host: Seq<char>, domain: Seq<char>) -> Seq<char> {
    host.take(host.len() - domain.len() - 1)
}

/// `m` says how `host` stands to `domain`. For each host and domain exactly
/// one `m` does.
pub open spec fn is_domain_match(host: Seq<char>, domain: Seq<char>, m: DomainMatch) -> bool {
    match m {
        DomainMatch::Root => host == domain,
        DomainMatch::Under { label_len } => {
            &&& under_domain(host, domain)
            &&& label_len == host.len() - domain.len() - 1
        },
        DomainMatch::Outside => host != domain && !under_domain(host, domain),
    }
}

/// The target that a label names.
pub open spec fn decoded(label: Seq<char>) -> Decision {
    if is_decimal(label) {
        Decision::Forward { authority: "localhost:"@ + label, host: "localhost"@ }
    } else if let Some(p) = first_dashes(label) {
        Decision::Forward {
            authority: label.take(p) + ":"@ + label.skip(p + 2),
            host: label.take(p),
        }
    } else if let Some(d) = last_index_of(label, '.') {
        Decision::Forward { authority: label.skip(d + 1) + ":80"@, host: label.take(d) }
    } else {
        Decision::Forward { authority: label + ":80"@, host: label }
    }
}

/// The domain that a configured filter restricts hosts to. An empty filter
/// restricts nothing.
pub open spec fn filter_of(domain_filter: Option<String>) -> Option<Seq<char>> {
    match domain_filter {
        Some(domain) => if domain@.len() > 0 {
            Some(domain@)
        } else {
            None
        },
        None => None,
    }
}

/// The decision for a `Host` header under an optional domain filter.
pub open spec fn routed(header: Seq<char>, filter: Option<Seq<char>>) -> Decision {
    let host = host_part(header);
    match filter {
        Some(domain) => if host == domain {
            Decision::LandingPage
        } else if under_domain(host, domain) {
            decoded(label_under(host, domain))
        } else {
            Decision::Rejected
        },
        None => decoded(host),
    }
}

/// Asks the `regex` crate whether `text` matches `pattern`: compiles the
/// pattern with `Regex::new` and calls `Regex::is_match`. The contract is
/// claimed for `NUMBER_PATTERN` alone. In it `^` and `$` stand for the two
/// ends of the text, `[0-9]` for one ASCII digit and `+` for one or more, so
/// the text matches exactly when it is a non-empty run of ASCII digits.
#[verifier::external_body]
fn matches_pattern(pattern: &str, text: &str) -> (matched: bool)
    requires
        pattern@ == NUMBER_PATTERN@,
    ensures
        matched == is_decimal(text@),
{
    match Regex::new(pattern) {
        Ok(re) => re.is_match(text),
        Err(_) => false,
    }
}

/// Cuts the port off a `Host` header.
pub fn strip_port<'a>(header: &'a str) -> (host: &'a str)
    ensures
        host@ == host_part(header@),
{
    let chars = to_chars(header);
    match find_char(&chars, ':') {
        Some(i) => header.substring_char(0, i),
        None => header,
    }
}

/// Tells how `host` stands to `domain`.
pub fn match_domain(host: &str, domain: &str) -> (m: DomainMatch)
    ensures
        is_domain_match(host@, domain@, m),
{
    let h = to_chars(host);
    let d = to_chars(domain);
    if !ends_with(&h, &d) {
        return DomainMatch::Outside;
    }
    let prefix_len: usize = h.len() - d.len();
    if prefix_len == 0 {
        assert(h@ =~= d@);
        DomainMatch::Root
    } else if h[prefix_len - 1] == '.' {
        DomainMatch::Under { label_len: prefix_len - 1 }
    } else {
        DomainMatch::Outside
    }
}

/// Builds `left` followed by `right` as one string.
fn join2(left: &str, right: &str) -> (joined: String)
    ensures
        joined@ == left@ + right@,
{
    let mut joined = String::from_str(left);
    joined.append(right);
    joined
}

/// Builds `left`, then `middle`, then `right` as one string.
fn join3(left: &str, middle: &str, right: &str) -> (joined: String)
    ensures
        joined@ == left@ + middle@ + right@,
{
    let mut joined = String::from_str(left);
    joined.append(middle);
    joined.append(right);
    joined
}

/// Decodes a label into its target.
pub fn decode_label(label: &str) -> (decision: RoutingDecision)
    ensures
        decision@ == decoded(label@),
        decision is Forward,
{
    if matches_pattern(NUMBER_PATTERN, label) {
        return RoutingDecision::Forward {
            target_authority: join2("localhost:", label),
            rewritten_host: String::from_str("localhost"),
        };
    }
    let chars = to_chars(label);
    let len: usize = chars.len();
    if let Some(p) = find_dashes(&chars) {
        let name = label.substring_char(0, p);
        let port = label.substring_char(p + 2, len);
        return RoutingDecision::Forward {
            target_authority: join3(name, ":", port),
            rewritten_host: String::from_str(name),
        };
    }
    if let Some(d) = rfind_char(&chars, '.') {
        let main_domain = label.substring_char(d + 1, len);
        let subdomain = label.substring_char(0, d);
        return RoutingDecision::Forward {
            target_authority: join2(main_domain, ":80"),
            rewritten_host: String::from_str(subdomain),
        };
    }
    RoutingDecision::Forward {
        target_authority: join2(label, ":80"),
        rewritten_host: String::from_str(label),
    }
}

/// Decides where a request with the given `Host` header goes.
pub fn route_host(host_header: &str, domain_filter: &Option<String>) -> (decision: RoutingDecision)
    ensures
        decision@ == routed(host_header@, filter_of(*domain_filter)),
        decision@.well_formed(),
{
    proof {
        lemma_routed_is_well_formed(host_header@, filter_of(*domain_filter));
    }
    let host = strip_port(host_header);
    match domain_filter {
        Some(domain) => {
            if domain.as_str().is_empty() {
                return decode_label(host);
            }
            match match_domain(host, domain.as_str()) {
                DomainMatch::Root => RoutingDecision::LandingPage,
                DomainMatch::Under { label_len } => decode_label(host.substring_char(0, label_len)),
                DomainMatch::Outside => RoutingDecision::Rejected,
            }
        },
        None => decode_label(host),
    }
}

/// `authority` is a host, one colon and a port: it holds exactly one colon.
pub open spec fn has_explicit_port(authority: Seq<char>) -> bool {
    exists|i: int| first_at(authority, ':', i) && last_at(authority, ':', i)
}

impl Decision {
    /// A forwarding decision names its target with an explicit port and
    /// a new host without one.
    pub open spec fn well_formed(self) -> bool {
        match self {
            Decision::Forward { authority, host } => has_explicit_port(authority) && !host.contains(
                ':',
            ),
            Decision::Rejected => true,
            Decision::LandingPage => true,
        }
    }
}

/// The host part of a header holds no colon.
pub proof fn lemma_host_part_has_no_colon(header: Seq<char>)
    ensures
        !host_part(header).contains(':'),
{
    lemma_first_index_of_none(header, ':');
}

/// A header without a colon is its own host part.
pub proof fn lemma_host_part_without_port(header: Seq<char>)
    requires
        !header.contains(':'),
    ensures
        host_part(header) == header,
{
    lemma_first_index_of_none(header, ':');
}

/// The port of a header plays no part in the decision: a host followed by
/// a colon and anything whatever is routed as the host alone.
pub proof fn lemma_port_is_ignored(host: Seq<char>, port: Seq<char>, filter: Option<Seq<char>>)
    requires
        !host.contains(':'),
    ensures
        host_part(host + ":"@ + port) == host,
        routed(host + ":"@ + port, filter) == routed(host, filter),
{
    reveal_strlit(":");
    let header = host + ":"@ + port;
    lemma_first_index_of(header, ':', host.len() as int);
    lemma_host_part_without_port(host);
}

/// A label that is a number names that port on `localhost`.
pub proof fn lemma_number_is_local_port(label: Seq<char>)
    requires
        is_decimal(label),
    ensures
        decoded(label) == (Decision::Forward {
            authority: "localhost:"@ + label,
            host: "localhost"@,
        }),
        routed(label, None) == decoded(label),
{
    lemma_host_part_without_port(label);
}

/// A host under the filter's domain is routed by its label alone: the domain
/// and the one dot before it are consumed.
pub proof fn lemma_label_under_filter(label: Seq<char>, domain: Seq<char>)
    requires
        !label.contains(':'),
        !domain.contains(':'),
    ensures
        under_domain(label + "."@ + domain, domain),
        label_under(label + "."@ + domain, domain) == label,
        routed(label + "."@ + domain, Some(domain)) == decoded(label),
{
    reveal_strlit(".");
    lemma_host_part_without_port(label + "."@ + domain);
}

/// A host under a domain is its label, one dot, and the domain.
pub proof fn lemma_under_domain_parts(host: Seq<char>, domain: Seq<char>)
    requires
        under_domain(host, domain),
    ensures
        host == label_under(host, domain) + "."@ + domain,
{
    reveal_strlit(".");
}

/// The filter's domain itself is the landing page.
pub proof fn lemma_filter_root_is_landing_page(domain: Seq<char>)
    requires
        !domain.contains(':'),
    ensures
        routed(domain, Some(domain)) == Decision::LandingPage,
{
    lemma_host_part_without_port(domain);
}

/// With a filter a header is rejected exactly when its host is neither the
/// domain nor under it; without one nothing is rejected, and nothing is the
/// landing page.
pub proof fn lemma_rejection(header: Seq<char>, filter: Option<Seq<char>>)
    ensures
        filter matches Some(domain) ==> (routed(header, filter) is Rejected <==> host_part(header)
            != domain && !under_domain(host_part(header), domain)),
        filter matches Some(domain) ==> (routed(header, filter) is LandingPage <==> host_part(
            header,
        ) == domain),
        filter is None ==> routed(header, filter) is Forward,
{
}

/// The target of a label without a colon has an explicit port, and the new
/// host has none.
pub proof fn lemma_decoded_is_well_formed(label: Seq<char>)
    requires
        !label.contains(':'),
    ensures
        decoded(label).well_formed(),
{
    reveal_strlit("localhost:");
    reveal_strlit("localhost");
    reveal_strlit(":");
    reveal_strlit(":80");
    if is_decimal(label) {
        let authority = "localhost:"@ + label;
        assert(first_at(authority, ':', 9) && last_at(authority, ':', 9));
    } else if let Some(p) = first_dashes(label) {
        let authority = label.take(p) + ":"@ + label.skip(p + 2);
        assert(first_at(authority, ':', p) && last_at(authority, ':', p));
    } else if let Some(d) = last_index_of(label, '.') {
        let authority = label.skip(d + 1) + ":80"@;
        let k = label.len() - d - 1;
        assert(first_at(authority, ':', k) && last_at(authority, ':', k));
    } else {
        let authority = label + ":80"@;
        let k = label.len() as int;
        assert(first_at(authority, ':', k) && last_at(authority, ':', k));
    }
}

/// Every decision is well formed: a target always carries an explicit port,
/// and a rewritten host never carries one.
pub proof fn lemma_routed_is_well_formed(header: Seq<char>, filter: Option<Seq<char>>)
    ensures
        routed(header, filter).well_formed(),
{
    let host = host_part(header);
    lemma_host_part_has_no_colon(header);
    match filter {
        Some(domain) => {
            if host != domain && under_domain(host, domain) {
                lemma_decoded_is_well_formed(label_under(host, domain));
            }
        },
        None => {
            lemma_decoded_is_well_formed(host);
        },
    }
}

} // verus!
