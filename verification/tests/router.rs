use fbi_proxy::proxy::FBIProxy;
use fbi_proxy::router::{
    decode_label, match_domain, route_host, strip_port, DomainMatch, RoutingDecision,
};

fn forward(authority: &str, host: &str) -> RoutingDecision {
    RoutingDecision::Forward {
        target_authority: authority.to_string(),
        rewritten_host: host.to_string(),
    }
}

fn parse(host: &str) -> RoutingDecision {
    route_host(host, &None)
}

fn parse_under(host: &str, domain: &str) -> RoutingDecision {
    route_host(host, &Some(domain.to_string()))
}

#[test]
fn number_host_goes_to_local_port() {
    assert_eq!(parse("3000"), forward("localhost:3000", "localhost"));
    assert_eq!(parse("0"), forward("localhost:0", "localhost"));
    assert_eq!(parse("8080"), forward("localhost:8080", "localhost"));
    assert_eq!(
        parse("000123456789012345678901234567890"),
        forward("localhost:000123456789012345678901234567890", "localhost")
    );
}

#[test]
fn double_dash_names_host_and_port() {
    assert_eq!(parse("api--8080"), forward("api:8080", "api"));
    assert_eq!(parse("sur--3000"), forward("sur:3000", "sur"));
    assert_eq!(parse("localhost--3000"), forward("localhost:3000", "localhost"));
}

#[test]
fn double_dash_splits_at_the_first_occurrence() {
    assert_eq!(parse("a--b--c"), forward("a:b--c", "a"));
    assert_eq!(parse("a---8080"), forward("a:-8080", "a"));
    assert_eq!(parse("--3000"), forward(":3000", ""));
    assert_eq!(parse("api--"), forward("api:", "api"));
    assert_eq!(parse("--"), forward(":", ""));
}

#[test]
fn double_dash_wins_over_dots() {
    assert_eq!(parse("a.b--80"), forward("a.b:80", "a.b"));
    assert_eq!(parse("a--80.b"), forward("a:80.b", "a"));
}

#[test]
fn single_dash_is_part_of_the_name() {
    assert_eq!(parse("my-host"), forward("my-host:80", "my-host"));
    assert_eq!(parse("a-b-c"), forward("a-b-c:80", "a-b-c"));
}

#[test]
fn subdomains_are_hoisted() {
    assert_eq!(parse("3000.amd"), forward("amd:80", "3000"));
    assert_eq!(parse("amd.sur.amd"), forward("amd:80", "amd.sur"));
    assert_eq!(parse("3000.localhost"), forward("localhost:80", "3000"));
    assert_eq!(parse("sur.amd"), forward("amd:80", "sur"));
    assert_eq!(parse("3000.sur.amd"), forward("amd:80", "3000.sur"));
}

#[test]
fn dots_at_the_ends_make_empty_labels() {
    assert_eq!(parse(".amd"), forward("amd:80", ""));
    assert_eq!(parse("amd."), forward(":80", "amd"));
    assert_eq!(parse("."), forward(":80", ""));
    assert_eq!(parse("a..b"), forward("b:80", "a."));
}

#[test]
fn single_label_goes_to_port_80() {
    assert_eq!(parse("localhost"), forward("localhost:80", "localhost"));
    assert_eq!(parse("amd"), forward("amd:80", "amd"));
    assert_eq!(parse("@"), forward("@:80", "@"));
}

#[test]
fn empty_host_is_a_single_label() {
    assert_eq!(parse(""), forward(":80", ""));
    assert_eq!(parse(":8080"), forward(":80", ""));
}

#[test]
fn port_of_the_header_is_ignored() {
    assert_eq!(parse("localhost:8080"), forward("localhost:80", "localhost"));
    assert_eq!(parse("3000:99"), forward("localhost:3000", "localhost"));
    assert_eq!(parse("api--8080:2432"), forward("api:8080", "api"));
    assert_eq!(parse("amd.sur.amd:2432"), forward("amd:80", "amd.sur"));
    assert_eq!(parse("a:b:c"), forward("a:80", "a"));
}

#[test]
fn only_ascii_digits_make_a_number() {
    assert_eq!(parse("３０００"), forward("３０００:80", "３０００"));
    assert_eq!(parse("٣٠٠٠"), forward("٣٠٠٠:80", "٣٠٠٠"));
    assert_eq!(parse("30a0"), forward("30a0:80", "30a0"));
    assert_eq!(parse("3000\n"), forward("3000\n:80", "3000\n"));
    assert_eq!(parse(" 3000"), forward(" 3000:80", " 3000"));
}

#[test]
fn hosts_beyond_ascii_are_cut_by_characters() {
    assert_eq!(parse("é--80"), forward("é:80", "é"));
    assert_eq!(parse("münchen.straße"), forward("straße:80", "münchen"));
    assert_eq!(parse("日本:80"), forward("日本:80", "日本"));
    assert_eq!(parse_under("日本.例え", "例え"), forward("日本:80", "日本"));
}

#[test]
fn filter_strips_the_domain_and_its_dot() {
    assert_eq!(parse_under("3000.fbi.com", "fbi.com"), forward("localhost:3000", "localhost"));
    assert_eq!(parse_under("api--8080.fbi.com", "fbi.com"), forward("api:8080", "api"));
    assert_eq!(parse_under("a.b.fbi.com", "fbi.com"), forward("b:80", "a"));
    assert_eq!(parse_under("amd.fbi.com:2432", "fbi.com"), forward("amd:80", "amd"));
    assert_eq!(parse_under(".fbi.com", "fbi.com"), forward(":80", ""));
}

#[test]
fn filter_rejects_other_hosts() {
    assert_eq!(parse_under("other.com", "fbi.com"), RoutingDecision::Rejected);
    assert_eq!(parse_under("3000", "fbi.com"), RoutingDecision::Rejected);
    assert_eq!(parse_under("", "fbi.com"), RoutingDecision::Rejected);
    assert_eq!(parse_under("fbi.com.evil", "fbi.com"), RoutingDecision::Rejected);
    assert_eq!(parse_under("FBI.COM", "fbi.com"), RoutingDecision::Rejected);
    assert_eq!(parse_under("3000.FBI.com", "fbi.com"), RoutingDecision::Rejected);
}

#[test]
fn filter_needs_the_separating_dot() {
    assert_eq!(parse_under("xfbi.com", "fbi.com"), RoutingDecision::Rejected);
    assert_eq!(parse_under("3000fbi.com", "fbi.com"), RoutingDecision::Rejected);
    assert_eq!(parse_under("a-fbi.com", "fbi.com"), RoutingDecision::Rejected);
}

#[test]
fn filter_root_is_the_landing_page() {
    assert_eq!(parse_under("fbi.com", "fbi.com"), RoutingDecision::LandingPage);
    assert_eq!(parse_under("fbi.com", "fbi.com"), RoutingDecision::LandingPage);
    assert_eq!(parse_under("fbi.com:2432", "fbi.com"), RoutingDecision::LandingPage);
}

#[test]
fn empty_filter_accepts_every_host() {
    assert_eq!(parse_under("3000", ""), forward("localhost:3000", "localhost"));
    assert_eq!(parse_under("other.com", ""), forward("com:80", "other"));
    assert_eq!(parse_under("", ""), forward(":80", ""));
    assert_eq!(parse_under("amd.", ""), forward(":80", "amd"));
}

#[test]
fn filter_with_a_port_matches_nothing() {
    assert_eq!(parse_under("fbi.com:80", "fbi.com:80"), RoutingDecision::Rejected);
    assert_eq!(parse_under("a.fbi.com:80", "fbi.com:80"), RoutingDecision::Rejected);
}

#[test]
fn proxy_parses_with_the_filter_it_was_made_with() {
    let proxy = FBIProxy::new(Some("fbi.com".to_string()));
    assert_eq!(proxy.domain_filter(), &Some("fbi.com".to_string()));
    assert_eq!(proxy.parse_host("3000.fbi.com"), forward("localhost:3000", "localhost"));
    assert_eq!(proxy.parse_host("other.com"), RoutingDecision::Rejected);
    assert_eq!(proxy.parse_host("fbi.com"), RoutingDecision::LandingPage);
    let open = FBIProxy::new(None);
    assert_eq!(open.parse_host("other.com"), forward("com:80", "other"));
    let empty = FBIProxy::new(Some(String::new()));
    assert_eq!(empty.parse_host("other.com"), forward("com:80", "other"));
}

#[test]
fn target_has_one_colon_and_host_has_none() {
    let hosts = [
        "3000", "api--8080", "a.b.c", "localhost", "", "a--b--c", "x:1:2", ".", "--", "é.日本",
    ];
    for host in hosts {
        match parse(host) {
            RoutingDecision::Forward { target_authority, rewritten_host } => {
                assert_eq!(target_authority.matches(':').count(), 1);
                assert!(!rewritten_host.contains(':'));
            }
            other => panic!("{:?}", other),
        }
    }
}

#[test]
fn strip_port_cuts_at_the_first_colon() {
    assert_eq!(strip_port("localhost:8080"), "localhost");
    assert_eq!(strip_port("localhost"), "localhost");
    assert_eq!(strip_port(":8080"), "");
    assert_eq!(strip_port("a:b:c"), "a");
    assert_eq!(strip_port("[::1]:80"), "[");
    assert_eq!(strip_port("é:1"), "é");
    assert_eq!(strip_port(""), "");
}

#[test]
fn match_domain_tells_root_label_and_outside() {
    assert_eq!(match_domain("fbi.com", "fbi.com"), DomainMatch::Root);
    assert_eq!(match_domain("3000.fbi.com", "fbi.com"), DomainMatch::Under { label_len: 4 });
    assert_eq!(match_domain(".fbi.com", "fbi.com"), DomainMatch::Under { label_len: 0 });
    assert_eq!(match_domain("xfbi.com", "fbi.com"), DomainMatch::Outside);
    assert_eq!(match_domain("com", "fbi.com"), DomainMatch::Outside);
    assert_eq!(match_domain("é.fbi.com", "fbi.com"), DomainMatch::Under { label_len: 1 });
    assert_eq!(match_domain("", ""), DomainMatch::Root);
    assert_eq!(match_domain("a.", ""), DomainMatch::Under { label_len: 1 });
    assert_eq!(match_domain("a", ""), DomainMatch::Outside);
}

#[test]
fn decode_label_applies_the_rules_in_order() {
    assert_eq!(decode_label("42"), forward("localhost:42", "localhost"));
    assert_eq!(decode_label("4--2"), forward("4:2", "4"));
    assert_eq!(decode_label("4.2"), forward("2:80", "4"));
    assert_eq!(decode_label("four"), forward("four:80", "four"));
}
