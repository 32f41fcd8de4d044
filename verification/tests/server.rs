use fbi_proxy::router::RoutingDecision;
use fbi_proxy::server::{
    start_proxy_server, start_proxy_server_with_host, start_proxy_server_with_options,
};
use fbi_proxy::text::push_decimal;

fn decimal(n: u16) -> String {
    let mut out = String::new();
    push_decimal(&mut out, n);
    out
}

#[test]
fn decimal_numerals_have_no_leading_zeros() {
    assert_eq!(decimal(0), "0");
    assert_eq!(decimal(7), "7");
    assert_eq!(decimal(9), "9");
    assert_eq!(decimal(10), "10");
    assert_eq!(decimal(99), "99");
    assert_eq!(decimal(100), "100");
    assert_eq!(decimal(2432), "2432");
    assert_eq!(decimal(24306), "24306");
    assert_eq!(decimal(65535), "65535");
    assert_eq!(decimal(1090), "1090");
}

#[test]
fn decimal_agrees_with_the_standard_library() {
    for n in 0..=u16::MAX {
        assert_eq!(decimal(n), n.to_string());
    }
}

#[test]
fn push_decimal_appends() {
    let mut out = String::from("127.0.0.1:");
    push_decimal(&mut out, 2432);
    assert_eq!(out, "127.0.0.1:2432");
}

#[test]
fn default_server_listens_on_loopback() {
    let plan = start_proxy_server(2432);
    assert_eq!(plan.bind_address, "127.0.0.1:2432");
    assert_eq!(plan.proxy.domain_filter(), &None);
    assert_eq!(plan.notice, None);
}

#[test]
fn server_with_host_serves_every_host() {
    let plan = start_proxy_server_with_host("0.0.0.0", 3000);
    assert_eq!(plan.bind_address, "0.0.0.0:3000");
    assert_eq!(plan.notice, None);
    assert_eq!(
        plan.proxy.parse_host("other.com"),
        RoutingDecision::Forward {
            target_authority: "com:80".to_string(),
            rewritten_host: "other".to_string(),
        }
    );
}

#[test]
fn server_with_filter_announces_it() {
    let plan = start_proxy_server_with_options("127.0.0.1", 8080, Some("fbi.com".to_string()));
    assert_eq!(plan.bind_address, "127.0.0.1:8080");
    assert_eq!(
        plan.notice,
        Some("Domain filter: Only accepting requests for *.fbi.com".to_string())
    );
    assert_eq!(plan.proxy.parse_host("other.com"), RoutingDecision::Rejected);
}

#[test]
fn server_with_empty_filter_announces_nothing() {
    let plan = start_proxy_server_with_options("::1", 0, Some(String::new()));
    assert_eq!(plan.bind_address, "::1:0");
    assert_eq!(plan.notice, None);
    let plan = start_proxy_server_with_options("", 65535, None);
    assert_eq!(plan.bind_address, ":65535");
    assert_eq!(plan.notice, None);
}
