use fbi_proxy::journal::{log_line, plan_target, request_line, NO_TARGET};
use fbi_proxy::proxy::{handle_connection, FBIProxy, Plan, RequestHead};
use fbi_proxy::reply::Failure;

fn request(method: &str, host: Option<&str>, path: Option<&str>) -> RequestHead {
    RequestHead {
        method: method.to_string(),
        host: host.map(|h| h.to_string()),
        authority: None,
        path_and_query: path.map(|p| p.to_string()),
        is_upgrade: false,
    }
}

#[test]
fn line_names_method_host_target_path_and_status() {
    assert_eq!(
        log_line("GET", "3000.fbi.com", "localhost:3000", "/a?b=c", 200, None),
        "GET 3000.fbi.com@localhost:3000/a?b=c 200"
    );
    assert_eq!(
        log_line("POST", "api--8080", "api:8080", "/", 404, None),
        "POST api--8080@api:8080/ 404"
    );
    assert_eq!(log_line("", "", "", "", 0, None), " @ 0");
}

#[test]
fn failed_request_is_logged_with_its_reason() {
    assert_eq!(
        log_line("GET", "amd", "amd:80", "/x", 502, Some("connection refused")),
        "GET amd@amd:80/x 502 (connection refused)"
    );
    assert_eq!(log_line("GET", "amd", "amd:80", "/x", 500, Some("")), "GET amd@amd:80/x 500 ()");
}

#[test]
fn target_of_a_plan_is_its_authority() {
    let relay = Plan::Relay {
        authority: "amd:80".to_string(),
        uri: "http://amd:80/".to_string(),
        host: "sur".to_string(),
        timeout_ms: 3000,
    };
    assert_eq!(plan_target(&relay), "amd:80");
    let bridge = Plan::Bridge { authority: "a:1".to_string(), url: "ws://a:1/".to_string() };
    assert_eq!(plan_target(&bridge), "a:1");
    let tunnel = Plan::Tunnel { authority: "db:5432".to_string(), timeout_ms: 3000 };
    assert_eq!(plan_target(&tunnel), "db:5432");
    assert_eq!(plan_target(&Plan::LandingPage), "-");
    assert_eq!(plan_target(&Plan::Respond { reply: Failure::RoutingRejected.reply() }), NO_TARGET);
}

#[test]
fn relayed_request_is_logged_with_its_target() {
    let head = request("GET", Some("3000.fbi.com:2432"), Some("/a?b=c"));
    let plan = handle_connection(&head, &FBIProxy::new(Some("fbi.com".to_string())));
    assert_eq!(
        request_line(&head, &plan, 200, None),
        "GET 3000.fbi.com:2432@localhost:3000/a?b=c 200"
    );
    assert_eq!(
        request_line(&head, &plan, 502, Some("timed out")),
        "GET 3000.fbi.com:2432@localhost:3000/a?b=c 502 (timed out)"
    );
}

#[test]
fn rejected_request_is_logged_without_a_target() {
    let head = request("GET", Some("other.com"), Some("/"));
    let plan = handle_connection(&head, &FBIProxy::new(Some("fbi.com".to_string())));
    assert_eq!(
        request_line(&head, &plan, 502, Some("Bad Gateway: Host not allowed")),
        "GET other.com@-/ 502 (Bad Gateway: Host not allowed)"
    );
}

#[test]
fn request_without_host_or_path_is_logged_with_the_defaults() {
    let head = request("HEAD", None, None);
    let plan = handle_connection(&head, &FBIProxy::new(None));
    assert_eq!(request_line(&head, &plan, 204, None), "HEAD localhost@localhost:80/ 204");
    assert_eq!(head.named_host(), "localhost");
    assert_eq!(request("GET", Some("amd"), None).named_host(), "amd");
}
