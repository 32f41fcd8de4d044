use fbi_proxy::relay::{relay_answer, Answer, Upstream};
use fbi_proxy::reply::{tunnel_established, Failure, Reply, CONNECT_TIMEOUT_MS};

const ALL: [Failure; 5] = [
    Failure::RoutingRejected,
    Failure::UpstreamUnreachable,
    Failure::UpstreamTimeout,
    Failure::WebSocketDialFailure,
    Failure::InternalFailure,
];

#[test]
fn each_failure_has_its_status_and_body() {
    assert_eq!(
        Failure::RoutingRejected.reply(),
        Reply { status: 502, body: "Bad Gateway: Host not allowed".to_string() }
    );
    assert_eq!(
        Failure::UpstreamUnreachable.reply(),
        Reply { status: 502, body: "FBIPROXY ERROR: connect refused".to_string() }
    );
    assert_eq!(
        Failure::UpstreamTimeout.reply(),
        Reply { status: 502, body: "FBIPROXY ERROR: timed out".to_string() }
    );
    assert_eq!(
        Failure::WebSocketDialFailure.reply(),
        Reply { status: 502, body: "WebSocket connection failed".to_string() }
    );
    assert_eq!(
        Failure::InternalFailure.reply(),
        Reply { status: 500, body: "Internal Server Error".to_string() }
    );
}

#[test]
fn failures_can_be_told_apart_by_their_bodies() {
    for (i, a) in ALL.iter().enumerate() {
        for (j, b) in ALL.iter().enumerate() {
            if i != j {
                assert_ne!(a.reply().body, b.reply().body);
            }
        }
    }
}

#[test]
fn established_tunnel_is_200_without_body() {
    assert_eq!(tunnel_established(), Reply { status: 200, body: String::new() });
    for failure in ALL {
        assert_ne!(failure.reply(), tunnel_established());
    }
}

#[test]
fn connect_timeout_is_three_seconds() {
    assert_eq!(CONNECT_TIMEOUT_MS, 3000);
}

#[test]
fn upstream_response_goes_back_as_it_is() {
    let response: Vec<u8> = b"HTTP/1.1 404 Not Found\r\ncontent-encoding: gzip\r\n\r\n\x1f\x8b".to_vec();
    assert_eq!(relay_answer(Upstream::Answered(response.clone())), Answer::Upstream(response));
    assert_eq!(relay_answer(Upstream::Answered(Vec::<u8>::new())), Answer::Upstream(Vec::new()));
    assert_eq!(relay_answer(Upstream::Answered((500u16, "x"))), Answer::Upstream((500u16, "x")));
}

#[test]
fn unreachable_upstream_is_a_502() {
    assert_eq!(
        relay_answer(Upstream::<Vec<u8>>::Unreachable),
        Answer::Proxy(Reply { status: 502, body: "FBIPROXY ERROR: connect refused".to_string() })
    );
}

#[test]
fn slow_upstream_is_a_502_of_its_own() {
    assert_eq!(
        relay_answer(Upstream::<Vec<u8>>::TimedOut),
        Answer::Proxy(Reply { status: 502, body: "FBIPROXY ERROR: timed out".to_string() })
    );
}
