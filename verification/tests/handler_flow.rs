use revproxy::handler::handle_event;
use revproxy::handler::ConnAction;
use revproxy::handler::ConnEvent;
use revproxy::handler::ConnPhase;
use revproxy::msg::Header;
use revproxy::msg::HttpResponse;
use revproxy::msg::InboundRequest;
use revproxy::msg::ProxyError;

fn base() -> Vec<u8> {
    b"http://127.0.0.1:3000".to_vec()
}

fn get_ping() -> InboundRequest {
    InboundRequest {
        method: b"GET".to_vec(),
        path_query: b"/ping".to_vec(),
        headers: vec![Header { name: b"host".to_vec(), value: b"proxy.test".to_vec() }],
        body: Vec::new(),
    }
}

fn pong() -> HttpResponse {
    HttpResponse { status: 200, headers: Vec::new(), body: b"pong".to_vec() }
}

#[test]
fn ping_request_is_forwarded_then_answered_with_pong() {
    let base = base();
    let (phase, action) = handle_event(ConnPhase::AwaitRequest, ConnEvent::Inbound(get_ping()), &base);
    assert_eq!(phase, ConnPhase::AwaitUpstream);
    match action {
        ConnAction::SendUpstream(out) => {
            assert_eq!(out.method, b"GET".to_vec());
            assert_eq!(out.uri, b"http://127.0.0.1:3000/ping".to_vec());
            assert_eq!(out.body, Vec::<u8>::new());
        }
        _ => panic!("expected the request to be sent upstream"),
    }
    let (phase, action) = handle_event(ConnPhase::AwaitUpstream, ConnEvent::Upstream(pong()), &base);
    assert_eq!(phase, ConnPhase::AwaitRequest);
    match action {
        ConnAction::WriteResponse(resp) => {
            assert_eq!(resp.status, 200);
            assert_eq!(resp.body, b"pong".to_vec());
        }
        _ => panic!("expected the response to be written back"),
    }
}

#[test]
fn upstream_down_fails_one_connection_and_the_next_succeeds() {
    let base = base();
    let (phase, _) = handle_event(ConnPhase::AwaitRequest, ConnEvent::Inbound(get_ping()), &base);
    assert_eq!(phase, ConnPhase::AwaitUpstream);
    let (phase, action) = handle_event(phase, ConnEvent::UpstreamFailed, &base);
    assert_eq!(phase, ConnPhase::Closed);
    assert!(matches!(action, ConnAction::Close(ProxyError::UpstreamFailed)));

    let (phase, _) = handle_event(ConnPhase::AwaitRequest, ConnEvent::Inbound(get_ping()), &base);
    assert_eq!(phase, ConnPhase::AwaitUpstream);
    let (phase, action) = handle_event(phase, ConnEvent::Upstream(pong()), &base);
    assert_eq!(phase, ConnPhase::AwaitRequest);
    assert!(matches!(action, ConnAction::WriteResponse(_)));
}

#[test]
fn decode_failure_closes_the_connection() {
    let (phase, action) = handle_event(ConnPhase::AwaitRequest, ConnEvent::DecodeFailed, &base());
    assert_eq!(phase, ConnPhase::Closed);
    assert!(matches!(action, ConnAction::Close(ProxyError::RequestDecode)));
}

#[test]
fn invalid_target_url_closes_with_no_upstream_contact() {
    let req = InboundRequest {
        method: b"GET".to_vec(),
        path_query: b"/a b".to_vec(),
        headers: Vec::new(),
        body: Vec::new(),
    };
    let (phase, action) = handle_event(ConnPhase::AwaitRequest, ConnEvent::Inbound(req), &base());
    assert_eq!(phase, ConnPhase::Closed);
    assert!(matches!(action, ConnAction::Close(ProxyError::InvalidTargetUrl)));
}

#[test]
fn response_to_first_request_precedes_second_request() {
    let base = base();
    let mut phase = ConnPhase::AwaitRequest;
    let mut writes: usize = 0;

    let (p, a) = handle_event(phase, ConnEvent::Inbound(get_ping()), &base);
    phase = p;
    assert!(matches!(a, ConnAction::SendUpstream(_)));
    assert_eq!(phase, ConnPhase::AwaitUpstream);

    let (p, a) = handle_event(phase, ConnEvent::Upstream(pong()), &base);
    phase = p;
    if matches!(a, ConnAction::WriteResponse(_)) {
        writes += 1;
    }
    assert_eq!(writes, 1);
    assert_eq!(phase, ConnPhase::AwaitRequest);

    let (p, a) = handle_event(phase, ConnEvent::Inbound(get_ping()), &base);
    phase = p;
    assert!(matches!(a, ConnAction::SendUpstream(_)));
    let (_, a) = handle_event(phase, ConnEvent::Upstream(pong()), &base);
    assert!(matches!(a, ConnAction::WriteResponse(_)));
}

#[test]
fn failure_on_one_connection_leaves_another_unaffected() {
    let base = base();
    let conn_a = handle_event(ConnPhase::AwaitRequest, ConnEvent::Inbound(get_ping()), &base).0;
    let conn_b = handle_event(ConnPhase::AwaitRequest, ConnEvent::Inbound(get_ping()), &base).0;

    let (a_phase, _) = handle_event(conn_a, ConnEvent::UpstreamFailed, &base);
    assert_eq!(a_phase, ConnPhase::Closed);

    let (b_phase, b_action) = handle_event(conn_b, ConnEvent::Upstream(pong()), &base);
    assert_eq!(b_phase, ConnPhase::AwaitRequest);
    match b_action {
        ConnAction::WriteResponse(resp) => {
            assert_eq!(resp.status, 200);
            assert_eq!(resp.body, b"pong".to_vec());
        }
        _ => panic!("the unrelated connection must complete"),
    }
}
