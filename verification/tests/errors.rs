use llmkey_pool::error::{ProxyError, STATUS_BAD_GATEWAY, STATUS_INTERNAL, STATUS_UNAUTHORIZED};
use llmkey_pool::forward::{relay, Attempt, ResponseHead};
use llmkey_pool::message::Header;

#[test]
fn each_failure_has_its_status() {
    assert_eq!(ProxyError::Internal("x".to_string()).status_code(), 500);
    assert_eq!(ProxyError::Upstream("x".to_string()).status_code(), 502);
    assert_eq!(ProxyError::Unauthorized("x".to_string()).status_code(), 401);
    assert_eq!((STATUS_INTERNAL, STATUS_BAD_GATEWAY, STATUS_UNAUTHORIZED), (500, 502, 401));
}

#[test]
fn failure_body_quotes_the_text() {
    let e = ProxyError::Upstream("no route".to_string());
    assert_eq!(e.response_body(), "Proxy Error: no route");
    assert_eq!(ProxyError::Internal(String::new()).response_body(), "Proxy Error: ");
}

#[test]
fn gate_rejection_text() {
    match ProxyError::unauthorized() {
        ProxyError::Unauthorized(text) => {
            assert_eq!(text, "Invalid or missing 'Authorization: Bearer <TOKEN>' header")
        }
        other => panic!("unexpected {:?}", other),
    }
    assert_eq!(
        ProxyError::unauthorized().response_body(),
        "Proxy Error: Invalid or missing 'Authorization: Bearer <TOKEN>' header"
    );
}

#[test]
fn failures_built_from_a_reason() {
    assert!(matches!(ProxyError::invalid_target("bad"),
        ProxyError::Internal(t) if t == "URL build fail: bad"));
    assert!(matches!(ProxyError::upstream_unreachable("dns"),
        ProxyError::Upstream(t) if t == "Failed to send request to Gemini API: dns"));
    assert!(matches!(ProxyError::response_unbuildable("hdr"),
        ProxyError::Internal(t) if t == "Failed to build response: hdr"));
    assert!(matches!(ProxyError::pool_unavailable("poisoned"),
        ProxyError::Internal(t) if t == "Failed to lock API key manager mutex: poisoned"));
}

#[test]
fn upstream_answer_is_passed_on_unchanged() {
    for status in [200u16, 204, 404, 429, 500, 502, 503] {
        let head = ResponseHead {
            status,
            headers: vec![
                Header { name: "content-type".to_string(), value: b"application/json".to_vec() },
                Header { name: "x-trace".to_string(), value: vec![0xff, 0x00, 0x7f] },
            ],
        };
        let out = relay(Attempt::Answered(head)).unwrap();
        assert_eq!(out.status, status);
        assert_eq!(out.headers.len(), 2);
        assert_eq!(out.headers[0].name, "content-type");
        assert_eq!(out.headers[0].value, b"application/json".to_vec());
        assert_eq!(out.headers[1].name, "x-trace");
        assert_eq!(out.headers[1].value, vec![0xff, 0x00, 0x7f]);
    }
}

#[test]
fn unreachable_upstream_is_a_gateway_failure() {
    match relay(Attempt::Unreachable("connection refused".to_string())) {
        Err(e) => {
            assert_eq!(e.status_code(), 502);
            assert_eq!(
                e.response_body(),
                "Proxy Error: Failed to send request to Gemini API: connection refused"
            );
        }
        Ok(_) => panic!("an unreachable upstream must not yield a response"),
    }
}
