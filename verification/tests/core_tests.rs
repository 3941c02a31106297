use frl_proxy::data::{is_success_status, CanonicalRequest, CanonicalResponse, HttpReply};
use frl_proxy::shutdown::ShutdownLatch;

#[test]
fn success_classification_boundaries() {
    assert!(!is_success_status(199));
    assert!(is_success_status(200));
    assert!(is_success_status(299));
    assert!(!is_success_status(300));
    assert!(!is_success_status(400));
    assert!(!is_success_status(502));
}

#[test]
fn shutdown_latch_fires_exactly_once() {
    let mut latch = ShutdownLatch::new();
    assert!(latch.try_fire());
    assert!(!latch.try_fire());
    assert!(!latch.try_fire());
}

#[test]
fn response_round_trip_keeps_bytes() {
    let req = CanonicalRequest {
        request_id: "id-1".to_string(),
        kind: "report".to_string(),
        method: "POST".to_string(),
        path: "/v2".to_string(),
        headers: vec![("h".to_string(), "v".to_string())],
        body: b"abc".to_vec(),
    };
    let reply = HttpReply {
        status: 200,
        headers: vec![("content-length".to_string(), "3".to_string())],
        body: b"xyz".to_vec(),
    };
    let cached = CanonicalResponse::from_network(&req, &reply);
    assert_eq!(cached.request_id, "id-1");
    assert_eq!(cached.status, 200);
    let back = cached.to_network();
    assert_eq!(back.status, 200);
    assert_eq!(back.headers, reply.headers);
    assert_eq!(back.body, b"xyz".to_vec());
}

#[test]
fn request_clone_is_deep() {
    let req = CanonicalRequest {
        request_id: "id-9".to_string(),
        kind: "activation".to_string(),
        method: "GET".to_string(),
        path: "/p".to_string(),
        headers: vec![("a".to_string(), "b".to_string())],
        body: vec![1, 2, 3],
    };
    let copy = req.clone();
    assert_eq!(copy.request_id, req.request_id);
    assert_eq!(copy.headers, req.headers);
    assert_eq!(copy.body, req.body);
}
