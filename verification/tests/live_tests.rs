use frl_proxy::config::ProxyMode;
use frl_proxy::data::{CanonicalRequest, CanonicalResponse, HttpReply};
use frl_proxy::live::{live_step, LiveAction, LiveEvent, LiveState, ParseOutcome};
use frl_proxy::upstream::{UpstreamError, UpstreamOutcome};

fn sample_request() -> CanonicalRequest {
    CanonicalRequest {
        request_id: "req-42".to_string(),
        kind: "activation".to_string(),
        method: "POST".to_string(),
        path: "/asnp/frl_connected/values/v2".to_string(),
        headers: vec![("content-type".to_string(), "application/json".to_string())],
        body: b"{\"npdId\":\"abc\"}".to_vec(),
    }
}

fn reply(status: u16, body: &[u8]) -> HttpReply {
    HttpReply {
        status,
        headers: vec![("x-request-id".to_string(), "req-42".to_string())],
        body: body.to_vec(),
    }
}

#[test]
fn rejected_parse_gets_exact_400_and_no_cache_write() {
    let (state, action) = live_step(
        LiveState::AwaitingParse,
        LiveEvent::Parsed(ParseOutcome::Rejected("missing npdId".to_string())),
        ProxyMode::Forward,
    );
    assert!(matches!(state, LiveState::Done));
    match action {
        LiveAction::Respond(r) => {
            assert_eq!(r.status, 400);
            assert_eq!(r.body, br#"{"statusCode":400,"message":"missing npdId"}"#.to_vec());
        }
        _ => panic!("a rejected request must be answered at once"),
    }
}

#[test]
fn accepted_request_is_stored_before_any_network_attempt() {
    let (state, action) = live_step(
        LiveState::AwaitingParse,
        LiveEvent::Parsed(ParseOutcome::Accepted(sample_request())),
        ProxyMode::Forward,
    );
    match action {
        LiveAction::StoreRequest(rq) => assert_eq!(rq.request_id, "req-42"),
        _ => panic!("the first action for an accepted request is the cache write"),
    }
    let (_, action) = live_step(state, LiveEvent::RequestStored, ProxyMode::Forward);
    match action {
        LiveAction::CallUpstream(rq) => assert_eq!(rq.request_id, "req-42"),
        _ => panic!("the upstream call comes only after the cache write completed"),
    }
}

#[test]
fn store_mode_answers_offline_without_network() {
    let (state, action) = live_step(
        LiveState::AwaitingParse,
        LiveEvent::Parsed(ParseOutcome::Accepted(sample_request())),
        ProxyMode::Store,
    );
    assert!(matches!(action, LiveAction::StoreRequest(_)));
    let (state, action) = live_step(state, LiveEvent::RequestStored, ProxyMode::Store);
    assert!(matches!(state, LiveState::Done));
    match action {
        LiveAction::Respond(r) => {
            assert_eq!(r.status, 502);
            let expected = br#"{"statusCode":502,"message":"Proxy is operating offline: request stored for later replay"}"#;
            assert_eq!(r.body, expected.to_vec());
        }
        _ => panic!("store mode must respond right after the cache write"),
    }
}

#[test]
fn upstream_success_is_cached_and_returned_verbatim() {
    let upstream_body = b"license-payload-\x00\x01\xff".to_vec();
    let state = LiveState::CallingUpstream(sample_request());
    let event = LiveEvent::UpstreamDone(UpstreamOutcome::Reply(reply(201, &upstream_body)));
    let (state, action) = live_step(state, event, ProxyMode::Forward);
    match action {
        LiveAction::StoreResponse(rq, stored) => {
            assert_eq!(rq.request_id, "req-42");
            assert_eq!(stored.request_id, "req-42");
            assert_eq!(stored.status, 201);
            assert_eq!(stored.body, upstream_body);
        }
        _ => panic!("a success response must be persisted"),
    }
    let (state, action) = live_step(state, LiveEvent::ResponseStored, ProxyMode::Forward);
    assert!(matches!(state, LiveState::Done));
    match action {
        LiveAction::Respond(r) => {
            assert_eq!(r.status, 201);
            assert_eq!(r.body, upstream_body);
        }
        _ => panic!("the client receives the upstream response"),
    }
}

#[test]
fn upstream_failure_with_cache_returns_cached_response() {
    let state = LiveState::CallingUpstream(sample_request());
    let event = LiveEvent::UpstreamDone(UpstreamOutcome::Reply(reply(500, b"upstream sad")));
    let (state, action) = live_step(state, event, ProxyMode::Forward);
    match action {
        LiveAction::FetchCachedResponse(rq) => assert_eq!(rq.request_id, "req-42"),
        _ => panic!("a failure must consult the cache"),
    }
    let cached = CanonicalResponse {
        request_id: "req-42".to_string(),
        status: 200,
        headers: vec![],
        body: b"last known good".to_vec(),
    };
    let (_, action) = live_step(state, LiveEvent::CacheChecked(Some(cached)), ProxyMode::Forward);
    match action {
        LiveAction::Respond(r) => {
            assert_eq!(r.status, 200);
            assert_eq!(r.body, b"last known good".to_vec());
        }
        _ => panic!("the cached response must win over the failure"),
    }
}

#[test]
fn upstream_failure_without_cache_returns_raw_failure() {
    let state = LiveState::CallingUpstream(sample_request());
    let event = LiveEvent::UpstreamDone(UpstreamOutcome::Reply(reply(503, b"try later")));
    let (state, action) = live_step(state, event, ProxyMode::Forward);
    assert!(matches!(action, LiveAction::FetchCachedResponse(_)));
    let (_, action) = live_step(state, LiveEvent::CacheChecked(None), ProxyMode::Forward);
    match action {
        LiveAction::Respond(r) => {
            assert_eq!(r.status, 503);
            assert_eq!(r.body, b"try later".to_vec());
        }
        _ => panic!("without a cached response the raw failure is returned"),
    }
}

#[test]
fn transport_error_synthesizes_502_and_consults_cache() {
    let state = LiveState::CallingUpstream(sample_request());
    let event = LiveEvent::UpstreamDone(UpstreamOutcome::Failed(UpstreamError::Timeout(59000)));
    let (state, action) = live_step(state, event, ProxyMode::Forward);
    assert!(matches!(action, LiveAction::FetchCachedResponse(_)));
    let (_, action) = live_step(state, LiveEvent::CacheChecked(None), ProxyMode::Forward);
    match action {
        LiveAction::Respond(r) => {
            assert_eq!(r.status, 502);
            let expected = br#"{"statusCode":502,"message":"Failed to get a response from COPS: Timeout - no response received in 59000 milliseconds"}"#;
            assert_eq!(r.body, expected.to_vec());
        }
        _ => panic!("a transport error without cache yields the synthesized 502"),
    }
}
