use frl_proxy::agent;
use frl_proxy::synth::{bad_request_response, cops_failure_response, proxy_offline_response};
use frl_proxy::upstream::UpstreamError;

#[test]
fn bad_request_exact_envelope() {
    let r = bad_request_response("missing required field");
    assert_eq!(r.status, 400);
    assert_eq!(
        r.body,
        br#"{"statusCode":400,"message":"missing required field"}"#.to_vec()
    );
}

#[test]
fn synthesized_headers_are_fixed() {
    let r = bad_request_response("nope");
    assert_eq!(r.headers.len(), 2);
    assert_eq!(r.headers[0].0, "content-type");
    assert_eq!(r.headers[0].1, "application/json;charset=UTF-8");
    assert_eq!(r.headers[1].0, "server");
    assert_eq!(r.headers[1].1, "frl-proxy");
}

#[test]
fn agent_identifier() {
    assert_eq!(agent(), "frl-proxy");
}

#[test]
fn message_is_json_escaped() {
    let r = bad_request_response("a\"b\\c\nd\u{1}e\tf");
    let expected = "{\"statusCode\":400,\"message\":\"a\\\"b\\\\c\\nd\\u0001e\\tf\"}";
    assert_eq!(r.body, expected.as_bytes().to_vec());
}

#[test]
fn non_ascii_message_stays_verbatim() {
    let r = bad_request_response("gerät nicht lizenziert");
    let expected = "{\"statusCode\":400,\"message\":\"gerät nicht lizenziert\"}";
    assert_eq!(r.body, expected.as_bytes().to_vec());
}

#[test]
fn empty_reason_yields_empty_message() {
    let r = bad_request_response("");
    assert_eq!(r.body, br#"{"statusCode":400,"message":""}"#.to_vec());
}

#[test]
fn offline_response_is_fixed() {
    let r = proxy_offline_response();
    assert_eq!(r.status, 502);
    let expected =
        br#"{"statusCode":502,"message":"Proxy is operating offline: request stored for later replay"}"#;
    assert_eq!(r.body, expected.to_vec());
}

#[test]
fn failure_response_carries_timeout_text() {
    let r = cops_failure_response(&UpstreamError::Timeout(59000));
    assert_eq!(r.status, 502);
    let expected = br#"{"statusCode":502,"message":"Failed to get a response from COPS: Timeout - no response received in 59000 milliseconds"}"#;
    assert_eq!(r.body, expected.to_vec());
}

#[test]
fn failure_response_carries_network_text() {
    let r = cops_failure_response(&UpstreamError::Network);
    let expected =
        br#"{"statusCode":502,"message":"Failed to get a response from COPS: Network error"}"#;
    assert_eq!(r.body, expected.to_vec());
}

#[test]
fn failure_response_carries_proxy_chain_texts() {
    let parse = cops_failure_response(&UpstreamError::ProxyUrlParse);
    let expected = br#"{"statusCode":502,"message":"Failed to get a response from COPS: Cannot parse upstream proxy URL"}"#;
    assert_eq!(parse.body, expected.to_vec());
    let build = cops_failure_response(&UpstreamError::ConnectorBuild);
    let expected = br#"{"statusCode":502,"message":"Failed to get a response from COPS: Failed to create proxy connector"}"#;
    assert_eq!(build.body, expected.to_vec());
}
