use frl_proxy::data::{CanonicalRequest, HttpReply};
use frl_proxy::replay::{forward_stored_requests, replay_step, ReplayReport};
use frl_proxy::upstream::{UpstreamError, UpstreamOutcome};

fn request(id: &str) -> CanonicalRequest {
    CanonicalRequest {
        request_id: id.to_string(),
        kind: "activation".to_string(),
        method: "POST".to_string(),
        path: "/".to_string(),
        headers: vec![],
        body: vec![],
    }
}

fn reply(status: u16, body: &[u8]) -> UpstreamOutcome {
    UpstreamOutcome::Reply(HttpReply { status, headers: vec![], body: body.to_vec() })
}

#[test]
fn empty_batch_reports_zero_zero() {
    let (report, responses) = forward_stored_requests(&vec![]);
    assert_eq!(report.successes, 0);
    assert_eq!(report.failures, 0);
    assert_eq!(report.skipped, 0);
    assert!(responses.is_empty());
}

#[test]
fn mixed_batch_counts_exactly() {
    let items = vec![
        (request("a"), reply(200, b"ok-a")),
        (request("b"), reply(500, b"bad-b")),
        (request("c"), UpstreamOutcome::Failed(UpstreamError::Network)),
        (request("d"), reply(299, b"ok-d")),
        (request("e"), UpstreamOutcome::Failed(UpstreamError::Timeout(59000))),
    ];
    let (report, responses) = forward_stored_requests(&items);
    assert_eq!(report.successes, 2);
    assert_eq!(report.failures, 1);
    assert_eq!(report.skipped, 2);
    assert_eq!(responses.len(), 2);
    assert_eq!(responses[0].request_id, "a");
    assert_eq!(responses[0].body, b"ok-a".to_vec());
    assert_eq!(responses[1].request_id, "d");
    assert_eq!(responses[1].status, 299);
}

#[test]
fn step_counts_success() {
    let (report, stored) = replay_step(ReplayReport::new(), &request("a"), &reply(204, b""));
    assert_eq!((report.successes, report.failures, report.skipped), (1, 0, 0));
    let stored = stored.unwrap();
    assert_eq!(stored.request_id, "a");
    assert_eq!(stored.status, 204);
}

#[test]
fn step_counts_failure_without_cache_write() {
    let (report, stored) = replay_step(ReplayReport::new(), &request("a"), &reply(404, b"no"));
    assert_eq!((report.successes, report.failures, report.skipped), (0, 1, 0));
    assert!(stored.is_none());
}

#[test]
fn step_leaves_transport_error_pending() {
    let outcome = UpstreamOutcome::Failed(UpstreamError::ConnectorBuild);
    let (report, stored) = replay_step(ReplayReport::new(), &request("a"), &outcome);
    assert_eq!((report.successes, report.failures, report.skipped), (0, 0, 1));
    assert!(stored.is_none());
}
