//! The batch replay job: previously stored pending requests are driven
//! through the upstream caller strictly one at a time, success responses are
//! persisted, and aggregate success/failure counts are reported. A request
//! whose attempt failed at the transport level is counted in neither total
//! and stays pending for a future pass.

use vstd::prelude::*;

use crate::data::{
    response_of_reply, success_status, CanonicalRequest, CanonicalRequestV, CanonicalResponse,
    CanonicalResponseV,
};
use crate::upstream::{UpstreamOutcome, UpstreamOutcomeV};

verus! {

/// The aggregate result of one replay pass.
#[derive(Clone, Copy, PartialEq, Eq, Structural, Debug)]
pub struct ReplayReport {
    /// Requests whose replay returned a success-classified status.
    pub successes: u64,
    /// Requests whose replay returned a failure-classified status.
    pub failures: u64,
    /// Requests whose replay failed at the transport level; they stay
    /// pending for a future pass.
    pub skipped: u64,
}

impl ReplayReport {
    /// The report of a pass over nothing.
    pub fn new() -> (r: ReplayReport)
        ensures
            r == (ReplayReport { successes: 0u64, failures: 0u64, skipped: 0u64 }),
    {
        ReplayReport { successes: 0, failures: 0, skipped: 0 }
    }
}

/// Whether a replay attempt produced a success-classified response.
pub open spec fn is_success_outcome(o: UpstreamOutcomeV) -> bool {
    o matches UpstreamOutcomeV::Reply(r) && success_status(r.status)
}

/// Whether a replay attempt produced a failure-classified response.
pub open spec fn is_failure_outcome(o: UpstreamOutcomeV) -> bool {
    o matches UpstreamOutcomeV::Reply(r) && !success_status(r.status)
}

/// Whether a replay attempt failed at the transport level.
pub open spec fn is_skipped_outcome(o: UpstreamOutcomeV) -> bool {
    o matches UpstreamOutcomeV::Failed(_)
}

/// View of a replayed batch: each pending request with the outcome its
/// attempt produced.
pub open spec fn items_view(items: Seq<(CanonicalRequest, UpstreamOutcome)>) -> Seq<
    (CanonicalRequestV, UpstreamOutcomeV),
> {
    items.map_values(|p: (CanonicalRequest, UpstreamOutcome)| (p.0@, p.1@))
}

/// View of a list of canonical responses.
pub open spec fn responses_view(rs: Seq<CanonicalResponse>) -> Seq<CanonicalResponseV> {
    rs.map_values(|r: CanonicalResponse| r@)
}

/// How many attempts of a batch returned a success-classified status.
pub open spec fn count_successes(items: Seq<(CanonicalRequestV, UpstreamOutcomeV)>) -> nat
    decreases items.len(),
{
    if items.len() == 0 {
        0
    } else {
        count_successes(items.drop_last()) + (if is_success_outcome(items.last().1) {
            1nat
        } else {
            0nat
        })
    }
}

/// How many attempts of a batch returned a failure-classified status.
pub open spec fn count_failures(items: Seq<(CanonicalRequestV, UpstreamOutcomeV)>) -> nat
    decreases items.len(),
{
    if items.len() == 0 {
        0
    } else {
        count_failures(items.drop_last()) + (if is_failure_outcome(items.last().1) {
            1nat
        } else {
            0nat
        })
    }
}

/// How many attempts of a batch failed at the transport level.
pub open spec fn count_skipped(items: Seq<(CanonicalRequestV, UpstreamOutcomeV)>) -> nat
    decreases items.len(),
{
    if items.len() == 0 {
        0
    } else {
        count_skipped(items.drop_last()) + (if is_skipped_outcome(items.last().1) {
            1nat
        } else {
            0nat
        })
    }
}

/// The responses a replay pass persists: one per success-classified
/// attempt, built from the request it answers, in batch order.
pub open spec fn stored_responses(items: Seq<(CanonicalRequestV, UpstreamOutcomeV)>) -> Seq<
    CanonicalResponseV,
>
    decreases items.len(),
{
    if items.len() == 0 {
        Seq::empty()
    } else {
        stored_responses(items.drop_last()) + (match items.last().1 {
            UpstreamOutcomeV::Reply(r) => {
                if success_status(r.status) {
                    seq![response_of_reply(items.last().0, r)]
                } else {
                    Seq::empty()
                }
            },
            UpstreamOutcomeV::Failed(_) => Seq::empty(),
        })
    }
}

/// Every attempt is exactly one of the three outcomes, so the three counts
/// partition the batch, and one response is persisted per counted success.
pub proof fn lemma_replay_counts_partition(items: Seq<(CanonicalRequestV, UpstreamOutcomeV)>)
    ensures
        count_successes(items) + count_failures(items) + count_skipped(items) == items.len(),
        stored_responses(items).len() == count_successes(items),
    decreases items.len(),
{
    if items.len() > 0 {
        lemma_replay_counts_partition(items.drop_last());
    }
}

/// Folds one replay attempt into the running report: a success-classified
/// response increments the success counter and yields the response to
/// persist; a failure-classified response increments the failure counter;
/// a transport error increments neither total, and the request stays
/// pending. The counter bounds are forced by the machine word.
pub fn replay_step(report: ReplayReport, req: &CanonicalRequest, outcome: &UpstreamOutcome) -> (r:
    (ReplayReport, Option<CanonicalResponse>))
    requires
        report.successes < u64::MAX,
        report.failures < u64::MAX,
        report.skipped < u64::MAX,
    ensures
        is_success_outcome(outcome@) ==> r.0 == (ReplayReport {
            successes: (report.successes + 1) as u64,
            ..report
        }) && (r.1 matches Some(stored) && outcome@ matches UpstreamOutcomeV::Reply(reply)
            && stored@ == response_of_reply(req@, reply)),
        is_failure_outcome(outcome@) ==> r.0 == (ReplayReport {
            failures: (report.failures + 1) as u64,
            ..report
        }) && r.1 is None,
        is_skipped_outcome(outcome@) ==> r.0 == (ReplayReport {
            skipped: (report.skipped + 1) as u64,
            ..report
        }) && r.1 is None,
{
    match outcome {
        UpstreamOutcome::Reply(reply) => {
            if crate::data::is_success_status(reply.status) {
                let stored = CanonicalResponse::from_network(req, reply);
                (
                    ReplayReport { successes: report.successes + 1, ..report },
                    Some(stored),
                )
            } else {
                (ReplayReport { failures: report.failures + 1, ..report }, None)
            }
        },
        UpstreamOutcome::Failed(_) => (
            ReplayReport { skipped: report.skipped + 1, ..report },
            None,
        ),
    }
}

/// One full replay pass over a batch of pending requests, each paired with
/// the outcome its sequential upstream attempt produced. Reports exactly
/// the number of success- and failure-classified outcomes (zero and zero
/// over an empty batch), and yields exactly the responses to persist: one
/// per success, in order. Transport errors are counted in neither total and
/// leave their requests pending.
pub fn forward_stored_requests(items: &Vec<(CanonicalRequest, UpstreamOutcome)>) -> (r: (
    ReplayReport,
    Vec<CanonicalResponse>,
))
    ensures
        r.0.successes == count_successes(items_view(items@)),
        r.0.failures == count_failures(items_view(items@)),
        r.0.skipped == count_skipped(items_view(items@)),
        r.0.successes + r.0.failures + r.0.skipped == items@.len(),
        responses_view(r.1@) == stored_responses(items_view(items@)),
{
    let mut report = ReplayReport::new();
    let mut responses: Vec<CanonicalResponse> = Vec::new();
    let mut i: usize = 0;
    proof {
        assert(items_view(items@.take(0)) =~= Seq::empty());
        assert(responses_view(responses@) =~~= stored_responses(items_view(items@.take(0))));
    }
    while i < items.len()
        invariant
            i <= items.len(),
            report.successes == count_successes(items_view(items@.take(i as int))),
            report.failures == count_failures(items_view(items@.take(i as int))),
            report.skipped == count_skipped(items_view(items@.take(i as int))),
            report.successes + report.failures + report.skipped == i,
            responses_view(responses@) == stored_responses(items_view(items@.take(i as int))),
        decreases items.len() - i,
    {
        let item = &items[i];
        proof {
            assert(items_view(items@.take(i + 1 as int)) =~~= items_view(
                items@.take(i as int),
            ).push((items@[i as int].0@, items@[i as int].1@)));
            assert(items_view(items@.take(i + 1 as int)).drop_last() =~~= items_view(
                items@.take(i as int),
            ));
        }
        let (next, stored) = replay_step(report, &item.0, &item.1);
        report = next;
        match stored {
            Some(resp) => {
                responses.push(resp);
            },
            None => {},
        }
        proof {
            assert(responses_view(responses@) =~~= stored_responses(
                items_view(items@.take(i + 1 as int)),
            ));
        }
        i = i + 1;
    }
    proof {
        assert(items@.take(items@.len() as int) =~= items@);
    }
    (report, responses)
}

} // verus!
