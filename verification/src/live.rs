//! The live request handler: the per-request decision pipeline
//! (parse, persist, forward or skip, cache or fall back, respond) as an
//! explicit state machine. The surrounding process drives it: it performs
//! each returned action (a cache write, the upstream call, a cache read, or
//! sending the response) and hands the completion back as the next event.

use vstd::prelude::*;

use crate::config::ProxyMode;
use crate::data::{
    response_of_reply, reply_of_response, success_status, CanonicalRequest, CanonicalRequestV,
    CanonicalResponse, CanonicalResponseV, HttpReply, HttpReplyV,
};
use crate::synth::{
    bad_request_reply, bad_request_response, cops_failure_reply, cops_failure_response,
    offline_reply, proxy_offline_response,
};
use crate::upstream::{failure_message, UpstreamOutcome, UpstreamOutcomeV};

verus! {

/// What the external parser made of the raw inbound request: its canonical
/// form, or the validation reason it was rejected for.
pub enum ParseOutcome {
    Accepted(CanonicalRequest),
    Rejected(String),
}

pub enum ParseOutcomeV {
    Accepted(CanonicalRequestV),
    Rejected(Seq<char>),
}

impl View for ParseOutcome {
    type V = ParseOutcomeV;

    open spec fn view(&self) -> ParseOutcomeV {
        match self {
            ParseOutcome::Accepted(rq) => ParseOutcomeV::Accepted(rq@),
            ParseOutcome::Rejected(reason) => ParseOutcomeV::Rejected(reason@),
        }
    }
}

/// A completion the driving process hands back to the handler.
pub enum LiveEvent {
    /// The inbound request was parsed.
    Parsed(ParseOutcome),
    /// The cache write of the request completed.
    RequestStored,
    /// The upstream call resolved.
    UpstreamDone(UpstreamOutcome),
    /// The cache write of the response completed.
    ResponseStored,
    /// The cache read for a previously stored response completed.
    CacheChecked(Option<CanonicalResponse>),
}

pub enum LiveEventV {
    Parsed(ParseOutcomeV),
    RequestStored,
    UpstreamDone(UpstreamOutcomeV),
    ResponseStored,
    CacheChecked(Option<CanonicalResponseV>),
}

impl View for LiveEvent {
    type V = LiveEventV;

    open spec fn view(&self) -> LiveEventV {
        match self {
            LiveEvent::Parsed(p) => LiveEventV::Parsed(p@),
            LiveEvent::RequestStored => LiveEventV::RequestStored,
            LiveEvent::UpstreamDone(o) => LiveEventV::UpstreamDone(o@),
            LiveEvent::ResponseStored => LiveEventV::ResponseStored,
            LiveEvent::CacheChecked(c) => LiveEventV::CacheChecked(
                match c {
                    None => None,
                    Some(r) => Some(r@),
                },
            ),
        }
    }
}

/// Where the handler stands for one inbound request.
pub enum LiveState {
    /// Waiting for the external parser.
    AwaitingParse,
    /// The accepted request is being persisted.
    StoringRequest(CanonicalRequest),
    /// The upstream call for the persisted request is in flight.
    CallingUpstream(CanonicalRequest),
    /// The success response is being persisted before it is returned.
    StoringResponse(CanonicalRequest, HttpReply),
    /// The upstream attempt failed; the cache is being consulted for a
    /// previously stored success response. The reply kept here is the raw
    /// failure to fall back on.
    CheckingCache(CanonicalRequest, HttpReply),
    /// The response was handed to the client.
    Done,
}

pub enum LiveStateV {
    AwaitingParse,
    StoringRequest(CanonicalRequestV),
    CallingUpstream(CanonicalRequestV),
    StoringResponse(CanonicalRequestV, HttpReplyV),
    CheckingCache(CanonicalRequestV, HttpReplyV),
    Done,
}

impl View for LiveState {
    type V = LiveStateV;

    open spec fn view(&self) -> LiveStateV {
        match self {
            LiveState::AwaitingParse => LiveStateV::AwaitingParse,
            LiveState::StoringRequest(rq) => LiveStateV::StoringRequest(rq@),
            LiveState::CallingUpstream(rq) => LiveStateV::CallingUpstream(rq@),
            LiveState::StoringResponse(rq, rp) => LiveStateV::StoringResponse(rq@, rp@),
            LiveState::CheckingCache(rq, rp) => LiveStateV::CheckingCache(rq@, rp@),
            LiveState::Done => LiveStateV::Done,
        }
    }
}

/// What the driving process must do next.
pub enum LiveAction {
    /// Persist the request (always, before any network attempt).
    StoreRequest(CanonicalRequest),
    /// Issue the upstream call for the request.
    CallUpstream(CanonicalRequest),
    /// Persist the success response for the request.
    StoreResponse(CanonicalRequest, CanonicalResponse),
    /// Read a previously stored response for the request.
    FetchCachedResponse(CanonicalRequest),
    /// Send this response to the client; the request is finished.
    Respond(HttpReply),
}

pub enum LiveActionV {
    StoreRequest(CanonicalRequestV),
    CallUpstream(CanonicalRequestV),
    StoreResponse(CanonicalRequestV, CanonicalResponseV),
    FetchCachedResponse(CanonicalRequestV),
    Respond(HttpReplyV),
}

impl View for LiveAction {
    type V = LiveActionV;

    open spec fn view(&self) -> LiveActionV {
        match self {
            LiveAction::StoreRequest(rq) => LiveActionV::StoreRequest(rq@),
            LiveAction::CallUpstream(rq) => LiveActionV::CallUpstream(rq@),
            LiveAction::StoreResponse(rq, rs) => LiveActionV::StoreResponse(rq@, rs@),
            LiveAction::FetchCachedResponse(rq) => LiveActionV::FetchCachedResponse(rq@),
            LiveAction::Respond(rp) => LiveActionV::Respond(rp@),
        }
    }
}

/// The response an upstream attempt stands for: the received response
/// verbatim, or the synthesized 502 carrying the error text when the call
/// itself failed. Either way it is then classified by its status.
pub open spec fn candidate_reply(o: UpstreamOutcomeV) -> HttpReplyV {
    match o {
        UpstreamOutcomeV::Reply(r) => r,
        UpstreamOutcomeV::Failed(e) => cops_failure_reply(failure_message(e)),
    }
}

/// Which events a state can consume; the driving process produces exactly
/// the completion the pending action asks for.
pub open spec fn event_fits(s: LiveStateV, e: LiveEventV) -> bool {
    match (s, e) {
        (LiveStateV::AwaitingParse, LiveEventV::Parsed(_)) => true,
        (LiveStateV::StoringRequest(_), LiveEventV::RequestStored) => true,
        (LiveStateV::CallingUpstream(_), LiveEventV::UpstreamDone(_)) => true,
        (LiveStateV::StoringResponse(_, _), LiveEventV::ResponseStored) => true,
        (LiveStateV::CheckingCache(_, _), LiveEventV::CacheChecked(_)) => true,
        _ => false,
    }
}

/// One step of the live pipeline: from the current state and the completion
/// just received, the next state and the next action.
///
/// The pipeline it spells out: a rejected parse is answered 400 at once,
/// with no cache write; an accepted request is persisted unconditionally;
/// in store mode the fixed offline 502 is returned without any network
/// call; otherwise the upstream is called; a success-classified response is
/// persisted and returned verbatim; anything else falls back to a
/// previously cached response if one exists, else the failure itself is
/// returned.
pub open spec fn live_transition(s: LiveStateV, e: LiveEventV, mode: ProxyMode) -> (
    LiveStateV,
    LiveActionV,
)
    recommends
        event_fits(s, e),
{
    match (s, e) {
        (LiveStateV::AwaitingParse, LiveEventV::Parsed(p)) => match p {
            ParseOutcomeV::Rejected(reason) => (
                LiveStateV::Done,
                LiveActionV::Respond(bad_request_reply(reason)),
            ),
            ParseOutcomeV::Accepted(rq) => (
                LiveStateV::StoringRequest(rq),
                LiveActionV::StoreRequest(rq),
            ),
        },
        (LiveStateV::StoringRequest(rq), LiveEventV::RequestStored) => {
            if mode == ProxyMode::Store {
                (LiveStateV::Done, LiveActionV::Respond(offline_reply()))
            } else {
                (LiveStateV::CallingUpstream(rq), LiveActionV::CallUpstream(rq))
            }
        },
        (LiveStateV::CallingUpstream(rq), LiveEventV::UpstreamDone(o)) => {
            let cand = candidate_reply(o);
            if success_status(cand.status) {
                (
                    LiveStateV::StoringResponse(rq, cand),
                    LiveActionV::StoreResponse(rq, response_of_reply(rq, cand)),
                )
            } else {
                (LiveStateV::CheckingCache(rq, cand), LiveActionV::FetchCachedResponse(rq))
            }
        },
        (LiveStateV::StoringResponse(_, cand), LiveEventV::ResponseStored) => (
            LiveStateV::Done,
            LiveActionV::Respond(cand),
        ),
        (LiveStateV::CheckingCache(_, _), LiveEventV::CacheChecked(Some(cached))) => (
            LiveStateV::Done,
            LiveActionV::Respond(reply_of_response(cached)),
        ),
        (LiveStateV::CheckingCache(_, cand), LiveEventV::CacheChecked(None)) => (
            LiveStateV::Done,
            LiveActionV::Respond(cand),
        ),
        _ => (LiveStateV::Done, LiveActionV::Respond(offline_reply())),
    }
}

/// Executes one step of the live pipeline.
pub fn live_step(state: LiveState, event: LiveEvent, mode: ProxyMode) -> (r: (
    LiveState,
    LiveAction,
))
    requires
        event_fits(state@, event@),
    ensures
        (r.0@, r.1@) == live_transition(state@, event@, mode),
{
    match (state, event) {
        (LiveState::AwaitingParse, LiveEvent::Parsed(p)) => match p {
            ParseOutcome::Rejected(reason) => (
                LiveState::Done,
                LiveAction::Respond(bad_request_response(reason.as_str())),
            ),
            ParseOutcome::Accepted(rq) => {
                let copy = rq.clone();
                (LiveState::StoringRequest(rq), LiveAction::StoreRequest(copy))
            },
        },
        (LiveState::StoringRequest(rq), LiveEvent::RequestStored) => {
            if mode == ProxyMode::Store {
                (LiveState::Done, LiveAction::Respond(proxy_offline_response()))
            } else {
                let copy = rq.clone();
                (LiveState::CallingUpstream(rq), LiveAction::CallUpstream(copy))
            }
        },
        (LiveState::CallingUpstream(rq), LiveEvent::UpstreamDone(o)) => {
            let cand = match o {
                UpstreamOutcome::Reply(r) => r,
                UpstreamOutcome::Failed(e) => cops_failure_response(&e),
            };
            if crate::data::is_success_status(cand.status) {
                let stored = CanonicalResponse::from_network(&rq, &cand);
                let copy = rq.clone();
                (
                    LiveState::StoringResponse(rq, cand),
                    LiveAction::StoreResponse(copy, stored),
                )
            } else {
                let copy = rq.clone();
                (LiveState::CheckingCache(rq, cand), LiveAction::FetchCachedResponse(copy))
            }
        },
        (LiveState::StoringResponse(_, cand), LiveEvent::ResponseStored) => (
            LiveState::Done,
            LiveAction::Respond(cand),
        ),
        (LiveState::CheckingCache(_, _), LiveEvent::CacheChecked(Some(cached))) => (
            LiveState::Done,
            LiveAction::Respond(cached.to_network()),
        ),
        (LiveState::CheckingCache(_, cand), LiveEvent::CacheChecked(None)) => (
            LiveState::Done,
            LiveAction::Respond(cand),
        ),
        _ => (LiveState::Done, LiveAction::Respond(proxy_offline_response())),
    }
}

/// A network call is attempted only for a request whose own cache write has
/// completed: the one transition that emits `CallUpstream(rq)` starts from
/// `StoringRequest(rq)` on `RequestStored`, and `StoringRequest(rq)` is
/// entered only by the transition that emits the cache write
/// `StoreRequest(rq)`. So for every accepted request the cache write
/// precedes any network attempt, whatever the outcome.
pub proof fn lemma_store_precedes_network(s: LiveStateV, e: LiveEventV, mode: ProxyMode)
    ensures
        live_transition(s, e, mode).1 matches LiveActionV::CallUpstream(rq) ==> s
            == LiveStateV::StoringRequest(rq) && e == LiveEventV::RequestStored,
        live_transition(s, e, mode).0 matches LiveStateV::StoringRequest(rq) ==> live_transition(
            s,
            e,
            mode,
        ).1 == LiveActionV::StoreRequest(rq) && s == LiveStateV::AwaitingParse,
{
}

/// The run of the live pipeline over a whole sequence of completions,
/// starting before the parse: the state it reaches and every action it
/// emitted, in order.
pub open spec fn live_run(events: Seq<LiveEventV>, mode: ProxyMode) -> (
    LiveStateV,
    Seq<LiveActionV>,
)
    decreases events.len(),
{
    if events.len() == 0 {
        (LiveStateV::AwaitingParse, Seq::empty())
    } else {
        let prior = live_run(events.drop_last(), mode);
        let step = live_transition(prior.0, events.last(), mode);
        (step.0, prior.1.push(step.1))
    }
}

/// Durability precedes network risk, over every possible run: wherever the
/// pipeline emits the upstream call for a request, it emitted the cache
/// write for that same request strictly earlier in the run.
pub proof fn lemma_run_store_precedes_network(events: Seq<LiveEventV>, mode: ProxyMode)
    ensures
        live_run(events, mode).0 matches LiveStateV::StoringRequest(rq) ==> exists|j: int|
            0 <= j < live_run(events, mode).1.len() && live_run(events, mode).1[j]
                == LiveActionV::StoreRequest(rq),
        live_run(events, mode).0 matches LiveStateV::CallingUpstream(rq) ==> exists|j: int|
            0 <= j < live_run(events, mode).1.len() && live_run(events, mode).1[j]
                == LiveActionV::StoreRequest(rq),
        forall|i: int, rq: CanonicalRequestV|
            0 <= i < live_run(events, mode).1.len() && live_run(events, mode).1[i]
                == LiveActionV::CallUpstream(rq) ==> exists|j: int|
                0 <= j < i && live_run(events, mode).1[j] == LiveActionV::StoreRequest(rq),
    decreases events.len(),
{
    if events.len() > 0 {
        lemma_run_store_precedes_network(events.drop_last(), mode);
        let prior = live_run(events.drop_last(), mode);
        let step = live_transition(prior.0, events.last(), mode);
        let acts = live_run(events, mode).1;
        assert(acts == prior.1.push(step.1));
        assert forall|i: int, rq: CanonicalRequestV|
            0 <= i < acts.len() && acts[i] == LiveActionV::CallUpstream(rq) implies exists|j: int|
            0 <= j < i && acts[j] == LiveActionV::StoreRequest(rq) by {
            if i < prior.1.len() {
                let j = choose|j: int|
                    0 <= j < i && prior.1[j] == LiveActionV::StoreRequest(rq);
                assert(acts[j] == LiveActionV::StoreRequest(rq));
            } else {
                assert(step.1 == LiveActionV::CallUpstream(rq));
                assert(prior.0 == LiveStateV::StoringRequest(rq));
                let j = choose|j: int|
                    0 <= j < prior.1.len() && prior.1[j] == LiveActionV::StoreRequest(rq);
                assert(acts[j] == LiveActionV::StoreRequest(rq));
            }
        }
        match live_run(events, mode).0 {
            LiveStateV::StoringRequest(rq) => {
                assert(step.1 == LiveActionV::StoreRequest(rq));
                assert(acts[prior.1.len() as int] == LiveActionV::StoreRequest(rq));
            },
            LiveStateV::CallingUpstream(rq) => {
                assert(prior.0 == LiveStateV::StoringRequest(rq));
                let j = choose|j: int|
                    0 <= j < prior.1.len() && prior.1[j] == LiveActionV::StoreRequest(rq);
                assert(acts[j] == LiveActionV::StoreRequest(rq));
            },
            _ => {},
        }
    }
}

/// In store mode no network call is ever issued, and once the request is
/// persisted the response is always the fixed offline 502.
pub proof fn lemma_store_mode_offline(s: LiveStateV, e: LiveEventV)
    ensures
        !(live_transition(s, e, ProxyMode::Store).1 matches LiveActionV::CallUpstream(_)),
        !(live_transition(s, e, ProxyMode::Store).0 matches LiveStateV::CallingUpstream(_)),
        s matches LiveStateV::StoringRequest(_) && e == LiveEventV::RequestStored
            ==> live_transition(s, e, ProxyMode::Store) == (
            LiveStateV::Done,
            LiveActionV::Respond(offline_reply()),
        ),
{
}

/// Whether a sequence of completions is one the driving process can produce:
/// each completion answers exactly the action pending in the state reached
/// before it.
pub open spec fn run_fits(events: Seq<LiveEventV>, mode: ProxyMode) -> bool
    decreases events.len(),
{
    events.len() == 0 || (run_fits(events.drop_last(), mode) && event_fits(
        live_run(events.drop_last(), mode).0,
        events.last(),
    ))
}

/// How many cache writes of the request a run emitted.
pub open spec fn count_request_writes(acts: Seq<LiveActionV>) -> nat
    decreases acts.len(),
{
    if acts.len() == 0 {
        0
    } else {
        count_request_writes(acts.drop_last()) + (if acts.last() matches
            LiveActionV::StoreRequest(_) {
            1nat
        } else {
            0nat
        })
    }
}

/// How many cache writes of a response a run emitted.
pub open spec fn count_response_writes(acts: Seq<LiveActionV>) -> nat
    decreases acts.len(),
{
    if acts.len() == 0 {
        0
    } else {
        count_response_writes(acts.drop_last()) + (if acts.last() matches
            LiveActionV::StoreResponse(_, _) {
            1nat
        } else {
            0nat
        })
    }
}

/// How many cache reads a run emitted.
pub open spec fn count_cache_reads(acts: Seq<LiveActionV>) -> nat
    decreases acts.len(),
{
    if acts.len() == 0 {
        0
    } else {
        count_cache_reads(acts.drop_last()) + (if acts.last() matches
            LiveActionV::FetchCachedResponse(_) {
            1nat
        } else {
            0nat
        })
    }
}

/// How many upstream calls a run emitted.
pub open spec fn count_upstream_calls(acts: Seq<LiveActionV>) -> nat
    decreases acts.len(),
{
    if acts.len() == 0 {
        0
    } else {
        count_upstream_calls(acts.drop_last()) + (if acts.last() matches
            LiveActionV::CallUpstream(_) {
            1nat
        } else {
            0nat
        })
    }
}

proof fn lemma_counts_push(acts: Seq<LiveActionV>, a: LiveActionV)
    ensures
        count_request_writes(acts.push(a)) == count_request_writes(acts) + (if a matches
            LiveActionV::StoreRequest(_) {
            1nat
        } else {
            0nat
        }),
        count_response_writes(acts.push(a)) == count_response_writes(acts) + (if a matches
            LiveActionV::StoreResponse(_, _) {
            1nat
        } else {
            0nat
        }),
        count_cache_reads(acts.push(a)) == count_cache_reads(acts) + (if a matches
            LiveActionV::FetchCachedResponse(_) {
            1nat
        } else {
            0nat
        }),
        count_upstream_calls(acts.push(a)) == count_upstream_calls(acts) + (if a matches
            LiveActionV::CallUpstream(_) {
            1nat
        } else {
            0nat
        }),
{
    assert(acts.push(a).drop_last() =~= acts);
    assert(acts.push(a).last() == a);
}

proof fn lemma_run_effect_inventory(events: Seq<LiveEventV>, mode: ProxyMode)
    requires
        run_fits(events, mode),
    ensures
        live_run(events, mode).0 is AwaitingParse ==> count_request_writes(
            live_run(events, mode).1,
        ) == 0 && count_upstream_calls(live_run(events, mode).1) == 0 && count_response_writes(
            live_run(events, mode).1,
        ) == 0 && count_cache_reads(live_run(events, mode).1) == 0,
        live_run(events, mode).0 matches LiveStateV::StoringRequest(_) ==> count_request_writes(
            live_run(events, mode).1,
        ) == 1 && count_upstream_calls(live_run(events, mode).1) == 0 && count_response_writes(
            live_run(events, mode).1,
        ) == 0 && count_cache_reads(live_run(events, mode).1) == 0,
        live_run(events, mode).0 matches LiveStateV::CallingUpstream(_) ==> count_request_writes(
            live_run(events, mode).1,
        ) == 1 && count_upstream_calls(live_run(events, mode).1) == 1 && count_response_writes(
            live_run(events, mode).1,
        ) == 0 && count_cache_reads(live_run(events, mode).1) == 0,
        live_run(events, mode).0 matches LiveStateV::StoringResponse(_, _)
            ==> count_request_writes(live_run(events, mode).1) == 1 && count_upstream_calls(
            live_run(events, mode).1,
        ) == 1 && count_response_writes(live_run(events, mode).1) == 1 && count_cache_reads(
            live_run(events, mode).1,
        ) == 0,
        live_run(events, mode).0 matches LiveStateV::CheckingCache(_, _) ==> count_request_writes(
            live_run(events, mode).1,
        ) == 1 && count_upstream_calls(live_run(events, mode).1) == 1 && count_response_writes(
            live_run(events, mode).1,
        ) == 0 && count_cache_reads(live_run(events, mode).1) == 1,
        live_run(events, mode).0 is Done ==> count_request_writes(live_run(events, mode).1) <= 1
            && count_upstream_calls(live_run(events, mode).1) <= 1 && count_response_writes(
            live_run(events, mode).1,
        ) + count_cache_reads(live_run(events, mode).1) <= 1,
    decreases events.len(),
{
    if events.len() > 0 {
        lemma_run_effect_inventory(events.drop_last(), mode);
        let prior = live_run(events.drop_last(), mode);
        let step = live_transition(prior.0, events.last(), mode);
        lemma_counts_push(prior.1, step.1);
        assert(live_run(events, mode).1 == prior.1.push(step.1));
    }
}

/// The live pipeline's side effects are bounded, over every run the driving
/// process can produce: at most one cache write of the request, at most one
/// upstream call, and at most one of a response cache write or a cache read
/// (so at most two cache writes and at most one cache read in all).
pub proof fn lemma_run_side_effect_bounds(events: Seq<LiveEventV>, mode: ProxyMode)
    requires
        run_fits(events, mode),
    ensures
        count_request_writes(live_run(events, mode).1) <= 1,
        count_upstream_calls(live_run(events, mode).1) <= 1,
        count_response_writes(live_run(events, mode).1) + count_cache_reads(
            live_run(events, mode).1,
        ) <= 1,
{
    lemma_run_effect_inventory(events, mode);
}

/// In store mode no run of the pipeline, over any sequence of completions,
/// ever emits a network call.
pub proof fn lemma_run_store_mode_never_calls(events: Seq<LiveEventV>)
    ensures
        forall|i: int|
            0 <= i < live_run(events, ProxyMode::Store).1.len() ==> !((#[trigger] live_run(
                events,
                ProxyMode::Store,
            ).1[i]) matches LiveActionV::CallUpstream(_)),
    decreases events.len(),
{
    if events.len() > 0 {
        lemma_run_store_mode_never_calls(events.drop_last());
        let prior = live_run(events.drop_last(), ProxyMode::Store);
        let acts = live_run(events, ProxyMode::Store).1;
        assert(acts == prior.1.push(live_transition(prior.0, events.last(), ProxyMode::Store).1));
        assert(forall|i: int| 0 <= i < prior.1.len() ==> acts[i] == prior.1[i]);
    }
}

/// A response is cached only when its status is success-classified, over
/// every run: failure-classified responses and synthesized failures are
/// never written, so cache lookups always represent the last known good
/// response.
pub proof fn lemma_run_only_success_cached(events: Seq<LiveEventV>, mode: ProxyMode)
    ensures
        forall|i: int|
            0 <= i < live_run(events, mode).1.len() ==> match #[trigger] live_run(
                events,
                mode,
            ).1[i] {
                LiveActionV::StoreResponse(_, rs) => success_status(rs.status),
                _ => true,
            },
    decreases events.len(),
{
    if events.len() > 0 {
        lemma_run_only_success_cached(events.drop_last(), mode);
        let prior = live_run(events.drop_last(), mode);
        let acts = live_run(events, mode).1;
        assert(acts == prior.1.push(live_transition(prior.0, events.last(), mode).1));
        assert(forall|i: int| 0 <= i < prior.1.len() ==> acts[i] == prior.1[i]);
    }
}

/// A success-classified upstream response is persisted for the request that
/// produced it — same identifier, same status, same bytes — and the
/// client-visible response is the received one, byte-identical.
pub proof fn lemma_success_cached_and_returned_verbatim(
    rq: CanonicalRequestV,
    reply: HttpReplyV,
    mode: ProxyMode,
)
    requires
        success_status(reply.status),
    ensures
        live_transition(
            LiveStateV::CallingUpstream(rq),
            LiveEventV::UpstreamDone(UpstreamOutcomeV::Reply(reply)),
            mode,
        ) == (
            LiveStateV::StoringResponse(rq, reply),
            LiveActionV::StoreResponse(rq, response_of_reply(rq, reply)),
        ),
        response_of_reply(rq, reply).request_id == rq.request_id,
        response_of_reply(rq, reply).status == reply.status,
        response_of_reply(rq, reply).body == reply.body,
        live_transition(LiveStateV::StoringResponse(rq, reply), LiveEventV::ResponseStored, mode)
            == (LiveStateV::Done, LiveActionV::Respond(reply)),
{
}

/// When the upstream attempt did not yield a success — a failure status or a
/// transport error alike — the cache is consulted, and a previously cached
/// response, if one exists, is what the client receives, reconstituted as a
/// network response.
pub proof fn lemma_fallback_to_cached(
    rq: CanonicalRequestV,
    outcome: UpstreamOutcomeV,
    cached: CanonicalResponseV,
    mode: ProxyMode,
)
    requires
        !success_status(candidate_reply(outcome).status),
    ensures
        live_transition(
            LiveStateV::CallingUpstream(rq),
            LiveEventV::UpstreamDone(outcome),
            mode,
        ) == (
            LiveStateV::CheckingCache(rq, candidate_reply(outcome)),
            LiveActionV::FetchCachedResponse(rq),
        ),
        live_transition(
            LiveStateV::CheckingCache(rq, candidate_reply(outcome)),
            LiveEventV::CacheChecked(Some(cached)),
            mode,
        ) == (LiveStateV::Done, LiveActionV::Respond(reply_of_response(cached))),
{
}

/// When the upstream attempt did not yield a success and no cached response
/// exists, the client receives the raw failure: the upstream's failure
/// response verbatim, or the synthesized 502 when the call itself failed.
pub proof fn lemma_failure_without_cache(
    rq: CanonicalRequestV,
    cand: HttpReplyV,
    mode: ProxyMode,
)
    ensures
        live_transition(
            LiveStateV::CheckingCache(rq, cand),
            LiveEventV::CacheChecked(None),
            mode,
        ) == (LiveStateV::Done, LiveActionV::Respond(cand)),
{
}

/// A request the parser rejects is answered with exactly the 400 envelope
/// carrying the validation reason, the pipeline ends at once, and no cache
/// write is ever emitted for it: `StoreRequest` arises only from an
/// accepted parse.
pub proof fn lemma_rejected_request(s: LiveStateV, e: LiveEventV, mode: ProxyMode, reason: Seq<char>)
    ensures
        live_transition(
            LiveStateV::AwaitingParse,
            LiveEventV::Parsed(ParseOutcomeV::Rejected(reason)),
            mode,
        ) == (LiveStateV::Done, LiveActionV::Respond(bad_request_reply(reason))),
        live_transition(s, e, mode).1 matches LiveActionV::StoreRequest(rq) ==> e
            == LiveEventV::Parsed(ParseOutcomeV::Accepted(rq)),
{
}

/// An attempt that exceeded the deadline resolves like any transport error:
/// its candidate response is the synthesized 502, which is never
/// success-classified, so it is never persisted and the fallback policy
/// applies.
pub proof fn lemma_timeout_resolves_to_failure(
    rq: CanonicalRequestV,
    ms: u64,
    mode: ProxyMode,
)
    ensures
        candidate_reply(
            UpstreamOutcomeV::Failed(crate::upstream::UpstreamError::Timeout(ms)),
        ).status == 502,
        live_transition(
            LiveStateV::CallingUpstream(rq),
            LiveEventV::UpstreamDone(
                UpstreamOutcomeV::Failed(crate::upstream::UpstreamError::Timeout(ms)),
            ),
            mode,
        ).1 == LiveActionV::FetchCachedResponse(rq),
        forall|e: crate::upstream::UpstreamError|
            !(#[trigger] live_transition(
                LiveStateV::CallingUpstream(rq),
                LiveEventV::UpstreamDone(UpstreamOutcomeV::Failed(e)),
                mode,
            ).1 matches LiveActionV::StoreResponse(_, _)),
{
}

} // verus!
