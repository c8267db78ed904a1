//! Admission control and request settlement.
//!
//! Every inbound request passes a fixed chain of policies: a
//! concurrency cap with immediate load shedding, a per-request
//! deadline, and one normalization point that turns every policy error
//! into a documented status code.  The limiter here carries the shared
//! in-flight counter; the settlement machine guarantees that each
//! request is answered exactly once, and that an engine result arriving
//! after the request was settled (after a timeout, say) is discarded,
//! never delivered.

use vstd::prelude::*;
use vstd::string::StringExecFns;

use crate::envelope::{response_channel_error, response_no_fit, spec_channel_error_body,
    spec_no_fit_body};
use crate::model::{CutPiece, HttpResponse};

verus! {

/// The shared in-flight counter of the concurrency-limit policy.  At
/// most `max_requests` requests are inside the stack at once; a request
/// arriving beyond the cap is shed immediately rather than queued.
#[derive(Clone, Copy, Debug, PartialEq, Eq)]
pub struct Limiter {
    /// How many admitted requests have not been released yet.
    pub in_flight: usize,
    /// The concurrency cap.
    pub max_requests: usize,
}

/// The limiter never counts more in-flight requests than its cap.
pub open spec fn limiter_wf(l: Limiter) -> bool {
    l.in_flight <= l.max_requests
}

/// What admission does to the limiter: under the cap the request is
/// admitted and counted; at the cap it is turned away and the state
/// does not change.
pub open spec fn spec_try_admit(l: Limiter) -> (Limiter, bool) {
    if l.in_flight < l.max_requests {
        (Limiter { in_flight: (l.in_flight + 1) as usize, max_requests: l.max_requests }, true)
    } else {
        (l, false)
    }
}

impl Limiter {
    /// A fresh limiter with the given concurrency cap and nothing in
    /// flight.
    pub fn new(max_requests: usize) -> (r: Limiter)
        ensures
            r == (Limiter { in_flight: 0, max_requests }),
            limiter_wf(r),
    {
        Limiter { in_flight: 0, max_requests }
    }

    /// Admit one request if the cap allows it.  Admission counts the
    /// request; a refusal leaves the limiter exactly as it was, so a
    /// shed request costs nothing and waits for nothing.
    pub fn try_admit(&mut self) -> (admitted: bool)
        requires
            limiter_wf(*old(self)),
        ensures
            (*final(self), admitted) == spec_try_admit(*old(self)),
            limiter_wf(*final(self)),
    {
        if self.in_flight < self.max_requests {
            self.in_flight = self.in_flight + 1;
            true
        } else {
            false
        }
    }

    /// Release one admitted request.
    pub fn release(&mut self)
        requires
            limiter_wf(*old(self)),
            old(self).in_flight > 0,
        ensures
            final(self).in_flight == old(self).in_flight - 1,
            final(self).max_requests == old(self).max_requests,
            limiter_wf(*final(self)),
    {
        self.in_flight = self.in_flight - 1;
    }
}

/// The load-shedding admission step: a request beyond the concurrency
/// cap is refused at once with the overload error — which the
/// normalization point turns into a 503 — and a refused request leaves
/// the limiter untouched.
pub fn admit_one(limiter: &mut Limiter) -> (r: Result<(), AdmissionError>)
    requires
        limiter_wf(*old(limiter)),
    ensures
        limiter_wf(*final(limiter)),
        r is Ok <==> old(limiter).in_flight < old(limiter).max_requests,
        r is Ok ==> *final(limiter) == spec_try_admit(*old(limiter)).0,
        r is Ok ==> final(limiter).in_flight == old(limiter).in_flight + 1,
        r is Err ==> r->Err_0 == AdmissionError::Overloaded && *final(limiter) == *old(limiter),
{
    if limiter.try_admit() {
        Ok(())
    } else {
        Err(AdmissionError::Overloaded)
    }
}

/// Law: excess load is shed, not queued.  A request arriving at a full
/// limiter is refused at once and the limiter keeps its state, so the
/// refusal neither waits for capacity nor consumes any.
pub proof fn lemma_full_limiter_sheds(l: Limiter)
    requires
        limiter_wf(l),
        l.in_flight == l.max_requests,
    ensures
        spec_try_admit(l) == (l, false),
{
}

/// Law: the cap is never exceeded.  Whatever a well-formed limiter
/// admits, the count in flight afterwards still respects the cap.
pub proof fn lemma_cap_respected(l: Limiter)
    requires
        limiter_wf(l),
    ensures
        limiter_wf(spec_try_admit(l).0),
        spec_try_admit(l).0.in_flight <= l.max_requests,
{
}

/// An error crossing the admission stack, on its way to the single
/// normalization point.
#[derive(Clone, Debug, PartialEq)]
pub enum AdmissionError {
    /// The per-request deadline passed before the handler answered.
    Elapsed,
    /// The concurrency cap was saturated and this request was shed.
    Overloaded,
    /// Any other failure bubbling out of the stack.
    Other(String),
}

/// The status code the normalization point assigns to an error.
pub open spec fn spec_normalized_status(e: AdmissionError) -> u16 {
    match e {
        AdmissionError::Elapsed => 408,
        AdmissionError::Overloaded => 503,
        AdmissionError::Other(_) => 500,
    }
}

/// The body the normalization point assigns to an error.
pub open spec fn spec_normalized_body(e: AdmissionError) -> Seq<char> {
    match e {
        AdmissionError::Elapsed => "Request took too long"@,
        AdmissionError::Overloaded => "Too many requests"@,
        AdmissionError::Other(m) => "Unhandled internal error: "@ + m@,
    }
}

/// The single normalization point of the stack: every error that
/// bubbles out of the inner layers becomes one of the documented
/// responses — deadline expiry a 408, shed load a 503, anything else a
/// 500 carrying the error's description.
pub fn handle_error(e: &AdmissionError) -> (r: HttpResponse)
    ensures
        r.status == spec_normalized_status(*e),
        r.body@ == spec_normalized_body(*e),
{
    match e {
        AdmissionError::Elapsed => HttpResponse {
            status: 408,
            body: String::from_str("Request took too long"),
        },
        AdmissionError::Overloaded => HttpResponse {
            status: 503,
            body: String::from_str("Too many requests"),
        },
        AdmissionError::Other(m) => {
            let mut body = String::from_str("Unhandled internal error: ");
            body.append(m.as_str());
            HttpResponse { status: 500, body }
        },
    }
}

/// Where a single request stands while the async side awaits its
/// completion channel.
#[derive(Clone, Copy, Debug, PartialEq, Eq)]
pub enum RequestPhase {
    /// Still waiting for the first of: engine completion, channel
    /// failure, deadline expiry.
    Pending,
    /// A response has been chosen; the request is settled.
    Responded,
}

/// The first thing that happens to a pending request.
#[derive(Debug)]
pub enum RequestEvent {
    /// The worker finished and its result crossed the completion
    /// channel: the serialized solution, or the piece that fits
    /// nowhere.
    EngineDone(Result<String, CutPiece>),
    /// The completion channel closed before any result was sent.
    ChannelClosed(String),
    /// The per-request deadline expired.
    DeadlineElapsed,
}

/// What the settlement machine does with an event.
#[derive(Debug)]
pub enum SettleAction {
    /// Send this response to the waiting client.
    Respond(HttpResponse),
    /// The request is already settled: drop the event's payload.
    Discard,
}

/// The status code a pending request settles with on an event.
pub open spec fn spec_event_status(e: RequestEvent) -> u16 {
    match e {
        RequestEvent::EngineDone(r) => if r is Ok {
            200
        } else {
            422
        },
        RequestEvent::ChannelClosed(_) => 500,
        RequestEvent::DeadlineElapsed => 408,
    }
}

/// The body a pending request settles with on an event.
pub open spec fn spec_event_body(e: RequestEvent) -> Seq<char> {
    match e {
        RequestEvent::EngineDone(r) => match r {
            Ok(s) => s@,
            Err(p) => spec_no_fit_body(p),
        },
        RequestEvent::ChannelClosed(m) => spec_channel_error_body(m@),
        RequestEvent::DeadlineElapsed => "Request took too long"@,
    }
}

/// The response a pending request settles with on an event: the
/// solution with 200, the no-fit envelope with 422, the channel-failure
/// envelope with 500, or the timeout text with 408.
pub fn respond_to_event(e: RequestEvent) -> (r: HttpResponse)
    ensures
        r.status == spec_event_status(e),
        r.body@ == spec_event_body(e),
{
    match e {
        RequestEvent::EngineDone(res) => match res {
            Ok(s) => HttpResponse { status: 200, body: s },
            Err(p) => response_no_fit(&p),
        },
        RequestEvent::ChannelClosed(m) => response_channel_error(m.as_str()),
        RequestEvent::DeadlineElapsed => HttpResponse {
            status: 408,
            body: String::from_str("Request took too long"),
        },
    }
}

/// The settlement transition: a pending request responds to its first
/// event; a settled request discards everything that arrives later.
pub open spec fn spec_settle(p: RequestPhase, e: RequestEvent) -> (RequestPhase, bool) {
    match p {
        RequestPhase::Pending => (RequestPhase::Responded, true),
        RequestPhase::Responded => (RequestPhase::Responded, false),
    }
}

/// Settle one event against the request's phase.  The first event
/// produces the response and closes the request; every later event is
/// discarded.
pub fn settle(p: RequestPhase, e: RequestEvent) -> (r: (RequestPhase, SettleAction))
    ensures
        r.0 == spec_settle(p, e).0,
        spec_settle(p, e).1 <==> r.1 is Respond,
        p is Pending ==> r.1 is Respond && r.1->Respond_0.status == spec_event_status(e)
            && r.1->Respond_0.body@ == spec_event_body(e),
        p is Responded ==> r.1 is Discard,
{
    match p {
        RequestPhase::Pending => (RequestPhase::Responded, SettleAction::Respond(respond_to_event(e))),
        RequestPhase::Responded => (RequestPhase::Responded, SettleAction::Discard),
    }
}

/// Law: deadline expiry is reported the same way wherever it surfaces.
/// A pending request settling on deadline expiry and the normalization
/// point handling a timeout error produce the same status and the same
/// body, so a timed-out request gets one consistent answer no matter
/// which layer catches the expiry.
pub proof fn lemma_timeout_reported_consistently()
    ensures
        spec_event_status(RequestEvent::DeadlineElapsed) == spec_normalized_status(
            AdmissionError::Elapsed,
        ),
        spec_event_body(RequestEvent::DeadlineElapsed) == spec_normalized_body(
            AdmissionError::Elapsed,
        ),
{
}

/// How many of a run of events produce a response, settled in order
/// from the given phase.
pub open spec fn spec_count_responses(p: RequestPhase, es: Seq<RequestEvent>) -> nat
    decreases es.len(),
{
    if es.len() == 0 {
        0
    } else {
        let step = spec_settle(p, es[0]);
        (if step.1 {
            1nat
        } else {
            0nat
        }) + spec_count_responses(step.0, es.skip(1))
    }
}

/// Law: a request is answered at most once.  However many events reach
/// the settlement machine, at most one of them produces a response, and
/// none at all once the request is settled — so an engine result that
/// completes after a timeout response is never delivered to the client.
pub proof fn lemma_at_most_one_response(p: RequestPhase, es: Seq<RequestEvent>)
    ensures
        p is Responded ==> spec_count_responses(p, es) == 0,
        spec_count_responses(p, es) <= 1,
    decreases es.len(),
{
    if es.len() != 0 {
        let step = spec_settle(p, es[0]);
        lemma_at_most_one_response(step.0, es.skip(1));
    }
}

} // verus!
