//! The request pipeline of the optimization endpoint.
//!
//! `POST /optimize` is the one route: any other path is unknown, any
//! other method on the route is not allowed, and an oversized body is
//! refused before anything is parsed.  Behind those guards the body is
//! decoded, the engine runs, and its outcome is encoded — a pipeline
//! whose response is a function of the decoded request alone.

use vstd::prelude::*;
use vstd::string::StringExecFns;

use crate::admission::{admit_one, handle_error, Limiter, limiter_wf};
use crate::decode::{decode_request, spec_decode};
use crate::engine::{run_optimizer, spec_engine_outcome};
use crate::envelope::{response_no_fit, spec_no_fit_body};
use crate::jsonval::{doc_of, json_wf};
use crate::model::{input_within_limits, HttpResponse, InputModel, OptimizerInput};

verus! {

/// Default per-request deadline, in seconds.
pub const DEFAULT_TIMEOUT_SECS: u64 = 60;

/// Default concurrency cap of the admission stack.
pub const DEFAULT_MAX_REQUESTS: usize = 100;

/// Default upper bound on the size of a request body, in bytes.
pub const DEFAULT_MAX_BODY_BYTES: usize = 32896;

/// The tunable limits of the service.
#[derive(Clone, Copy, Debug, PartialEq, Eq)]
pub struct ServerConfig {
    /// Per-request deadline, in seconds.
    pub timeout_secs: u64,
    /// How many requests may be inside the stack at once.
    pub max_requests: usize,
    /// Upper bound on the size of a request body, in bytes.
    pub max_body_bytes: usize,
}

impl Default for ServerConfig {
    /// The documented defaults: a sixty-second deadline, one hundred
    /// concurrent requests, bodies up to 32896 bytes.
    fn default() -> (r: Self)
        ensures
            r == (ServerConfig {
                timeout_secs: DEFAULT_TIMEOUT_SECS,
                max_requests: DEFAULT_MAX_REQUESTS,
                max_body_bytes: DEFAULT_MAX_BODY_BYTES,
            }),
    {
        ServerConfig {
            timeout_secs: DEFAULT_TIMEOUT_SECS,
            max_requests: DEFAULT_MAX_REQUESTS,
            max_body_bytes: DEFAULT_MAX_BODY_BYTES,
        }
    }
}

/// The status code of a decoded request's response: 200 when the
/// engine finds a layout, 422 when some piece fits no stock piece.
pub open spec fn spec_decoded_status(m: InputModel) -> u16 {
    if spec_engine_outcome(m) is Ok {
        200
    } else {
        422
    }
}

/// The body of a decoded request's response: the serialized solution,
/// or the no-fit envelope around the offending piece.
pub open spec fn spec_decoded_body(m: InputModel) -> Seq<char> {
    match spec_engine_outcome(m) {
        Ok(s) => s,
        Err(p) => spec_no_fit_body(p),
    }
}

/// Run the engine on a decoded request and encode its outcome.  The
/// response is a function of the decoded request alone: the same
/// request always gets the same status and the same body.
pub fn process_decoded(input: &OptimizerInput) -> (r: HttpResponse)
    requires
        input_within_limits(input@),
    ensures
        r.status == spec_decoded_status(input@),
        r.body@ == spec_decoded_body(input@),
        spec_engine_outcome(input@) is Err ==> exists|j: int|
            0 <= j < input.cut_pieces@.len() && input.cut_pieces@[j] == spec_engine_outcome(
                input@,
            )->Err_0,
{
    match run_optimizer(input) {
        Ok(s) => HttpResponse { status: 200, body: s },
        Err(p) => response_no_fit(&p),
    }
}

/// Law: the same input gives the same answer.  Two responses that both
/// meet the pipeline's contract for one decoded request are identical
/// in status and body — the engine is deterministic for a given seed,
/// so resubmitting a request reproduces its solution.
pub proof fn lemma_idempotent(i: InputModel, r1: HttpResponse, r2: HttpResponse)
    requires
        r1.status == spec_decoded_status(i),
        r1.body@ == spec_decoded_body(i),
        r2.status == spec_decoded_status(i),
        r2.body@ == spec_decoded_body(i),
    ensures
        r1.status == r2.status,
        r1.body@ == r2.body@,
{
}

/// Law: a no-fit outcome is reported as 422, and the envelope's data is
/// exactly the JSON of the piece the engine could not place, its
/// external id included.
pub proof fn lemma_no_fit_identifies_piece(i: InputModel)
    requires
        spec_engine_outcome(i) is Err,
    ensures
        spec_decoded_status(i) == 422,
        spec_decoded_body(i) == spec_no_fit_body(spec_engine_outcome(i)->Err_0),
{
}

/// What a `POST /optimize` body within the size limit is answered
/// with: bytes that are not JSON get 400 with the parser's message, a
/// document the decoder refuses gets 400 with the decoder's message,
/// and a decoded request gets exactly the engine outcome's status and
/// body.
pub open spec fn optimize_post(r: HttpResponse, body: Seq<u8>) -> bool {
    if !json_wf(body) {
        r.status == 400
    } else {
        match spec_decode(doc_of(body)) {
            Err(msg) => r.status == 400 && r.body@ == msg,
            Ok(m) => r.status == spec_decoded_status(m) && r.body@ == spec_decoded_body(m),
        }
    }
}

/// Handle the body of a `POST /optimize` request: refuse an oversized
/// body with 413 before parsing, reject a body that does not decode
/// with 400 and the decoder's message, and answer a decoded request
/// exactly as its engine outcome demands.
pub fn handle_optimize(body: &[u8], max_body_bytes: usize) -> (r: HttpResponse)
    ensures
        body@.len() > max_body_bytes ==> r.status == 413 && r.body@ == Seq::<char>::empty(),
        body@.len() <= max_body_bytes ==> optimize_post(r, body@),
        r.status == 413 || r.status == 400 || r.status == 200 || r.status == 422,
{
    if body.len() > max_body_bytes {
        return HttpResponse { status: 413, body: String::new() };
    }
    match decode_request(body) {
        Ok(input) => process_decoded(&input),
        Err(m) => HttpResponse { status: 400, body: m },
    }
}

/// The status a request is refused with before its body is even
/// parsed, if any: 404 off the route, 405 for a method other than POST
/// — DELETE, GET, PATCH, PUT and every other method alike — and 413
/// for an oversized body.
pub open spec fn spec_guard_status(
    method: Seq<char>,
    path: Seq<char>,
    len: nat,
    max_body_bytes: nat,
) -> Option<u16> {
    if path != "/optimize"@ {
        Some(404u16)
    } else if method != "POST"@ {
        Some(405u16)
    } else if len > max_body_bytes {
        Some(413u16)
    } else {
        None
    }
}

/// Handle one request to the service.  A request a guard refuses gets
/// that guard's status with an empty body; one that passes the guards
/// is answered exactly as `optimize_post` states.
pub fn process_request(method: &str, path: &str, body: &[u8], max_body_bytes: usize) -> (r:
    HttpResponse)
    ensures
        (spec_guard_status(method@, path@, body@.len(), max_body_bytes as nat) matches Some(s)
            ==> r.status == s && r.body@ == Seq::<char>::empty()),
        spec_guard_status(method@, path@, body@.len(), max_body_bytes as nat) is None
            ==> optimize_post(r, body@),
{
    let path_owned = String::from_str(path);
    if !path_owned.eq(&String::from_str("/optimize")) {
        return HttpResponse { status: 404, body: String::new() };
    }
    let method_owned = String::from_str(method);
    if !method_owned.eq(&String::from_str("POST")) {
        return HttpResponse { status: 405, body: String::new() };
    }
    handle_optimize(body, max_body_bytes)
}

/// One request through the admission stack, settled synchronously.
/// Load shedding stands outside the route: a request arriving at a
/// saturated limiter is refused at once with the normalized 503, and
/// an admitted request is handled and then released — on every exit
/// path the limiter ends exactly where it began, so no capacity leaks.
pub fn handle_with_admission(
    limiter: &mut Limiter,
    method: &str,
    path: &str,
    body: &[u8],
    max_body_bytes: usize,
) -> (r: HttpResponse)
    requires
        limiter_wf(*old(limiter)),
    ensures
        limiter_wf(*final(limiter)),
        *final(limiter) == *old(limiter),
        old(limiter).in_flight >= old(limiter).max_requests ==> r.status == 503 && r.body@
            == "Too many requests"@,
        old(limiter).in_flight < old(limiter).max_requests ==> {
            &&& (spec_guard_status(method@, path@, body@.len(), max_body_bytes as nat)
                matches Some(s) ==> r.status == s && r.body@ == Seq::<char>::empty())
            &&& (spec_guard_status(method@, path@, body@.len(), max_body_bytes as nat) is None
                ==> optimize_post(r, body@))
        },
{
    match admit_one(limiter) {
        Err(e) => handle_error(&e),
        Ok(()) => {
            let r = process_request(method, path, body, max_body_bytes);
            limiter.release();
            r
        },
    }
}

} // verus!
