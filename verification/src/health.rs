//! The health handler's decision: map the outcome of the verification query
//! to an HTTP status code and a fixed response body.

use vstd::prelude::*;

verus! {

/// An HTTP response as the health handler produces it: a status code and a
/// plain-text body.
#[derive(Debug, PartialEq, Eq)]
pub struct HealthResponse {
    pub status: u16,
    pub body: String,
}

/// The status code reported for a given database outcome: 200 when the
/// verification query succeeded, 500 when it failed.
pub open spec fn spec_status(db_ok: bool) -> u16 {
    if db_ok {
        200
    } else {
        500
    }
}

/// The response body reported for a given database outcome. Both bodies are
/// fixed literals: no detail of the underlying error ever reaches the caller.
pub open spec fn spec_body(db_ok: bool) -> Seq<char> {
    if db_ok {
        "Database connection is healthy!"@
    } else {
        "Database connection failed"@
    }
}

/// The whole response for a given database outcome, as one value: what any
/// health check with that outcome answers.
pub open spec fn response_model(db_ok: bool) -> (u16, Seq<char>) {
    (spec_status(db_ok), spec_body(db_ok))
}

/// The responses to a batch of independent health checks, one per request,
/// each decided by its own database outcome.
pub open spec fn responses_for(outcomes: Seq<bool>) -> Seq<(u16, Seq<char>)> {
    outcomes.map_values(|ok: bool| response_model(ok))
}

/// A batch of health checks against a healthy database answers every request,
/// and every answer is the status-200 response: one response per request,
/// none missing.
pub proof fn lemma_concurrent_healthy(outcomes: Seq<bool>)
    requires
        forall|i: int| 0 <= i < outcomes.len() ==> outcomes[i],
    ensures
        responses_for(outcomes).len() == outcomes.len(),
        forall|i: int|
            0 <= i < outcomes.len() ==> responses_for(outcomes)[i] == response_model(true),
{
    assert forall|i: int| 0 <= i < outcomes.len() implies responses_for(outcomes)[i]
        == response_model(true) by {
        assert(outcomes[i]);
    }
}

/// Health checks are idempotent: two requests that observe the same database
/// state get identical responses, status and body alike.
pub proof fn lemma_health_idempotent(first: bool, second: bool)
    requires
        first == second,
    ensures
        response_model(first) == response_model(second),
{
}

/// Build the response for one health check, given whether the verification
/// query against the database succeeded.
pub fn health_response(db_ok: bool) -> (r: HealthResponse)
    ensures
        r.status == spec_status(db_ok),
        r.body@ == spec_body(db_ok),
{
    if db_ok {
        HealthResponse { status: 200, body: "Database connection is healthy!".to_owned() }
    } else {
        HealthResponse { status: 500, body: "Database connection failed".to_owned() }
    }
}

} // verus!
