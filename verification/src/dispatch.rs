//! The request dispatcher: turns a body's decode outcome into either an
//! immediate response or an admitted unit of work, and turns an execution's
//! outcome into the response that is written back. Transport failures become
//! a status with a fixed, opaque body; query-level errors stay inside a
//! transport-successful body.

use vstd::prelude::*;
use vstd::string::*;
use crate::pool::{WorkerPool, SubmitOutcome};
use crate::request::QueryRequest;
use crate::result::{ExecutionResult, result_text, wf_result};

verus! {

/// An HTTP response as the acceptor writes it: status, content type, body.
pub struct Response {
    pub status: u16,
    pub content_type: String,
    pub body: String,
}

/// The response to a body that does not decode into a valid request.
pub open spec fn is_bad_request(r: Response) -> bool {
    &&& r.status == 400
    &&& r.content_type@ == ("text/plain; charset=utf-8")@
    &&& r.body@ == ("bad request: the body is not a valid query request")@
}

/// The response to a submission the saturated worker pool refused. The body
/// is fixed and opaque: recoverable by the client, leaking nothing.
pub open spec fn is_saturated(r: Response) -> bool {
    &&& r.status == 503
    &&& r.content_type@ == ("text/plain; charset=utf-8")@
    &&& r.body@ == ("server busy: try again later")@
}

/// The response to an internal fault. The body is fixed and opaque: no
/// internal detail crosses the process boundary.
pub open spec fn is_internal_error(r: Response) -> bool {
    &&& r.status == 500
    &&& r.content_type@ == ("text/plain; charset=utf-8")@
    &&& r.body@ == ("internal server error")@
}

/// The transport-successful response: status 200 and exactly the result's
/// wire text, whether or not the result carries query-level errors.
pub open spec fn is_success(r: Response, res: ExecutionResult) -> bool {
    &&& r.status == 200
    &&& r.content_type@ == ("application/json")@
    &&& r.body@ == result_text(res)
}

pub fn bad_request_response() -> (r: Response)
    ensures
        is_bad_request(r),
{
    Response {
        status: 400,
        content_type: String::from_str("text/plain; charset=utf-8"),
        body: String::from_str("bad request: the body is not a valid query request"),
    }
}

pub fn saturated_response() -> (r: Response)
    ensures
        is_saturated(r),
{
    Response {
        status: 503,
        content_type: String::from_str("text/plain; charset=utf-8"),
        body: String::from_str("server busy: try again later"),
    }
}

pub fn internal_error_response() -> (r: Response)
    ensures
        is_internal_error(r),
{
    Response {
        status: 500,
        content_type: String::from_str("text/plain; charset=utf-8"),
        body: String::from_str("internal server error"),
    }
}

/// What the dispatcher decides about one inbound body.
pub enum DispatchStep {
    /// Answer at once, without touching the worker pool.
    Reject(Response),
    /// The pool admitted the work: execute this request, then call
    /// `finish_request` with the outcome.
    Execute(QueryRequest),
}

/// The admission step. A body that did not decode, or decoded into an
/// invalid request, is rejected before the pool is consulted; a valid
/// request is submitted, and only the pool's own saturation refuses it.
pub fn accept_request(pool: &mut WorkerPool, decoded: Option<QueryRequest>) -> (r: DispatchStep)
    requires
        old(pool).wf(),
    ensures
        final(pool).wf(),
        decoded is None ==> {
            &&& r matches DispatchStep::Reject(resp) && is_bad_request(resp)
            &&& *final(pool) == *old(pool)
        },
        decoded matches Some(q) ==> {
            &&& !q.valid() ==> {
                &&& r matches DispatchStep::Reject(resp) && is_bad_request(resp)
                &&& *final(pool) == *old(pool)
            }
            &&& q.valid() && old(pool).submit_transition().1 == SubmitOutcome::Rejected ==> {
                &&& r matches DispatchStep::Reject(resp) && is_saturated(resp)
                &&& *final(pool) == *old(pool)
            }
            &&& q.valid() && old(pool).submit_transition().1 != SubmitOutcome::Rejected ==> {
                &&& r matches DispatchStep::Execute(q2) && q2 == q
                &&& *final(pool) == old(pool).submit_transition().0
            }
        },
{
    match decoded {
        None => DispatchStep::Reject(bad_request_response()),
        Some(q) => {
            if !q.is_valid() {
                DispatchStep::Reject(bad_request_response())
            } else {
                match pool.try_submit() {
                    SubmitOutcome::Rejected => DispatchStep::Reject(saturated_response()),
                    _ => DispatchStep::Execute(q),
                }
            }
        },
    }
}

/// How one admitted execution ended at the pool boundary.
pub enum ExecOutcome {
    /// The execution ran to an end and produced a result — possibly one that
    /// itself reports query-level errors.
    Completed(ExecutionResult),
    /// The executed unit faulted; the fault was caught at the pool boundary
    /// and carries no detail for the client.
    Failed,
}

/// The completion step: frees the admitted slot and encodes the outcome. A
/// completed result travels verbatim in a 200 response even when its error
/// list is non-empty; a fault, or a result that cannot be encoded, becomes
/// the opaque internal-error response.
pub fn finish_request(pool: &mut WorkerPool, outcome: ExecOutcome) -> (r: Response)
    requires
        old(pool).wf(),
        old(pool).running >= 1,
    ensures
        *final(pool) == old(pool).complete_transition(),
        final(pool).wf(),
        outcome matches ExecOutcome::Completed(res) ==> {
            &&& wf_result(res) ==> is_success(r, res)
            &&& !wf_result(res) ==> is_internal_error(r)
        },
        outcome is Failed ==> is_internal_error(r),
{
    pool.complete();
    match outcome {
        ExecOutcome::Completed(res) => match res.render_body() {
            Some(body) => Response {
                status: 200,
                content_type: String::from_str("application/json"),
                body,
            },
            None => internal_error_response(),
        },
        ExecOutcome::Failed => internal_error_response(),
    }
}

} // verus!
