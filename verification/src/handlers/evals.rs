//! Evaluation runs as the API reports them.

use vstd::prelude::*;
use vstd::string::StringExecFns;

use crate::dto::evals::{EvalReportDto, EvalRunResponse, EvalRunStatusResponse};
use crate::errors::ApiError;
use crate::eval_store::EvalRunState;
use crate::handlers::studio::rejects;
use crate::studio::types::opt_str_view;

verus! {

/// The name of a run's state.
pub open spec fn state_name(s: EvalRunState) -> Seq<char> {
    match s {
        EvalRunState::Pending => "pending"@,
        EvalRunState::Running => "running"@,
        EvalRunState::Completed { .. } => "completed"@,
        EvalRunState::Failed { .. } => "failed"@,
    }
}

/// A run's status names its state: `pending`, `running`, `completed` or
/// `failed`, a different name for each state.
pub proof fn law_state_names(s: EvalRunState, t: EvalRunState)
    ensures
        s is Pending ==> state_name(s) == "pending"@,
        s is Running ==> state_name(s) == "running"@,
        s is Completed ==> state_name(s) == "completed"@,
        s is Failed ==> state_name(s) == "failed"@,
        state_name(s) == state_name(t) ==> (s is Pending <==> t is Pending) && (s is Running <==> t is Running)
            && (s is Completed <==> t is Completed) && (s is Failed <==> t is Failed),
{
    reveal_strlit("pending");
    reveal_strlit("running");
    reveal_strlit("completed");
    reveal_strlit("failed");
    assert("pending"@.len() == 7 && "running"@.len() == 7 && "completed"@.len() == 9 && "failed"@.len() == 6);
    assert("pending"@[0] != "running"@[0]);
}

/// The status of a background run: its state, its report once completed,
/// its error once failed.
pub fn eval_run_status(run_id: String, state: EvalRunState) -> (r: EvalRunStatusResponse)
    ensures
        r.run_id@ == run_id@,
        r.status@ == state_name(state),
        state is Pending ==> r.status@ == "pending"@,
        state is Running ==> r.status@ == "running"@,
        state is Completed ==> r.status@ == "completed"@,
        state is Failed ==> r.status@ == "failed"@,
        match state {
            EvalRunState::Completed { report } => r.report == Some(report) && r.error is None,
            EvalRunState::Failed { error } => r.report is None && opt_str_view(r.error) == Some(error@),
            _ => r.report is None && r.error is None,
        },
{
    proof {
        law_state_names(state, state);
    }
    match state {
        EvalRunState::Pending => EvalRunStatusResponse { run_id, status: "pending".to_string(), report: None, error: None },
        EvalRunState::Running => EvalRunStatusResponse { run_id, status: "running".to_string(), report: None, error: None },
        EvalRunState::Completed { report } => EvalRunStatusResponse {
            run_id,
            status: "completed".to_string(),
            report: Some(report),
            error: None,
        },
        EvalRunState::Failed { error } => EvalRunStatusResponse {
            run_id,
            status: "failed".to_string(),
            report: None,
            error: Some(error),
        },
    }
}

/// The answer to a run made while the request waits: failed when any
/// scenario failed, completed otherwise.
pub fn eval_sync_response(report: EvalReportDto) -> (r: EvalRunResponse)
    ensures
        r.run_id is None,
        r.status@ == (if report.metrics.failed > 0 { "failed"@ } else { "completed"@ }),
        r.report == Some(report),
{
    let status = if report.metrics.failed > 0 { "failed" } else { "completed" };
    EvalRunResponse { run_id: None, status: status.to_string(), report: Some(report) }
}

/// The error for an unknown run.
pub fn eval_run_not_found(run_id: &str) -> (e: ApiError)
    ensures
        rejects(e, "eval run not found: "@ + run_id@),
{
    ApiError::invalid_request("eval run not found: ".to_string().concat(run_id))
}

} // verus!
