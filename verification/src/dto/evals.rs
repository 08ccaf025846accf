//! Evaluation scenarios, runs and their reports.

use vstd::prelude::*;

verus! {

pub struct EvalScenarioDto {
    pub name: String,
    pub domain: Option<String>,
    pub llm: Option<String>,
    pub source_path: String,
}

pub struct EvalScenariosResponse {
    pub scenarios: Vec<EvalScenarioDto>,
}

pub struct EvalRunRequest {
    pub scenario: Option<String>,
    pub domain: Option<String>,
    pub llm: Option<String>,
}

pub struct AssertionFailureDto {
    pub field: String,
    pub expected: String,
    pub actual: String,
}

pub struct EvalScenarioResultDto {
    pub name: String,
    pub domain: Option<String>,
    pub status: String,
    pub skip_reason: Option<String>,
    pub failures: Vec<AssertionFailureDto>,
}

pub struct EvalMetricsDto {
    pub total: usize,
    pub passed: usize,
    pub failed: usize,
    pub skipped: usize,
    pub duration_ms: u64,
}

pub struct EvalReportDto {
    pub metrics: EvalMetricsDto,
    pub results: Vec<EvalScenarioResultDto>,
}

pub struct EvalRunResponse {
    pub run_id: Option<String>,
    pub status: String,
    pub report: Option<EvalReportDto>,
}

pub struct EvalAsyncRunResponse {
    pub run_id: String,
    pub status: String,
}

pub struct EvalRunStatusResponse {
    pub run_id: String,
    pub status: String,
    pub report: Option<EvalReportDto>,
    pub error: Option<String>,
}

} // verus!
