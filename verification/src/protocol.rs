//! What a gateway and a worker send each other: one request and one response
//! per run, and a fixed answer to the liveness probe.

use vstd::prelude::*;

verus! {

/// The status of a response that carries a result.
pub const STATUS_OK: u16 = 200;

/// The status of a response that carries a failure.
pub const STATUS_FAILED: u16 = 500;

/// The path that a run is asked for at.
pub const EXECUTE_PATH: &'static str = "/execute";

/// The path of the liveness probe.
pub const HEALTH_PATH: &'static str = "/health";

/// The answer to the liveness probe.
pub fn health() -> (marker: &'static str)
    ensures
        marker@ == "OK"@,
{
    "OK"
}

/// Whether a status says that the request succeeded.
pub open spec fn is_success(status: u16) -> bool {
    200 <= status <= 299
}

/// A request to run `code`, with a deadline in seconds where the sender
/// chose one.
#[derive(Debug, PartialEq, Eq)]
pub struct ExecuteRequest {
    pub code: String,
    pub timeout: Option<u64>,
}

/// An `ExecuteRequest` as contracts speak of it.
pub struct ExecuteRequestView {
    pub code: Seq<char>,
    pub timeout: Option<u64>,
}

impl View for ExecuteRequest {
    type V = ExecuteRequestView;

    open spec fn view(&self) -> ExecuteRequestView {
        ExecuteRequestView { code: self.code@, timeout: self.timeout }
    }
}

/// The answer to a request: what the child left behind, or why there is
/// nothing.
#[derive(Debug, PartialEq, Eq)]
pub struct ExecuteResponse {
    pub stdout: String,
    pub stderr: String,
    pub exit_code: i32,
    pub error: Option<String>,
}

/// An `ExecuteResponse` as contracts speak of it.
pub struct ExecuteResponseView {
    pub stdout: Seq<char>,
    pub stderr: Seq<char>,
    pub exit_code: i32,
    pub error: Option<Seq<char>>,
}

impl View for ExecuteResponse {
    type V = ExecuteResponseView;

    open spec fn view(&self) -> ExecuteResponseView {
        ExecuteResponseView {
            stdout: self.stdout@,
            stderr: self.stderr@,
            exit_code: self.exit_code,
            error: match self.error {
                Some(message) => Some(message@),
                None => None,
            },
        }
    }
}

} // verus!
