//! The worker: the service that runs snippets for a gateway. It reads a
//! request, runs the snippet, and answers with what came of it.

use crate::config::{number_setting, port_or, seconds_or, text_or, text_setting};
use crate::config::{DEFAULT_HOST, DEFAULT_TIMEOUT};
use crate::executor::{executor_message, outcome_view, ExecutionResult, ExecutionResultView};
use crate::executor::{ExecutorError, ExecutorErrorView, NO_EXIT_STATUS};
use crate::protocol::{ExecuteResponse, ExecuteResponseView, STATUS_FAILED, STATUS_OK};
use vstd::prelude::*;

verus! {

/// The port that a worker listens on unless told otherwise.
pub const DEFAULT_WORKER_PORT: u16 = 9000;

/// Where a worker listens, and how long a child may run where a request
/// does not say.
#[derive(Debug, PartialEq, Eq)]
pub struct WorkerConfig {
    pub host: String,
    pub port: u16,
    pub default_timeout: u64,
}

impl WorkerConfig {
    /// The configuration for the host, port and timeout settings, each with
    /// its default where it is absent or unreadable.
    pub fn from_env(host: Option<&str>, port: Option<&str>, timeout: Option<&str>) -> (config:
        WorkerConfig)
        ensures
            config.host@ == text_setting(host, DEFAULT_HOST@),
            config.port == number_setting(port, DEFAULT_WORKER_PORT as nat, u16::MAX as nat),
            config.default_timeout == number_setting(
                timeout,
                DEFAULT_TIMEOUT as nat,
                u64::MAX as nat,
            ),
    {
        WorkerConfig {
            host: text_or(host, DEFAULT_HOST),
            port: port_or(port, DEFAULT_WORKER_PORT),
            default_timeout: seconds_or(timeout, DEFAULT_TIMEOUT),
        }
    }
}

/// The deadline of a run: the one that the request names, else the
/// configured one.
pub open spec fn timeout_of(requested: Option<u64>, default_timeout: u64) -> u64 {
    match requested {
        Some(seconds) => seconds,
        None => default_timeout,
    }
}

/// The deadline of a run: the one that the request names, else the
/// configured one.
pub fn effective_timeout(requested: Option<u64>, default_timeout: u64) -> (seconds: u64)
    ensures
        seconds == timeout_of(requested, default_timeout),
{
    match requested {
        Some(seconds) => seconds,
        None => default_timeout,
    }
}

/// The status and the body that answer a request, for the outcome of its
/// run. A result goes out as it is. A failure goes out as its message, with
/// no output and the exit code that stands for "no exit status".
pub open spec fn response_of(outcome: Result<ExecutionResultView, ExecutorErrorView>) -> (
    u16,
    ExecuteResponseView,
) {
    match outcome {
        Ok(result) => (
            STATUS_OK,
            ExecuteResponseView {
                stdout: result.stdout,
                stderr: result.stderr,
                exit_code: result.exit_code,
                error: None,
            },
        ),
        Err(error) => (
            STATUS_FAILED,
            ExecuteResponseView {
                stdout: Seq::empty(),
                stderr: Seq::empty(),
                exit_code: NO_EXIT_STATUS,
                error: Some(executor_message(error)),
            },
        ),
    }
}

/// The status and the body that answer a request, for the outcome of its
/// run.
pub fn respond(outcome: Result<ExecutionResult, ExecutorError>) -> (r: (u16, ExecuteResponse))
    ensures
        (r.0, r.1@) == response_of(outcome_view(outcome)),
{
    match outcome {
        Ok(result) => (
            STATUS_OK,
            ExecuteResponse {
                stdout: result.stdout,
                stderr: result.stderr,
                exit_code: result.exit_code,
                error: None,
            },
        ),
        Err(error) => (
            STATUS_FAILED,
            ExecuteResponse {
                stdout: String::new(),
                stderr: String::new(),
                exit_code: NO_EXIT_STATUS,
                error: Some(error.message()),
            },
        ),
    }
}

} // verus!
