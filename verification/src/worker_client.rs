//! The gateway's side of the worker protocol: what is sent for a run, and
//! what the worker's answer means.

use crate::config::{number_setting, seconds_or, text_or, text_setting, DEFAULT_TIMEOUT};
use crate::executor::{executor_message, ExecutionResult, ExecutionResultView};
use crate::executor::ExecutorErrorView;
use crate::protocol::{is_success, ExecuteRequest, ExecuteRequestView, ExecuteResponse};
use crate::protocol::{ExecuteResponseView, EXECUTE_PATH};
use crate::text::{decimal, join, push_decimal, strip_trailing, trim, trim_end_matches};
use crate::text::trimmed;
use crate::worker::{effective_timeout, timeout_of};
use vstd::prelude::*;
use vstd::string::StringExecFns;

verus! {

/// Where the worker is looked for unless told otherwise.
pub const DEFAULT_WORKER_URL: &'static str = "http://localhost:9000";

/// Why the worker gave no result.
#[derive(Debug, PartialEq, Eq)]
pub enum WorkerClientError {
    /// The round trip failed: nothing readable came back.
    Request(String),
    /// The worker answered, and its answer reports a failure.
    ServerError { status: u16, message: String },
}

/// A `WorkerClientError` as contracts speak of it.
pub enum WorkerClientErrorView {
    Request(Seq<char>),
    ServerError { status: u16, message: Seq<char> },
}

impl View for WorkerClientError {
    type V = WorkerClientErrorView;

    open spec fn view(&self) -> WorkerClientErrorView {
        match self {
            WorkerClientError::Request(m) => WorkerClientErrorView::Request(m@),
            WorkerClientError::ServerError { status, message } => WorkerClientErrorView::ServerError {
                status: *status,
                message: message@,
            },
        }
    }
}

/// The message of a failure, for people to read.
pub open spec fn client_message(error: WorkerClientErrorView) -> Seq<char> {
    match error {
        WorkerClientErrorView::Request(m) => "请求 Worker 失败: "@ + m,
        WorkerClientErrorView::ServerError { status, message } => "Worker 返回错误 (status="@
            + decimal(status as nat) + "): "@ + message,
    }
}

impl WorkerClientError {
    /// The message of this failure.
    pub fn message(&self) -> (text: String)
        ensures
            text@ == client_message(self@),
    {
        match self {
            WorkerClientError::Request(m) => join("请求 Worker 失败: ", m.as_str()),
            WorkerClientError::ServerError { status, message } => {
                let mut text = String::from_str("Worker 返回错误 (status=");
                push_decimal(&mut text, *status as u64);
                text.append("): ");
                text.append(message.as_str());
                text
            },
        }
    }
}

/// The outcome of a round trip, as contracts speak of it.
pub open spec fn reply_view(reply: Result<ExecutionResult, WorkerClientError>) -> Result<
    ExecutionResultView,
    WorkerClientErrorView,
> {
    match reply {
        Ok(result) => Ok(result@),
        Err(error) => Err(error@),
    }
}

/// What is said of a failure that the worker did not describe: its output
/// and its error output with a space between, without the whitespace around.
pub open spec fn fallback_message(stdout: Seq<char>, stderr: Seq<char>) -> Seq<char> {
    trimmed(stdout + seq![' '] + stderr)
}

/// What the worker's answer means. An answer that reports a failure, by its
/// status or by an error in its body, is a failure with that status; its
/// message is the error, or, where the body has none, what the body holds of
/// output. Any other answer is the result that its body holds.
pub open spec fn interpretation(status: u16, body: ExecuteResponseView) -> Result<
    ExecutionResultView,
    WorkerClientErrorView,
> {
    if !is_success(status) {
        Err(
            WorkerClientErrorView::ServerError {
                status,
                message: match body.error {
                    Some(message) => message,
                    None => fallback_message(body.stdout, body.stderr),
                },
            },
        )
    } else {
        match body.error {
            Some(message) => Err(WorkerClientErrorView::ServerError { status, message }),
            None => Ok(
                ExecutionResultView {
                    stdout: body.stdout,
                    stderr: body.stderr,
                    exit_code: body.exit_code,
                },
            ),
        }
    }
}

/// What the worker sent back, or why nothing readable came: the text of the
/// network's or the decoder's failure.
pub open spec fn exchange_view(exchange: Result<(u16, ExecuteResponse), String>) -> Result<
    (u16, ExecuteResponseView),
    Seq<char>,
> {
    match exchange {
        Ok(answer) => Ok((answer.0, answer.1@)),
        Err(failure) => Err(failure@),
    }
}

/// What a round trip means: the meaning of the worker's answer, or, where
/// none came, the failure of the round trip itself.
pub open spec fn conclusion(exchange: Result<(u16, ExecuteResponseView), Seq<char>>) -> Result<
    ExecutionResultView,
    WorkerClientErrorView,
> {
    match exchange {
        Ok(answer) => interpretation(answer.0, answer.1),
        Err(failure) => Err(WorkerClientErrorView::Request(failure)),
    }
}

/// Where the worker is, and the deadline for runs that name none.
#[derive(Debug, Clone, PartialEq, Eq)]
pub struct WorkerClient {
    base_url: String,
    default_timeout: u64,
}

/// A `WorkerClient` as contracts speak of it.
pub struct WorkerClientView {
    pub base_url: Seq<char>,
    pub default_timeout: u64,
}

impl View for WorkerClient {
    type V = WorkerClientView;

    closed spec fn view(&self) -> WorkerClientView {
        WorkerClientView { base_url: self.base_url@, default_timeout: self.default_timeout }
    }
}

impl WorkerClient {
    /// The client for the worker address and timeout settings. The address
    /// is kept without slashes at its end.
    pub fn from_env(worker_url: Option<&str>, execution_timeout: Option<&str>) -> (client:
        WorkerClient)
        ensures
            client@.base_url == strip_trailing(text_setting(worker_url, DEFAULT_WORKER_URL@), '/'),
            client@.default_timeout == number_setting(
                execution_timeout,
                DEFAULT_TIMEOUT as nat,
                u64::MAX as nat,
            ),
    {
        let url = text_or(worker_url, DEFAULT_WORKER_URL);
        WorkerClient {
            base_url: String::from_str(trim_end_matches(url.as_str(), '/')),
            default_timeout: seconds_or(execution_timeout, DEFAULT_TIMEOUT),
        }
    }

    /// The worker's address, without slashes at its end.
    pub fn base_url(&self) -> (url: &str)
        ensures
            url@ == self@.base_url,
    {
        self.base_url.as_str()
    }

    /// The deadline for runs that name none, in seconds.
    pub fn default_timeout(&self) -> (seconds: u64)
        ensures
            seconds == self@.default_timeout,
    {
        self.default_timeout
    }

    /// The address that a run is asked for at.
    pub fn endpoint(&self) -> (url: String)
        ensures
            url@ == self@.base_url + EXECUTE_PATH@,
    {
        join(self.base_url.as_str(), EXECUTE_PATH)
    }

    /// The request for a run of `code`. It always names a deadline: the
    /// caller's, else the client's.
    pub fn request(&self, code: &str, timeout: Option<u64>) -> (request: ExecuteRequest)
        ensures
            request@ == (ExecuteRequestView {
                code: code@,
                timeout: Some(timeout_of(timeout, self@.default_timeout)),
            }),
    {
        ExecuteRequest {
            code: String::from_str(code),
            timeout: Some(effective_timeout(timeout, self.default_timeout)),
        }
    }

    /// What the one round trip of a run means. A round trip that failed is
    /// reported as it is: there is no second try.
    pub fn conclude(exchange: Result<(u16, ExecuteResponse), String>) -> (reply: Result<
        ExecutionResult,
        WorkerClientError,
    >)
        ensures
            reply_view(reply) == conclusion(exchange_view(exchange)),
    {
        match exchange {
            Ok(answer) => WorkerClient::interpret(answer.0, answer.1),
            Err(failure) => Err(WorkerClientError::Request(failure)),
        }
    }

    /// What the worker's answer means: the result that it holds, or the
    /// failure that it reports.
    pub fn interpret(status: u16, body: ExecuteResponse) -> (reply: Result<
        ExecutionResult,
        WorkerClientError,
    >)
        ensures
            reply_view(reply) == interpretation(status, body@),
    {
        if !(200 <= status && status <= 299) {
            let message = match body.error {
                Some(message) => message,
                None => {
                    let mut output = body.stdout;
                    output.push(' ');
                    output.append(body.stderr.as_str());
                    proof {
                        assert(output@ == body.stdout@ + seq![' '] + body.stderr@);
                    }
                    String::from_str(trim(output.as_str()))
                },
            };
            return Err(WorkerClientError::ServerError { status, message });
        }
        match body.error {
            Some(message) => Err(WorkerClientError::ServerError { status, message }),
            None => Ok(
                ExecutionResult {
                    stdout: body.stdout,
                    stderr: body.stderr,
                    exit_code: body.exit_code,
                },
            ),
        }
    }
}

/// An answer that reports a failure, by its status or by an error in its
/// body, is always read as a failure of the worker with that status; any
/// other answer is read as a result.
pub proof fn lemma_reported_failure_is_upstream(status: u16, body: ExecuteResponseView)
    ensures
        !is_success(status) || body.error is Some <==> interpretation(status, body) is Err,
        interpretation(status, body) matches Err(error) ==> error is ServerError
            && error->ServerError_status == status,
        body.error matches Some(message) ==> interpretation(status, body) == Err::<
            ExecutionResultView,
            WorkerClientErrorView,
        >(WorkerClientErrorView::ServerError { status, message }),
{
}

/// No failure of the worker's side reads like a failure of a run on this
/// side: their messages differ in the first character.
pub proof fn lemma_messages_are_distinct(upstream: WorkerClientErrorView, local: ExecutorErrorView)
    ensures
        client_message(upstream) != executor_message(local),
{
    reveal_strlit("请求 Worker 失败: ");
    reveal_strlit("Worker 返回错误 (status=");
    reveal_strlit("创建临时文件失败: ");
    reveal_strlit("写入 Python 代码失败: ");
    reveal_strlit("启动 uv 进程失败: ");
    reveal_strlit("未能获取子进程 ");
    reveal_strlit("等待子进程结束失败: ");
    reveal_strlit("读取 stdout 失败: ");
    reveal_strlit("读取 stderr 失败: ");
    reveal_strlit("异步任务 join 失败: ");
    reveal_strlit("Python 执行超时（>");
    let first = client_message(upstream)[0];
    assert(first == '请' || first == 'W');
    let other = executor_message(local)[0];
    assert(other != '请' && other != 'W');
}

} // verus!
