//! Running a snippet in a child process: the result and the failures of a
//! run, and the rule that decides, after each piece of outside work, what is
//! done next.

use crate::text::{decimal, join, push_decimal};
use vstd::prelude::*;
use vstd::string::StringExecFns;

verus! {

/// How the name of the file that holds the snippet begins.
pub const FILE_PREFIX: &'static str = "codebox-";

/// How the name of the file that holds the snippet ends.
pub const FILE_SUFFIX: &'static str = ".py";

/// The program that runs the snippet.
pub const LAUNCHER: &'static str = "uv";

/// The launcher's argument before the path of the file.
pub const LAUNCHER_COMMAND: &'static str = "run";

/// The exit code that stands for "no exit status".
pub const NO_EXIT_STATUS: i32 = -1;

/// What a finished child process left behind.
#[derive(Debug, Clone, PartialEq, Eq)]
pub struct ExecutionResult {
    pub stdout: String,
    pub stderr: String,
    pub exit_code: i32,
}

/// An `ExecutionResult` as contracts speak of it.
pub struct ExecutionResultView {
    pub stdout: Seq<char>,
    pub stderr: Seq<char>,
    pub exit_code: i32,
}

impl View for ExecutionResult {
    type V = ExecutionResultView;

    open spec fn view(&self) -> ExecutionResultView {
        ExecutionResultView { stdout: self.stdout@, stderr: self.stderr@, exit_code: self.exit_code }
    }
}

/// Why a run gave no result. The texts are those of the failures that the
/// operating system or the runtime reported.
#[derive(Debug, PartialEq, Eq)]
pub enum ExecutorError {
    TempFile(String),
    WriteCode(String),
    Spawn(String),
    MissingPipe(&'static str),
    Wait(String),
    ReadStdout(String),
    ReadStderr(String),
    Join(String),
    Timeout { seconds: u64 },
}

/// An `ExecutorError` as contracts speak of it.
pub enum ExecutorErrorView {
    TempFile(Seq<char>),
    WriteCode(Seq<char>),
    Spawn(Seq<char>),
    MissingPipe(Seq<char>),
    Wait(Seq<char>),
    ReadStdout(Seq<char>),
    ReadStderr(Seq<char>),
    Join(Seq<char>),
    Timeout { seconds: u64 },
}

impl View for ExecutorError {
    type V = ExecutorErrorView;

    open spec fn view(&self) -> ExecutorErrorView {
        match self {
            ExecutorError::TempFile(m) => ExecutorErrorView::TempFile(m@),
            ExecutorError::WriteCode(m) => ExecutorErrorView::WriteCode(m@),
            ExecutorError::Spawn(m) => ExecutorErrorView::Spawn(m@),
            ExecutorError::MissingPipe(pipe) => ExecutorErrorView::MissingPipe(pipe@),
            ExecutorError::Wait(m) => ExecutorErrorView::Wait(m@),
            ExecutorError::ReadStdout(m) => ExecutorErrorView::ReadStdout(m@),
            ExecutorError::ReadStderr(m) => ExecutorErrorView::ReadStderr(m@),
            ExecutorError::Join(m) => ExecutorErrorView::Join(m@),
            ExecutorError::Timeout { seconds } => ExecutorErrorView::Timeout { seconds: *seconds },
        }
    }
}

/// The message of a failure, for people to read.
pub open spec fn executor_message(error: ExecutorErrorView) -> Seq<char> {
    match error {
        ExecutorErrorView::TempFile(m) => "创建临时文件失败: "@ + m,
        ExecutorErrorView::WriteCode(m) => "写入 Python 代码失败: "@ + m,
        ExecutorErrorView::Spawn(m) => "启动 uv 进程失败: "@ + m,
        ExecutorErrorView::MissingPipe(pipe) => "未能获取子进程 "@ + pipe + " 管道"@,
        ExecutorErrorView::Wait(m) => "等待子进程结束失败: "@ + m,
        ExecutorErrorView::ReadStdout(m) => "读取 stdout 失败: "@ + m,
        ExecutorErrorView::ReadStderr(m) => "读取 stderr 失败: "@ + m,
        ExecutorErrorView::Join(m) => "异步任务 join 失败: "@ + m,
        ExecutorErrorView::Timeout { seconds } => "Python 执行超时（>"@ + decimal(seconds as nat)
            + " 秒）"@,
    }
}

impl ExecutorError {
    /// The message of this failure.
    pub fn message(&self) -> (text: String)
        ensures
            text@ == executor_message(self@),
    {
        match self {
            ExecutorError::TempFile(m) => join("创建临时文件失败: ", m.as_str()),
            ExecutorError::WriteCode(m) => join("写入 Python 代码失败: ", m.as_str()),
            ExecutorError::Spawn(m) => join("启动 uv 进程失败: ", m.as_str()),
            ExecutorError::MissingPipe(pipe) => {
                let mut text = join("未能获取子进程 ", pipe);
                text.append(" 管道");
                text
            },
            ExecutorError::Wait(m) => join("等待子进程结束失败: ", m.as_str()),
            ExecutorError::ReadStdout(m) => join("读取 stdout 失败: ", m.as_str()),
            ExecutorError::ReadStderr(m) => join("读取 stderr 失败: ", m.as_str()),
            ExecutorError::Join(m) => join("异步任务 join 失败: ", m.as_str()),
            ExecutorError::Timeout { seconds } => {
                let mut text = String::from_str("Python 执行超时（>");
                push_decimal(&mut text, *seconds);
                text.append(" 秒）");
                text
            },
        }
    }
}

/// The text that the bytes of an output stream are read as: their UTF-8
/// decoding, with a replacement character where they are not valid UTF-8.
pub uninterp spec fn lossy_text(bytes: Seq<u8>) -> Seq<char>;

/// `String::from_utf8_lossy` turns bytes into text and never fails. The text
/// depends on the bytes alone; bytes that are valid UTF-8 give the text that
/// they encode.
#[verifier::external_body]
fn decode_lossy(bytes: &[u8]) -> (text: String)
    ensures
        text@ == lossy_text(bytes@),
        vstd::utf8::valid_utf8(bytes@) ==> text@ == vstd::utf8::decode_utf8(bytes@),
{
    String::from_utf8_lossy(bytes).into_owned()
}

/// The exit code that is reported for the status of a finished child: its
/// own code, or the sentinel where it has none.
pub open spec fn exit_code_of(status: Option<i32>) -> i32 {
    match status {
        Some(code) => code,
        None => NO_EXIT_STATUS,
    }
}

/// The result of a child that exited with `status` after writing `stdout`
/// and `stderr`.
pub open spec fn result_of(status: Option<i32>, stdout: Seq<u8>, stderr: Seq<u8>)
    -> ExecutionResultView {
    ExecutionResultView {
        stdout: lossy_text(stdout),
        stderr: lossy_text(stderr),
        exit_code: exit_code_of(status),
    }
}

/// Builds the result of a child that exited with `status` after writing
/// `stdout` and `stderr`. Output that is valid UTF-8 is in the result whole:
/// the text encodes to the very bytes that were written.
pub fn collect(status: Option<i32>, stdout: &[u8], stderr: &[u8]) -> (result: ExecutionResult)
    ensures
        result@ == result_of(status, stdout@, stderr@),
        vstd::utf8::valid_utf8(stdout@) ==> vstd::utf8::encode_utf8(result.stdout@) == stdout@,
        vstd::utf8::valid_utf8(stderr@) ==> vstd::utf8::encode_utf8(result.stderr@) == stderr@,
{
    broadcast use vstd::utf8::decode_utf8_encode_utf8;

    let exit_code: i32 = match status {
        Some(code) => code,
        None => NO_EXIT_STATUS,
    };
    ExecutionResult { stdout: decode_lossy(stdout), stderr: decode_lossy(stderr), exit_code }
}

/// The sentinel is reported exactly for a child without an exit status,
/// unless a child exits with the sentinel's own value.
pub proof fn lemma_sentinel_exit_code(status: Option<i32>)
    requires
        status != Some(NO_EXIT_STATUS),
    ensures
        exit_code_of(status) == NO_EXIT_STATUS <==> status is None,
        status matches Some(code) ==> exit_code_of(status) == code,
{
}

/// Which of its two output pipes a spawned child handed over.
#[derive(Debug, Clone, Copy, PartialEq, Eq)]
pub struct Pipes {
    pub stdout: bool,
    pub stderr: bool,
}

/// What came of a piece of outside work.
#[derive(Debug, PartialEq, Eq)]
pub enum Event {
    /// The file for the snippet exists.
    FileCreated,
    /// The file could not be created.
    FileFailed(String),
    /// The snippet is in the file, flushed.
    CodeWritten,
    /// The snippet could not be written.
    WriteFailed(String),
    /// The child runs.
    Spawned(Pipes),
    /// The child could not be started.
    SpawnFailed(String),
    /// The child ended before the deadline, with this exit code if it has one.
    Exited(Option<i32>),
    /// Waiting for the child failed.
    WaitFailed(String),
    /// The deadline passed and the child still runs.
    DeadlineElapsed,
    /// The child's standard output closed; these are all of its bytes.
    StdoutDrained(Vec<u8>),
    /// Reading the child's standard output failed.
    StdoutFailed(String),
    /// The child's standard error closed; these are all of its bytes.
    StderrDrained(Vec<u8>),
    /// Reading the child's standard error failed.
    StderrFailed(String),
    /// The task that drained a stream did not hand back what it read.
    JoinFailed(String),
}

/// An `Event` as contracts speak of it.
pub enum EventView {
    FileCreated,
    FileFailed(Seq<char>),
    CodeWritten,
    WriteFailed(Seq<char>),
    Spawned(Pipes),
    SpawnFailed(Seq<char>),
    Exited(Option<i32>),
    WaitFailed(Seq<char>),
    DeadlineElapsed,
    StdoutDrained(Seq<u8>),
    StdoutFailed(Seq<char>),
    StderrDrained(Seq<u8>),
    StderrFailed(Seq<char>),
    JoinFailed(Seq<char>),
}

impl View for Event {
    type V = EventView;

    open spec fn view(&self) -> EventView {
        match self {
            Event::FileCreated => EventView::FileCreated,
            Event::FileFailed(m) => EventView::FileFailed(m@),
            Event::CodeWritten => EventView::CodeWritten,
            Event::WriteFailed(m) => EventView::WriteFailed(m@),
            Event::Spawned(pipes) => EventView::Spawned(*pipes),
            Event::SpawnFailed(m) => EventView::SpawnFailed(m@),
            Event::Exited(status) => EventView::Exited(*status),
            Event::WaitFailed(m) => EventView::WaitFailed(m@),
            Event::DeadlineElapsed => EventView::DeadlineElapsed,
            Event::StdoutDrained(bytes) => EventView::StdoutDrained(bytes@),
            Event::StdoutFailed(m) => EventView::StdoutFailed(m@),
            Event::StderrDrained(bytes) => EventView::StderrDrained(bytes@),
            Event::StderrFailed(m) => EventView::StderrFailed(m@),
            Event::JoinFailed(m) => EventView::JoinFailed(m@),
        }
    }
}

/// The outside work that a run asks for next.
#[derive(Debug, PartialEq, Eq)]
pub enum Action {
    /// Create a file of a name that no other run has, which begins with
    /// `FILE_PREFIX` and ends with `FILE_SUFFIX`, to be removed when the run
    /// is over, however it ends.
    CreateFile,
    /// Write the snippet to the file and flush it.
    WriteCode,
    /// Start `LAUNCHER` with `LAUNCHER_COMMAND` and the file's path, no input,
    /// and a pipe for each output stream.
    Spawn,
    /// Start draining both pipes, each on its own, and wait for the child to
    /// end, for `seconds` at most.
    Wait { seconds: u64 },
    /// Wait for all of the child's standard output.
    JoinStdout,
    /// Wait for all of the child's standard error.
    JoinStderr,
    /// The run is over: kill the child where `kill` is set, which it is
    /// where the child may still run, and hand `outcome` to the caller.
    Finish { kill: bool, outcome: Result<ExecutionResult, ExecutorError> },
}

/// An `Action` as contracts speak of it.
pub enum ActionView {
    CreateFile,
    WriteCode,
    Spawn,
    Wait { seconds: u64 },
    JoinStdout,
    JoinStderr,
    Finish { kill: bool, outcome: Result<ExecutionResultView, ExecutorErrorView> },
}

/// The outcome of a run, as contracts speak of it.
pub open spec fn outcome_view(outcome: Result<ExecutionResult, ExecutorError>) -> Result<
    ExecutionResultView,
    ExecutorErrorView,
> {
    match outcome {
        Ok(result) => Ok(result@),
        Err(error) => Err(error@),
    }
}

impl View for Action {
    type V = ActionView;

    open spec fn view(&self) -> ActionView {
        match self {
            Action::CreateFile => ActionView::CreateFile,
            Action::WriteCode => ActionView::WriteCode,
            Action::Spawn => ActionView::Spawn,
            Action::Wait { seconds } => ActionView::Wait { seconds: *seconds },
            Action::JoinStdout => ActionView::JoinStdout,
            Action::JoinStderr => ActionView::JoinStderr,
            Action::Finish { kill, outcome } => ActionView::Finish {
                kill: *kill,
                outcome: outcome_view(*outcome),
            },
        }
    }
}

/// The action that a step asks for, if it asks for one.
pub open spec fn request_view(request: Option<Action>) -> Option<ActionView> {
    match request {
        Some(action) => Some(action@),
        None => None,
    }
}

/// How far a run has come. Each state but the last awaits the outcome of
/// the one action that led to it.
#[derive(Debug, PartialEq, Eq)]
pub enum Execution {
    /// Awaits the file.
    Staging { timeout_secs: u64 },
    /// Awaits the write.
    Writing { timeout_secs: u64 },
    /// Awaits the child.
    Spawning { timeout_secs: u64 },
    /// Awaits the child's end, or the deadline.
    Waiting { timeout_secs: u64 },
    /// The child ended with `status`; awaits its standard output.
    JoiningStdout { status: Option<i32> },
    /// Holds the child's standard output; awaits its standard error.
    JoiningStderr { status: Option<i32>, stdout: Vec<u8> },
    /// The run is over.
    Done,
}

/// An `Execution` as contracts speak of it.
pub enum ExecutionView {
    Staging { timeout_secs: u64 },
    Writing { timeout_secs: u64 },
    Spawning { timeout_secs: u64 },
    Waiting { timeout_secs: u64 },
    JoiningStdout { status: Option<i32> },
    JoiningStderr { status: Option<i32>, stdout: Seq<u8> },
    Done,
}

impl View for Execution {
    type V = ExecutionView;

    open spec fn view(&self) -> ExecutionView {
        match self {
            Execution::Staging { timeout_secs } => ExecutionView::Staging {
                timeout_secs: *timeout_secs,
            },
            Execution::Writing { timeout_secs } => ExecutionView::Writing {
                timeout_secs: *timeout_secs,
            },
            Execution::Spawning { timeout_secs } => ExecutionView::Spawning {
                timeout_secs: *timeout_secs,
            },
            Execution::Waiting { timeout_secs } => ExecutionView::Waiting {
                timeout_secs: *timeout_secs,
            },
            Execution::JoiningStdout { status } => ExecutionView::JoiningStdout { status: *status },
            Execution::JoiningStderr { status, stdout } => ExecutionView::JoiningStderr {
                status: *status,
                stdout: stdout@,
            },
            Execution::Done => ExecutionView::Done,
        }
    }
}

/// The end of a run that failed with no child left behind: nothing is
/// killed.
pub open spec fn failed(error: ExecutorErrorView) -> (ExecutionView, Option<ActionView>) {
    (ExecutionView::Done, Some(ActionView::Finish { kill: false, outcome: Err(error) }))
}

/// The end of a run that failed while its child may still run: the child is
/// killed.
pub open spec fn abandoned(error: ExecutorErrorView) -> (ExecutionView, Option<ActionView>) {
    (ExecutionView::Done, Some(ActionView::Finish { kill: true, outcome: Err(error) }))
}

/// Whether a child has been started and has not been seen to end, once
/// `event` has come in `state`.
pub open spec fn child_may_run(state: ExecutionView, event: EventView) -> bool {
    match state {
        ExecutionView::Spawning { .. } => event is Spawned,
        ExecutionView::Waiting { .. } => !(event is Exited),
        _ => false,
    }
}

/// Whether `state` awaits `event`: whether the event is an outcome of the
/// action that led to the state.
pub open spec fn awaits(state: ExecutionView, event: EventView) -> bool {
    match state {
        ExecutionView::Staging { .. } => event is FileCreated || event is FileFailed,
        ExecutionView::Writing { .. } => event is CodeWritten || event is WriteFailed,
        ExecutionView::Spawning { .. } => event is Spawned || event is SpawnFailed,
        ExecutionView::Waiting { .. } => event is Exited || event is WaitFailed
            || event is DeadlineElapsed,
        ExecutionView::JoiningStdout { .. } => event is StdoutDrained || event is StdoutFailed
            || event is JoinFailed,
        ExecutionView::JoiningStderr { .. } => event is StderrDrained || event is StderrFailed
            || event is JoinFailed,
        ExecutionView::Done => false,
    }
}

/// The state after `event` and the action to take then. An event that the
/// state does not await changes nothing and asks for nothing.
pub open spec fn step_spec(state: ExecutionView, event: EventView) -> (
    ExecutionView,
    Option<ActionView>,
) {
    match (state, event) {
        (ExecutionView::Staging { timeout_secs }, EventView::FileCreated) => (
            ExecutionView::Writing { timeout_secs },
            Some(ActionView::WriteCode),
        ),
        (ExecutionView::Staging { .. }, EventView::FileFailed(m)) => failed(
            ExecutorErrorView::TempFile(m),
        ),
        (ExecutionView::Writing { timeout_secs }, EventView::CodeWritten) => (
            ExecutionView::Spawning { timeout_secs },
            Some(ActionView::Spawn),
        ),
        (ExecutionView::Writing { .. }, EventView::WriteFailed(m)) => failed(
            ExecutorErrorView::WriteCode(m),
        ),
        (ExecutionView::Spawning { timeout_secs }, EventView::Spawned(pipes)) => {
            if !pipes.stdout {
                abandoned(ExecutorErrorView::MissingPipe("stdout"@))
            } else if !pipes.stderr {
                abandoned(ExecutorErrorView::MissingPipe("stderr"@))
            } else {
                (
                    ExecutionView::Waiting { timeout_secs },
                    Some(ActionView::Wait { seconds: timeout_secs }),
                )
            }
        },
        (ExecutionView::Spawning { .. }, EventView::SpawnFailed(m)) => failed(
            ExecutorErrorView::Spawn(m),
        ),
        (ExecutionView::Waiting { .. }, EventView::Exited(status)) => (
            ExecutionView::JoiningStdout { status },
            Some(ActionView::JoinStdout),
        ),
        (ExecutionView::Waiting { .. }, EventView::WaitFailed(m)) => abandoned(
            ExecutorErrorView::Wait(m),
        ),
        (ExecutionView::Waiting { timeout_secs }, EventView::DeadlineElapsed) => abandoned(
            ExecutorErrorView::Timeout { seconds: timeout_secs },
        ),
        (ExecutionView::JoiningStdout { status }, EventView::StdoutDrained(stdout)) => (
            ExecutionView::JoiningStderr { status, stdout },
            Some(ActionView::JoinStderr),
        ),
        (ExecutionView::JoiningStdout { .. }, EventView::StdoutFailed(m)) => failed(
            ExecutorErrorView::ReadStdout(m),
        ),
        (ExecutionView::JoiningStdout { .. }, EventView::JoinFailed(m)) => failed(
            ExecutorErrorView::Join(m),
        ),
        (ExecutionView::JoiningStderr { status, stdout }, EventView::StderrDrained(stderr)) => (
            ExecutionView::Done,
            Some(ActionView::Finish { kill: false, outcome: Ok(result_of(status, stdout, stderr)) }),
        ),
        (ExecutionView::JoiningStderr { .. }, EventView::StderrFailed(m)) => failed(
            ExecutorErrorView::ReadStderr(m),
        ),
        (ExecutionView::JoiningStderr { .. }, EventView::JoinFailed(m)) => failed(
            ExecutorErrorView::Join(m),
        ),
        _ => (state, None),
    }
}

/// The number of awaited events that a run in `state` can still take.
pub open spec fn remaining(state: ExecutionView) -> nat {
    match state {
        ExecutionView::Staging { .. } => 6,
        ExecutionView::Writing { .. } => 5,
        ExecutionView::Spawning { .. } => 4,
        ExecutionView::Waiting { .. } => 3,
        ExecutionView::JoiningStdout { .. } => 2,
        ExecutionView::JoiningStderr { .. } => 1,
        ExecutionView::Done => 0,
    }
}

/// Ends a run that left no child behind with a failure.
fn fail(error: ExecutorError) -> (r: (Execution, Option<Action>))
    ensures
        (r.0@, request_view(r.1)) == failed(error@),
{
    (Execution::Done, Some(Action::Finish { kill: false, outcome: Err(error) }))
}

/// Ends a run whose child may still run with a failure.
fn abandon(error: ExecutorError) -> (r: (Execution, Option<Action>))
    ensures
        (r.0@, request_view(r.1)) == abandoned(error@),
{
    (Execution::Done, Some(Action::Finish { kill: true, outcome: Err(error) }))
}

impl Execution {
    /// A new run with a deadline of `timeout_secs` seconds for the child, and
    /// its first action.
    pub fn start(timeout_secs: u64) -> (r: (Execution, Action))
        ensures
            r.0@ == (ExecutionView::Staging { timeout_secs }),
            r.1@ == ActionView::CreateFile,
    {
        (Execution::Staging { timeout_secs }, Action::CreateFile)
    }

    /// Whether the run is over.
    pub fn is_done(&self) -> (done: bool)
        ensures
            done == (self@ is Done),
            done == (remaining(self@) == 0),
    {
        match self {
            Execution::Done => true,
            _ => false,
        }
    }

    /// Takes the outcome of the action that the run asked for, and says what
    /// is done next. An awaited event brings the run nearer to its end; an
    /// event that is not awaited changes nothing and asks for nothing. Where
    /// the run ends in a result, output that is valid UTF-8 is in it whole.
    pub fn step(self, event: Event) -> (r: (Execution, Option<Action>))
        ensures
            (r.0@, request_view(r.1)) == step_spec(self@, event@),
            r.1 is Some <==> awaits(self@, event@),
            r.1 is Some ==> remaining(r.0@) < remaining(self@),
            match (self@, event@, r.1) {
                (
                    ExecutionView::JoiningStderr { stdout, .. },
                    EventView::StderrDrained(stderr),
                    Some(Action::Finish { outcome: Ok(result), .. }),
                ) => {
                    &&& vstd::utf8::valid_utf8(stdout) ==> vstd::utf8::encode_utf8(result.stdout@)
                        == stdout
                    &&& vstd::utf8::valid_utf8(stderr) ==> vstd::utf8::encode_utf8(result.stderr@)
                        == stderr
                },
                _ => true,
            },
    {
        match (self, event) {
            (Execution::Staging { timeout_secs }, Event::FileCreated) => (
                Execution::Writing { timeout_secs },
                Some(Action::WriteCode),
            ),
            (Execution::Staging { .. }, Event::FileFailed(m)) => fail(ExecutorError::TempFile(m)),
            (Execution::Writing { timeout_secs }, Event::CodeWritten) => (
                Execution::Spawning { timeout_secs },
                Some(Action::Spawn),
            ),
            (Execution::Writing { .. }, Event::WriteFailed(m)) => fail(ExecutorError::WriteCode(m)),
            (Execution::Spawning { timeout_secs }, Event::Spawned(pipes)) => {
                if !pipes.stdout {
                    abandon(ExecutorError::MissingPipe("stdout"))
                } else if !pipes.stderr {
                    abandon(ExecutorError::MissingPipe("stderr"))
                } else {
                    (Execution::Waiting { timeout_secs }, Some(Action::Wait { seconds: timeout_secs }))
                }
            },
            (Execution::Spawning { .. }, Event::SpawnFailed(m)) => fail(ExecutorError::Spawn(m)),
            (Execution::Waiting { .. }, Event::Exited(status)) => (
                Execution::JoiningStdout { status },
                Some(Action::JoinStdout),
            ),
            (Execution::Waiting { .. }, Event::WaitFailed(m)) => abandon(ExecutorError::Wait(m)),
            (Execution::Waiting { timeout_secs }, Event::DeadlineElapsed) => abandon(
                ExecutorError::Timeout { seconds: timeout_secs },
            ),
            (Execution::JoiningStdout { status }, Event::StdoutDrained(stdout)) => (
                Execution::JoiningStderr { status, stdout },
                Some(Action::JoinStderr),
            ),
            (Execution::JoiningStdout { .. }, Event::StdoutFailed(m)) => fail(
                ExecutorError::ReadStdout(m),
            ),
            (Execution::JoiningStdout { .. }, Event::JoinFailed(m)) => fail(ExecutorError::Join(m)),
            (Execution::JoiningStderr { status, stdout }, Event::StderrDrained(stderr)) => {
                let result = collect(status, stdout.as_slice(), stderr.as_slice());
                (Execution::Done, Some(Action::Finish { kill: false, outcome: Ok(result) }))
            },
            (Execution::JoiningStderr { .. }, Event::StderrFailed(m)) => fail(
                ExecutorError::ReadStderr(m),
            ),
            (Execution::JoiningStderr { .. }, Event::JoinFailed(m)) => fail(ExecutorError::Join(m)),
            (state, _) => (state, None),
        }
    }
}

/// The state of a run after `events`, taken in turn.
pub open spec fn after(state: ExecutionView, events: Seq<EventView>) -> ExecutionView
    decreases events.len(),
{
    if events.len() == 0 {
        state
    } else {
        step_spec(after(state, events.drop_last()), events.last()).0
    }
}

/// Whether each of `events` was awaited when it came.
pub open spec fn each_awaited(state: ExecutionView, events: Seq<EventView>) -> bool
    decreases events.len(),
{
    events.len() == 0 || (each_awaited(state, events.drop_last()) && awaits(
        after(state, events.drop_last()),
        events.last(),
    ))
}

/// An awaited event asks for an action and moves the run to the next state
/// in order, or to its end; any other event changes nothing.
pub proof fn lemma_awaited_event_advances(state: ExecutionView, event: EventView)
    ensures
        awaits(state, event) <==> step_spec(state, event).1 is Some,
        awaits(state, event) ==> remaining(step_spec(state, event).0) + 1 == remaining(state)
            || step_spec(state, event).0 is Done,
        !awaits(state, event) ==> step_spec(state, event) == (state, None::<ActionView>),
        step_spec(state, event).1 is Some && step_spec(state, event).1->0 is Finish
            <==> awaits(state, event) && step_spec(state, event).0 is Done,
{
}

/// A run takes no more awaited events than its state has left: six from the
/// start. So a driver that answers each action with its outcome reaches the
/// end of the run.
pub proof fn lemma_run_is_bounded(state: ExecutionView, events: Seq<EventView>)
    requires
        each_awaited(state, events),
    ensures
        events.len() + remaining(after(state, events)) <= remaining(state),
    decreases events.len(),
{
    if events.len() > 0 {
        lemma_run_is_bounded(state, events.drop_last());
        lemma_awaited_event_advances(after(state, events.drop_last()), events.last());
    }
}

/// The wait for the child is bounded by the run's deadline, and a deadline
/// that passes ends the run at once: the child is killed and the failure
/// names the bound. Nothing that the child wrote is looked at.
pub proof fn lemma_deadline_ends_run(timeout_secs: u64, pipes: Pipes)
    requires
        pipes.stdout && pipes.stderr,
    ensures
        step_spec(ExecutionView::Spawning { timeout_secs }, EventView::Spawned(pipes)) == (
            ExecutionView::Waiting { timeout_secs },
            Some(ActionView::Wait { seconds: timeout_secs }),
        ),
        step_spec(ExecutionView::Waiting { timeout_secs }, EventView::DeadlineElapsed) == (
            ExecutionView::Done,
            Some(
                ActionView::Finish {
                    kill: true,
                    outcome: Err(ExecutorErrorView::Timeout { seconds: timeout_secs }),
                },
            ),
        ),
{
}

/// A run ends in the timeout failure exactly where the deadline passed, and
/// the failure then names the run's bound.
pub proof fn lemma_timeout_means_deadline(state: ExecutionView, event: EventView)
    ensures
        match step_spec(state, event).1 {
            Some(ActionView::Finish { kill, outcome }) => {
                &&& outcome is Err && outcome->Err_0 is Timeout <==> state is Waiting
                    && event is DeadlineElapsed
                &&& state is Waiting && event is DeadlineElapsed ==> kill && outcome == Err::<
                    ExecutionResultView,
                    ExecutorErrorView,
                >(ExecutorErrorView::Timeout { seconds: state->Waiting_timeout_secs })
            },
            _ => true,
        },
{
}

/// No child outlives its run: where a run ends, the child is killed exactly
/// if one was started and has not been seen to end.
pub proof fn lemma_child_does_not_outlive_run(state: ExecutionView, event: EventView)
    ensures
        match step_spec(state, event).1 {
            Some(ActionView::Finish { kill, outcome }) => kill == child_may_run(state, event),
            _ => true,
        },
{
}

/// A run ends in a result only when the child has ended and both of its
/// streams have been drained to their end, and the result then holds the
/// whole of both.
pub proof fn lemma_result_is_complete(state: ExecutionView, event: EventView)
    ensures
        match step_spec(state, event).1 {
            Some(ActionView::Finish { kill, outcome: Ok(result) }) => {
                &&& !kill
                &&& state is JoiningStderr
                &&& event is StderrDrained
                &&& result == result_of(
                    state->JoiningStderr_status,
                    state->JoiningStderr_stdout,
                    event->StderrDrained_0,
                )
            },
            _ => true,
        },
        step_spec(state, event).0 is JoiningStderr && awaits(state, event) ==> {
            &&& state is JoiningStdout
            &&& event is StdoutDrained
            &&& step_spec(state, event).0 == (ExecutionView::JoiningStderr {
                status: state->JoiningStdout_status,
                stdout: event->StdoutDrained_0,
            })
        },
        step_spec(state, event).0 is JoiningStdout && awaits(state, event) ==> {
            &&& state is Waiting
            &&& event is Exited
            &&& step_spec(state, event).0 == (ExecutionView::JoiningStdout {
                status: event->Exited_0,
            })
        },
{
}

/// The events of a run in which nothing fails.
pub open spec fn clean_run(status: Option<i32>, stdout: Seq<u8>, stderr: Seq<u8>) -> Seq<
    EventView,
> {
    seq![
        EventView::FileCreated,
        EventView::CodeWritten,
        EventView::Spawned(Pipes { stdout: true, stderr: true }),
        EventView::Exited(status),
        EventView::StdoutDrained(stdout),
        EventView::StderrDrained(stderr),
    ]
}

/// A run in which nothing fails ends, with its sixth event, in the result of
/// the child's status and output.
pub proof fn lemma_clean_run_gives_result(
    timeout_secs: u64,
    status: Option<i32>,
    stdout: Seq<u8>,
    stderr: Seq<u8>,
)
    ensures
        each_awaited(ExecutionView::Staging { timeout_secs }, clean_run(status, stdout, stderr)),
        after(
            ExecutionView::Staging { timeout_secs },
            clean_run(status, stdout, stderr).drop_last(),
        ) == (ExecutionView::JoiningStderr { status, stdout }),
        step_spec(
            ExecutionView::JoiningStderr { status, stdout },
            EventView::StderrDrained(stderr),
        ) == (
            ExecutionView::Done,
            Some(
                ActionView::Finish {
                    kill: false,
                    outcome: Ok(result_of(status, stdout, stderr)),
                },
            ),
        ),
{
    let start = ExecutionView::Staging { timeout_secs };
    let e6 = clean_run(status, stdout, stderr);
    let e5 = e6.drop_last();
    let e4 = e5.drop_last();
    let e3 = e4.drop_last();
    let e2 = e3.drop_last();
    let e1 = e2.drop_last();
    let e0 = e1.drop_last();
    assert(e0.len() == 0);
    assert(after(start, e0) == start);
    assert(each_awaited(start, e0));
    assert(e1.last() == EventView::FileCreated);
    assert(after(start, e1) == (ExecutionView::Writing { timeout_secs }));
    assert(each_awaited(start, e1));
    assert(e2.last() == EventView::CodeWritten);
    assert(after(start, e2) == (ExecutionView::Spawning { timeout_secs }));
    assert(each_awaited(start, e2));
    assert(e3.last() == EventView::Spawned(Pipes { stdout: true, stderr: true }));
    assert(after(start, e3) == (ExecutionView::Waiting { timeout_secs }));
    assert(each_awaited(start, e3));
    assert(e4.last() == EventView::Exited(status));
    assert(after(start, e4) == (ExecutionView::JoiningStdout { status }));
    assert(each_awaited(start, e4));
    assert(e5.last() == EventView::StdoutDrained(stdout));
    assert(after(start, e5) == (ExecutionView::JoiningStderr { status, stdout }));
    assert(each_awaited(start, e5));
    assert(e6.last() == EventView::StderrDrained(stderr));
    assert(each_awaited(start, e6));
}

/// While a run is not over, its state counts the awaited events that it has
/// taken.
pub proof fn lemma_open_run_counts_events(state: ExecutionView, events: Seq<EventView>)
    requires
        each_awaited(state, events),
        !(after(state, events) is Done),
    ensures
        events.len() + remaining(after(state, events)) == remaining(state),
    decreases events.len(),
{
    if events.len() > 0 {
        let before = after(state, events.drop_last());
        lemma_awaited_event_advances(before, events.last());
        lemma_open_run_counts_events(state, events.drop_last());
    }
}

/// A run from the start ends in a result only by the six events of a run in
/// which nothing fails, in their order: the result is never built before the
/// child has ended and both streams are drained, and it is built from what
/// those events brought.
pub proof fn lemma_result_needs_clean_run(
    timeout_secs: u64,
    events: Seq<EventView>,
    result: ExecutionResultView,
)
    requires
        events.len() > 0,
        each_awaited(ExecutionView::Staging { timeout_secs }, events),
        step_spec(
            after(ExecutionView::Staging { timeout_secs }, events.drop_last()),
            events.last(),
        ).1 matches Some(ActionView::Finish { outcome: Ok(r), .. }) && r == result,
    ensures
        events.len() == 6,
        events[3] is Exited,
        events[4] is StdoutDrained,
        events[5] is StderrDrained,
        events == clean_run(events[3]->Exited_0, events[4]->StdoutDrained_0, events[5]->StderrDrained_0),
        result == result_of(
            events[3]->Exited_0,
            events[4]->StdoutDrained_0,
            events[5]->StderrDrained_0,
        ),
{
    let start = ExecutionView::Staging { timeout_secs };
    let e5 = events.drop_last();
    let s5 = after(start, e5);
    lemma_result_is_complete(s5, events.last());
    assert(s5 is JoiningStderr);
    assert(each_awaited(start, e5));
    lemma_open_run_counts_events(start, e5);
    assert(e5.len() == 5);
    let e4 = e5.drop_last();
    let s4 = after(start, e4);
    assert(s5 == step_spec(s4, e5.last()).0 && awaits(s4, e5.last()));
    lemma_result_is_complete(s4, e5.last());
    assert(s4 is JoiningStdout);
    assert(each_awaited(start, e4));
    let e3 = e4.drop_last();
    let s3 = after(start, e3);
    assert(s4 == step_spec(s3, e4.last()).0 && awaits(s3, e4.last()));
    lemma_result_is_complete(s3, e4.last());
    assert(s3 is Waiting);
    assert(each_awaited(start, e3));
    let e2 = e3.drop_last();
    let s2 = after(start, e2);
    assert(s3 == step_spec(s2, e3.last()).0 && awaits(s2, e3.last()));
    assert(s2 is Spawning && e3.last() is Spawned);
    assert(each_awaited(start, e2));
    let e1 = e2.drop_last();
    let s1 = after(start, e1);
    assert(s2 == step_spec(s1, e2.last()).0 && awaits(s1, e2.last()));
    assert(s1 is Writing && e2.last() is CodeWritten);
    assert(each_awaited(start, e1));
    let e0 = e1.drop_last();
    assert(e0.len() == 0);
    assert(after(start, e0) == start);
    assert(s1 == step_spec(start, e1.last()).0 && awaits(start, e1.last()));
    assert(e1.last() is FileCreated);
    assert(e1.last() == events[0]);
    assert(e2.last() == events[1]);
    assert(e3.last() == events[2]);
    assert(e4.last() == events[3]);
    assert(e5.last() == events[4]);
    assert(events.last() == events[5]);
    assert(events[2] == EventView::Spawned(Pipes { stdout: true, stderr: true }));
    assert(events =~= clean_run(
        events[3]->Exited_0,
        events[4]->StdoutDrained_0,
        events[5]->StderrDrained_0,
    ));
}

} // verus!
