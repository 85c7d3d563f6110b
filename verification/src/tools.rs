//! The one capability that the gateway offers: run a snippet. Whatever comes
//! of the run, the caller gets data: a JSON text with the output, the error
//! output and the exit code.

use crate::config::{text_or, text_setting};
use crate::executor::{executor_message, ExecutionResult, ExecutionResultView, ExecutorErrorView};
use crate::executor::NO_EXIT_STATUS;
use crate::protocol::STATUS_FAILED;
use crate::text::{decimal, join};
use crate::worker::response_of;
use crate::worker_client::{client_message, interpretation, reply_view, WorkerClient};
use crate::worker_client::{WorkerClientError, WorkerClientErrorView, WorkerClientView};
use vstd::prelude::*;
use vstd::string::StringExecFns;

verus! {

/// The name that the capability goes by.
pub const TOOL_NAME: &'static str = "run_python";

/// What callers are told of the capability.
pub const TOOL_DESCRIPTION: &'static str =
    "执行python代码并返回结果\n示例代码<examples>\n# /// script\n# dependencies = [\n#   \"requests<3\",\n#   \"rich\",\n# ]\n# ///\nimport requests\nfrom rich.pretty import pprint\n\nresp = requests.get(\"https://peps.python.org/api/peps.json\")\ndata = resp.json()\npprint([(k, v[\"title\"]) for k, v in data.items()][:10])\n</examples>\n<extra_info>\n1. 必须显式打印才会输出结果\n2. 可以在代码顶部通过depends安装所需库\n3. 如果需要提供文件给用户，可以在执行python文件时，把文件写入/shared/目录，文件可通过网络公开访问，具体访问URL会在执行结果中返回\n</extra_info>\n";

/// Where files of the shared directory are served unless told otherwise.
pub const DEFAULT_PUBLIC_URL: &'static str = "http://localhost:18081";

/// The name of the one argument that the capability takes, and needs.
pub const CODE_ARGUMENT: &'static str = "code";

/// What is known of the capability before it is called: its name, what
/// callers are told of it, and the argument that it needs.
#[derive(Debug, Clone, Copy, PartialEq, Eq)]
pub struct ToolDescriptor {
    pub name: &'static str,
    pub description: &'static str,
    pub required_argument: &'static str,
}

/// What the capability takes: the snippet to run.
#[derive(Debug, PartialEq, Eq)]
pub struct RunPythonArgs {
    pub code: String,
}

/// The members as contracts speak of them: each name with its text.
pub open spec fn texts_view(members: Seq<(String, String)>) -> Seq<(Seq<char>, Seq<char>)> {
    Seq::new(members.len(), |i: int| (members[i].0@, members[i].1@))
}

/// The members as contracts speak of them: each name with its number.
pub open spec fn numbers_view(members: Seq<(String, i64)>) -> Seq<(Seq<char>, int)> {
    Seq::new(members.len(), |i: int| (members[i].0@, members[i].1 as int))
}

/// The compact JSON text of the object that is made by adding to an empty
/// object first each of `texts`, as a string of its name, and then each of
/// `numbers`, as a number of its name.
pub uninterp spec fn object_text(
    texts: Seq<(Seq<char>, Seq<char>)>,
    numbers: Seq<(Seq<char>, int)>,
) -> Seq<char>;

/// `serde_json`: inserts each member into an empty `Map`, a text as
/// `Value::String` and a number as `Value::Number`, and writes the object
/// with `Value`'s `to_string`, which gives compact JSON. The text depends on
/// the members alone.
#[verifier::external_body]
fn write_object(texts: &Vec<(String, String)>, numbers: &Vec<(String, i64)>) -> (text: String)
    ensures
        text@ == object_text(texts_view(texts@), numbers_view(numbers@)),
{
    let mut object = serde_json::Map::new();
    for (name, text) in texts.iter() {
        object.insert(name.clone(), serde_json::Value::from(text.as_str()));
    }
    for (name, number) in numbers.iter() {
        object.insert(name.clone(), serde_json::Value::from(*number));
    }
    serde_json::Value::Object(object).to_string()
}

/// What a caller of the capability gets.
#[derive(Debug, PartialEq, Eq)]
pub struct ToolPayload {
    pub stdout: String,
    pub stderr: String,
    pub exit_code: i32,
}

/// A `ToolPayload` as contracts speak of it.
pub struct ToolPayloadView {
    pub stdout: Seq<char>,
    pub stderr: Seq<char>,
    pub exit_code: i32,
}

impl View for ToolPayload {
    type V = ToolPayloadView;

    open spec fn view(&self) -> ToolPayloadView {
        ToolPayloadView { stdout: self.stdout@, stderr: self.stderr@, exit_code: self.exit_code }
    }
}

/// The note on where the files are served that a snippet wrote to the shared
/// directory.
pub open spec fn file_access_note(public_url: Seq<char>) -> Seq<char> {
    "\n\n[文件访问] 写入到 /shared/ 的文件可通过 "@ + public_url + "/public/<filename> 访问"@
}

/// What the server says of itself.
pub open spec fn instructions_text(public_url: Seq<char>) -> Seq<char> {
    "MCP server for executing Python code . Files written to /shared/ directory are publicly accessible at "@
        + public_url + "/public/<filename>"@
}

/// The payload for the outcome of a run. A result goes out as it is, with
/// the note behind its output. A failure goes out as data too: its message
/// as the error output, the note as the output, and the exit code that stands
/// for "no exit status".
pub open spec fn payload_of(
    reply: Result<ExecutionResultView, WorkerClientErrorView>,
    public_url: Seq<char>,
) -> ToolPayloadView {
    match reply {
        Ok(result) => ToolPayloadView {
            stdout: result.stdout + file_access_note(public_url),
            stderr: result.stderr,
            exit_code: result.exit_code,
        },
        Err(error) => ToolPayloadView {
            stdout: file_access_note(public_url),
            stderr: client_message(error),
            exit_code: NO_EXIT_STATUS,
        },
    }
}

/// The JSON text that a payload is sent as: an object with the members
/// `stdout`, `stderr` and `exit_code`.
pub open spec fn payload_text(payload: ToolPayloadView) -> Seq<char> {
    object_text(
        seq![("stdout"@, payload.stdout), ("stderr"@, payload.stderr)],
        seq![("exit_code"@, payload.exit_code as int)],
    )
}

/// The note on where the files of the shared directory are served.
pub fn access_note(public_url: &str) -> (note: String)
    ensures
        note@ == file_access_note(public_url@),
{
    let mut note = join("\n\n[文件访问] 写入到 /shared/ 的文件可通过 ", public_url);
    note.append("/public/<filename> 访问");
    note
}

/// The payload for the outcome of a run.
pub fn tool_payload(reply: Result<ExecutionResult, WorkerClientError>, public_url: &str) -> (payload:
    ToolPayload)
    ensures
        payload@ == payload_of(reply_view(reply), public_url@),
{
    let note = access_note(public_url);
    match reply {
        Ok(result) => {
            let mut stdout = result.stdout;
            stdout.append(note.as_str());
            ToolPayload { stdout, stderr: result.stderr, exit_code: result.exit_code }
        },
        Err(error) => ToolPayload {
            stdout: note,
            stderr: error.message(),
            exit_code: NO_EXIT_STATUS,
        },
    }
}

impl ToolPayload {
    /// The payload as the JSON text that is sent.
    pub fn to_json(&self) -> (text: String)
        ensures
            text@ == payload_text(self@),
    {
        let mut texts: Vec<(String, String)> = Vec::new();
        texts.push((String::from_str("stdout"), self.stdout.clone()));
        texts.push((String::from_str("stderr"), self.stderr.clone()));
        let mut numbers: Vec<(String, i64)> = Vec::new();
        numbers.push((String::from_str("exit_code"), self.exit_code as i64));
        proof {
            assert(texts_view(texts@) =~= seq![("stdout"@, self.stdout@), ("stderr"@, self.stderr@)]);
            assert(numbers_view(numbers@) =~= seq![("exit_code"@, self.exit_code as int)]);
        }
        write_object(&texts, &numbers)
    }
}

/// The gateway's side of the capability: it has snippets run by a worker.
#[derive(Debug, Clone, PartialEq, Eq)]
pub struct PythonRunner {
    worker_client: WorkerClient,
}

impl View for PythonRunner {
    type V = WorkerClientView;

    closed spec fn view(&self) -> WorkerClientView {
        self.worker_client@
    }
}

impl PythonRunner {
    /// A runner that has snippets run through `worker_client`.
    pub fn new(worker_client: WorkerClient) -> (runner: PythonRunner)
        ensures
            runner@ == worker_client@,
    {
        PythonRunner { worker_client }
    }

    /// The client that snippets are run through.
    pub fn worker_client(&self) -> (client: &WorkerClient)
        ensures
            client@ == self@,
    {
        &self.worker_client
    }

    /// Where the files of the shared directory are served: the setting, or
    /// the default where it is absent.
    pub fn public_url(raw: Option<&str>) -> (url: String)
        ensures
            url@ == text_setting(raw, DEFAULT_PUBLIC_URL@),
    {
        text_or(raw, DEFAULT_PUBLIC_URL)
    }

    /// What the caller of the capability gets for the outcome of a run: the
    /// JSON text of its payload. There is a payload for every outcome.
    pub fn run_python(reply: Result<ExecutionResult, WorkerClientError>, public_url: &str) -> (text:
        String)
        ensures
            text@ == payload_text(payload_of(reply_view(reply), public_url@)),
    {
        tool_payload(reply, public_url).to_json()
    }

    /// The descriptor of the one capability.
    pub fn descriptor() -> (descriptor: ToolDescriptor)
        ensures
            descriptor.name@ == TOOL_NAME@,
            descriptor.description@ == TOOL_DESCRIPTION@,
            descriptor.required_argument@ == CODE_ARGUMENT@,
    {
        ToolDescriptor {
            name: TOOL_NAME,
            description: TOOL_DESCRIPTION,
            required_argument: CODE_ARGUMENT,
        }
    }

    /// What the server says of itself to a caller.
    pub fn instructions(public_url: &str) -> (text: String)
        ensures
            text@ == instructions_text(public_url@),
    {
        let mut text = join(
            "MCP server for executing Python code . Files written to /shared/ directory are publicly accessible at ",
            public_url,
        );
        text.append("/public/<filename>");
        text
    }
}

/// What the caller gets for a run on a worker, by the outcome of the run
/// there: the worker's answer, read by the gateway, made into a payload.
pub open spec fn relayed(
    outcome: Result<ExecutionResultView, ExecutorErrorView>,
    public_url: Seq<char>,
) -> ToolPayloadView {
    let (status, body) = response_of(outcome);
    payload_of(interpretation(status, body), public_url)
}

/// A result comes through from the worker to the caller unchanged, but for
/// the note behind its output.
pub proof fn lemma_result_reaches_caller(result: ExecutionResultView, public_url: Seq<char>)
    ensures
        relayed(Ok(result), public_url) == (ToolPayloadView {
            stdout: result.stdout + file_access_note(public_url),
            stderr: result.stderr,
            exit_code: result.exit_code,
        }),
{
}

/// A failure of the run on the worker reaches the caller as data: no output
/// but the note, the sentinel exit code, and an error output that names the
/// worker's status and holds the failure's message.
pub proof fn lemma_failure_reaches_caller(error: ExecutorErrorView, public_url: Seq<char>)
    ensures
        relayed(Err(error), public_url) == (ToolPayloadView {
            stdout: file_access_note(public_url),
            stderr: "Worker 返回错误 (status="@ + decimal(STATUS_FAILED as nat) + "): "@
                + executor_message(error),
            exit_code: NO_EXIT_STATUS,
        }),
{
}

/// A run that was ended at its deadline reaches the caller as data that
/// names the deadline.
pub proof fn lemma_timeout_reaches_caller(seconds: u64, public_url: Seq<char>)
    ensures
        relayed(Err(ExecutorErrorView::Timeout { seconds }), public_url).exit_code
            == NO_EXIT_STATUS,
        relayed(Err(ExecutorErrorView::Timeout { seconds }), public_url).stderr
            == "Worker 返回错误 (status="@ + decimal(STATUS_FAILED as nat) + "): "@
            + "Python 执行超时（>"@ + decimal(seconds as nat) + " 秒）"@,
{
    let head = "Worker 返回错误 (status="@ + decimal(STATUS_FAILED as nat) + "): "@;
    let a = "Python 执行超时（>"@;
    let b = decimal(seconds as nat);
    let c = " 秒）"@;
    lemma_failure_reaches_caller(ExecutorErrorView::Timeout { seconds }, public_url);
    assert(head + (a + b + c) =~= head + a + b + c);
}

/// The exit code that the caller sees for a run on a worker is the exit code
/// of the run's result, and the sentinel where the run gave none.
pub proof fn lemma_relayed_exit_code(
    outcome: Result<ExecutionResultView, ExecutorErrorView>,
    public_url: Seq<char>,
)
    ensures
        relayed(outcome, public_url).exit_code == match outcome {
            Ok(result) => result.exit_code,
            Err(_) => NO_EXIT_STATUS,
        },
{
}

/// The caller sees the sentinel exit code exactly where the run gave no
/// result or its result holds the sentinel.
pub proof fn lemma_payload_exit_code(
    reply: Result<ExecutionResultView, WorkerClientErrorView>,
    public_url: Seq<char>,
)
    ensures
        payload_of(reply, public_url).exit_code == NO_EXIT_STATUS <==> reply is Err || (
        reply is Ok && reply->Ok_0.exit_code == NO_EXIT_STATUS),
        reply matches Ok(result) ==> payload_of(reply, public_url).exit_code == result.exit_code,
{
}

} // verus!
