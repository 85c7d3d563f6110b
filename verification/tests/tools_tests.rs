use codebox_rmcp::executor::{collect, Action, Event, Execution, ExecutionResult, ExecutorError};
use codebox_rmcp::tools::{
    access_note, tool_payload, PythonRunner, RunPythonArgs, ToolDescriptor, ToolPayload,
    CODE_ARGUMENT, DEFAULT_PUBLIC_URL, TOOL_DESCRIPTION, TOOL_NAME,
};
use codebox_rmcp::worker::respond;
use codebox_rmcp::worker_client::{WorkerClient, WorkerClientError};

const NOTE: &str = "\n\n[文件访问] 写入到 /shared/ 的文件可通过 http://files.example/public/<filename> 访问";

fn member<'a>(text: &'a str, name: &str) -> serde_json::Value {
    let value: serde_json::Value = serde_json::from_str(text).expect("the payload is JSON");
    let object = value.as_object().expect("the payload is an object");
    assert_eq!(object.len(), 3);
    object[name].clone()
}

#[test]
fn capability_metadata() {
    assert_eq!(TOOL_NAME, "run_python");
    assert!(TOOL_DESCRIPTION.starts_with("执行python代码并返回结果\n示例代码<examples>\n# /// script\n"));
    assert!(TOOL_DESCRIPTION.contains("#   \"requests<3\",\n#   \"rich\",\n# ]\n# ///\nimport requests\n"));
    assert!(TOOL_DESCRIPTION.contains("pprint([(k, v[\"title\"]) for k, v in data.items()][:10])\n</examples>\n"));
    assert!(TOOL_DESCRIPTION.ends_with("具体访问URL会在执行结果中返回\n</extra_info>\n"));
    assert_eq!(TOOL_DESCRIPTION.lines().count(), 20);
    assert_eq!(CODE_ARGUMENT, "code");
    assert_eq!(
        PythonRunner::descriptor(),
        ToolDescriptor {
            name: "run_python",
            description: TOOL_DESCRIPTION,
            required_argument: "code",
        }
    );
    let args = RunPythonArgs { code: "print(1)".to_string() };
    assert_eq!(args.code, "print(1)");
}

#[test]
fn public_url_has_a_default() {
    assert_eq!(PythonRunner::public_url(None), "http://localhost:18081");
    assert_eq!(PythonRunner::public_url(Some("https://files.example")), "https://files.example");
    assert_eq!(DEFAULT_PUBLIC_URL, "http://localhost:18081");
}

#[test]
fn note_names_the_public_url() {
    assert_eq!(access_note("http://files.example"), NOTE);
    assert_eq!(
        access_note(""),
        "\n\n[文件访问] 写入到 /shared/ 的文件可通过 /public/<filename> 访问"
    );
}

#[test]
fn instructions_name_the_public_url() {
    assert_eq!(
        PythonRunner::instructions("http://localhost:18081"),
        "MCP server for executing Python code . Files written to /shared/ directory are publicly accessible at http://localhost:18081/public/<filename>"
    );
}

#[test]
fn runner_keeps_its_client() {
    let client = WorkerClient::from_env(Some("http://w:1/"), Some("9"));
    let runner = PythonRunner::new(client.clone());
    assert_eq!(runner.worker_client(), &client);
    assert_eq!(runner.worker_client().base_url(), "http://w:1");
    assert_eq!(runner.worker_client().default_timeout(), 9);
}

#[test]
fn result_becomes_a_payload_with_the_note() {
    let result =
        ExecutionResult { stdout: "hi\n".to_string(), stderr: "warn".to_string(), exit_code: 3 };
    assert_eq!(
        tool_payload(Ok(result), "http://files.example"),
        ToolPayload { stdout: format!("hi\n{}", NOTE), stderr: "warn".to_string(), exit_code: 3 }
    );
}

#[test]
fn failure_becomes_a_payload_too() {
    let error = WorkerClientError::ServerError { status: 500, message: "boom".to_string() };
    assert_eq!(
        tool_payload(Err(error), "http://files.example"),
        ToolPayload {
            stdout: NOTE.to_string(),
            stderr: "Worker 返回错误 (status=500): boom".to_string(),
            exit_code: -1,
        }
    );
    let error = WorkerClientError::Request("connection refused".to_string());
    assert_eq!(
        tool_payload(Err(error), "http://files.example"),
        ToolPayload {
            stdout: NOTE.to_string(),
            stderr: "请求 Worker 失败: connection refused".to_string(),
            exit_code: -1,
        }
    );
}

#[test]
fn payload_is_written_as_compact_json() {
    let payload =
        ToolPayload { stdout: "a\"b\n".to_string(), stderr: "é\\\t".to_string(), exit_code: -1 };
    assert_eq!(
        payload.to_json(),
        "{\"exit_code\":-1,\"stderr\":\"é\\\\\\t\",\"stdout\":\"a\\\"b\\n\"}"
    );
    let empty = ToolPayload { stdout: String::new(), stderr: String::new(), exit_code: 0 };
    assert_eq!(empty.to_json(), "{\"exit_code\":0,\"stderr\":\"\",\"stdout\":\"\"}");
}

#[test]
fn payload_json_reads_back_as_its_fields() {
    let payload = ToolPayload {
        stdout: "line 1\nline 2\u{1}\u{7f}超时".to_string(),
        stderr: "\"quoted\" \\ / \r\n".to_string(),
        exit_code: i32::MIN,
    };
    let text = payload.to_json();
    assert_eq!(member(&text, "stdout"), serde_json::Value::from(payload.stdout.as_str()));
    assert_eq!(member(&text, "stderr"), serde_json::Value::from(payload.stderr.as_str()));
    assert_eq!(member(&text, "exit_code"), serde_json::Value::from(i32::MIN));
}

#[test]
fn printing_hi_reaches_the_caller() {
    let result = collect(Some(0), b"hi\n", b"");
    let (status, answer) = respond(Ok(result));
    let reply = WorkerClient::interpret(status, answer);
    let text = PythonRunner::run_python(reply, "http://files.example");
    let stdout = member(&text, "stdout");
    assert!(stdout.as_str().unwrap().starts_with("hi\n"));
    assert_eq!(stdout, serde_json::Value::from(format!("hi\n{}", NOTE)));
    assert_eq!(member(&text, "stderr"), serde_json::Value::from(""));
    assert_eq!(member(&text, "exit_code"), serde_json::Value::from(0));
}

#[test]
fn sleeping_past_the_deadline_reaches_the_caller_as_data() {
    let (run, action) = Execution::Waiting { timeout_secs: 1 }.step(Event::DeadlineElapsed);
    assert!(run.is_done());
    let outcome = match action {
        Some(Action::Finish { kill: true, outcome }) => outcome,
        other => panic!("the run did not end with a kill: {:?}", other),
    };
    assert_eq!(outcome, Err(ExecutorError::Timeout { seconds: 1 }));
    let (status, answer) = respond(outcome);
    assert_eq!(status, 500);
    let reply = WorkerClient::interpret(status, answer);
    let text = PythonRunner::run_python(reply, "http://files.example");
    assert_eq!(member(&text, "exit_code"), serde_json::Value::from(-1));
    assert_eq!(
        member(&text, "stderr"),
        serde_json::Value::from("Worker 返回错误 (status=500): Python 执行超时（>1 秒）")
    );
    assert_eq!(member(&text, "stdout"), serde_json::Value::from(NOTE));
}

#[test]
fn network_failure_reaches_the_caller_as_data() {
    let reply = Err(WorkerClientError::Request("connection refused".to_string()));
    let text = PythonRunner::run_python(reply, "http://files.example");
    assert_eq!(member(&text, "exit_code"), serde_json::Value::from(-1));
    assert_eq!(
        member(&text, "stderr"),
        serde_json::Value::from("请求 Worker 失败: connection refused")
    );
}

#[test]
fn sentinel_shows_exactly_for_failures_and_lost_statuses() {
    let url = "http://files.example";
    let exited = collect(Some(4), b"", b"");
    assert_eq!(tool_payload(Ok(exited), url).exit_code, 4);
    let signalled = collect(None, b"", b"");
    assert_eq!(tool_payload(Ok(signalled), url).exit_code, -1);
    let failed = WorkerClientError::ServerError { status: 500, message: String::new() };
    assert_eq!(tool_payload(Err(failed), url).exit_code, -1);
}
