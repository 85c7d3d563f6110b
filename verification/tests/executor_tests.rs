use codebox_rmcp::executor::{
    collect, Action, Event, Execution, ExecutionResult, ExecutorError, Pipes, FILE_PREFIX,
    FILE_SUFFIX, LAUNCHER, LAUNCHER_COMMAND, NO_EXIT_STATUS,
};

fn both_pipes() -> Pipes {
    Pipes { stdout: true, stderr: true }
}

fn failure(error: ExecutorError) -> (Execution, Option<Action>) {
    (Execution::Done, Some(Action::Finish { kill: false, outcome: Err(error) }))
}

fn failure_with_kill(error: ExecutorError) -> (Execution, Option<Action>) {
    (Execution::Done, Some(Action::Finish { kill: true, outcome: Err(error) }))
}

#[test]
fn staging_and_launch_constants() {
    assert_eq!(FILE_PREFIX, "codebox-");
    assert_eq!(FILE_SUFFIX, ".py");
    assert_eq!(LAUNCHER, "uv");
    assert_eq!(LAUNCHER_COMMAND, "run");
    assert_eq!(NO_EXIT_STATUS, -1);
}

#[test]
fn each_failure_has_its_message() {
    let io = || "permission denied".to_string();
    assert_eq!(ExecutorError::TempFile(io()).message(), "创建临时文件失败: permission denied");
    assert_eq!(ExecutorError::WriteCode(io()).message(), "写入 Python 代码失败: permission denied");
    assert_eq!(ExecutorError::Spawn(io()).message(), "启动 uv 进程失败: permission denied");
    assert_eq!(ExecutorError::MissingPipe("stdout").message(), "未能获取子进程 stdout 管道");
    assert_eq!(ExecutorError::MissingPipe("stderr").message(), "未能获取子进程 stderr 管道");
    assert_eq!(ExecutorError::Wait(io()).message(), "等待子进程结束失败: permission denied");
    assert_eq!(ExecutorError::ReadStdout(io()).message(), "读取 stdout 失败: permission denied");
    assert_eq!(ExecutorError::ReadStderr(io()).message(), "读取 stderr 失败: permission denied");
    assert_eq!(ExecutorError::Join(io()).message(), "异步任务 join 失败: permission denied");
    assert_eq!(ExecutorError::Timeout { seconds: 60 }.message(), "Python 执行超时（>60 秒）");
    assert_eq!(ExecutorError::Timeout { seconds: 0 }.message(), "Python 执行超时（>0 秒）");
    assert_eq!(
        ExecutorError::Timeout { seconds: u64::MAX }.message(),
        "Python 执行超时（>18446744073709551615 秒）"
    );
}

#[test]
fn collect_reports_the_real_exit_code() {
    let result = collect(Some(0), b"hi\n", b"");
    assert_eq!(
        result,
        ExecutionResult { stdout: "hi\n".to_string(), stderr: String::new(), exit_code: 0 }
    );
    assert_eq!(collect(Some(3), b"", b"boom").exit_code, 3);
    assert_eq!(collect(Some(255), b"", b"").exit_code, 255);
    assert_eq!(collect(Some(-7), b"", b"").exit_code, -7);
    assert_eq!(collect(Some(i32::MIN), b"", b"").exit_code, i32::MIN);
}

#[test]
fn collect_reports_the_sentinel_without_a_status() {
    let result = collect(None, b"partial", b"killed");
    assert_eq!(result.exit_code, -1);
    assert_eq!(result.stdout, "partial");
    assert_eq!(result.stderr, "killed");
}

#[test]
fn collect_decodes_lossily_and_never_fails() {
    let result = collect(Some(0), &[b'a', 0xff, b'b'], &[0xe4, 0xbd]);
    assert_eq!(result.stdout, "a\u{fffd}b");
    assert_eq!(result.stderr, "\u{fffd}");
    let text = collect(Some(0), "超时 é".as_bytes(), b"");
    assert_eq!(text.stdout, "超时 é");
}

#[test]
fn collect_keeps_every_byte_of_large_output() {
    let mut out: Vec<u8> = Vec::new();
    let mut err: Vec<u8> = Vec::new();
    let mut i: usize = 0;
    while i < 300_000 {
        out.push(b'a' + (i % 26) as u8);
        err.push(b'0' + (i % 10) as u8);
        i += 1;
    }
    let result = collect(Some(0), &out, &err);
    assert_eq!(result.stdout.len(), 300_000);
    assert_eq!(result.stderr.len(), 300_000);
    assert_eq!(result.stdout.as_bytes(), &out[..]);
    assert_eq!(result.stderr.as_bytes(), &err[..]);
}

#[test]
fn start_asks_for_the_file() {
    assert_eq!(Execution::start(30), (Execution::Staging { timeout_secs: 30 }, Action::CreateFile));
    assert!(!Execution::start(30).0.is_done());
    assert!(Execution::Done.is_done());
}

#[test]
fn clean_run_takes_six_events_and_gives_the_result() {
    let (run, action) = Execution::start(5);
    assert_eq!(action, Action::CreateFile);
    let (run, action) = run.step(Event::FileCreated);
    assert_eq!(run, Execution::Writing { timeout_secs: 5 });
    assert_eq!(action, Some(Action::WriteCode));
    let (run, action) = run.step(Event::CodeWritten);
    assert_eq!(run, Execution::Spawning { timeout_secs: 5 });
    assert_eq!(action, Some(Action::Spawn));
    let (run, action) = run.step(Event::Spawned(both_pipes()));
    assert_eq!(run, Execution::Waiting { timeout_secs: 5 });
    assert_eq!(action, Some(Action::Wait { seconds: 5 }));
    let (run, action) = run.step(Event::Exited(Some(0)));
    assert_eq!(run, Execution::JoiningStdout { status: Some(0) });
    assert_eq!(action, Some(Action::JoinStdout));
    let (run, action) = run.step(Event::StdoutDrained(b"hi\n".to_vec()));
    assert_eq!(run, Execution::JoiningStderr { status: Some(0), stdout: b"hi\n".to_vec() });
    assert_eq!(action, Some(Action::JoinStderr));
    let (run, action) = run.step(Event::StderrDrained(Vec::new()));
    assert_eq!(run, Execution::Done);
    assert_eq!(
        action,
        Some(Action::Finish {
            kill: false,
            outcome: Ok(ExecutionResult {
                stdout: "hi\n".to_string(),
                stderr: String::new(),
                exit_code: 0,
            }),
        })
    );
}

#[test]
fn child_without_status_gives_the_sentinel() {
    let run = Execution::JoiningStderr { status: None, stdout: b"out".to_vec() };
    let (run, action) = run.step(Event::StderrDrained(b"err".to_vec()));
    assert_eq!(run, Execution::Done);
    assert_eq!(
        action,
        Some(Action::Finish {
            kill: false,
            outcome: Ok(ExecutionResult {
                stdout: "out".to_string(),
                stderr: "err".to_string(),
                exit_code: -1,
            }),
        })
    );
}

#[test]
fn deadline_kills_the_child_and_names_the_bound() {
    let (run, action) = Execution::Waiting { timeout_secs: 7 }.step(Event::DeadlineElapsed);
    assert_eq!(run, Execution::Done);
    assert_eq!(
        action,
        Some(Action::Finish { kill: true, outcome: Err(ExecutorError::Timeout { seconds: 7 }) })
    );
}

#[test]
fn child_is_killed_exactly_where_it_may_still_run() {
    let kill_of = |step: (Execution, Option<Action>)| match step.1 {
        Some(Action::Finish { kill, .. }) => kill,
        other => panic!("the run did not end: {:?}", other),
    };
    let m = || "x".to_string();
    assert!(!kill_of(Execution::Staging { timeout_secs: 1 }.step(Event::FileFailed(m()))));
    assert!(!kill_of(Execution::Writing { timeout_secs: 1 }.step(Event::WriteFailed(m()))));
    assert!(!kill_of(Execution::Spawning { timeout_secs: 1 }.step(Event::SpawnFailed(m()))));
    assert!(kill_of(
        Execution::Spawning { timeout_secs: 1 }
            .step(Event::Spawned(Pipes { stdout: true, stderr: false }))
    ));
    assert!(kill_of(Execution::Waiting { timeout_secs: 1 }.step(Event::WaitFailed(m()))));
    assert!(kill_of(Execution::Waiting { timeout_secs: 1 }.step(Event::DeadlineElapsed)));
    assert!(!kill_of(Execution::JoiningStdout { status: None }.step(Event::StdoutFailed(m()))));
    assert!(!kill_of(Execution::JoiningStdout { status: None }.step(Event::JoinFailed(m()))));
    assert!(!kill_of(
        Execution::JoiningStderr { status: None, stdout: Vec::new() }
            .step(Event::StderrFailed(m()))
    ));
    assert!(!kill_of(
        Execution::JoiningStderr { status: None, stdout: Vec::new() }
            .step(Event::StderrDrained(Vec::new()))
    ));
}

#[test]
fn staging_failures_end_the_run() {
    let m = || "disk full".to_string();
    assert_eq!(
        Execution::Staging { timeout_secs: 1 }.step(Event::FileFailed(m())),
        failure(ExecutorError::TempFile(m()))
    );
    assert_eq!(
        Execution::Writing { timeout_secs: 1 }.step(Event::WriteFailed(m())),
        failure(ExecutorError::WriteCode(m()))
    );
}

#[test]
fn spawn_failures_end_the_run() {
    let m = || "uv: not found".to_string();
    assert_eq!(
        Execution::Spawning { timeout_secs: 1 }.step(Event::SpawnFailed(m())),
        failure(ExecutorError::Spawn(m()))
    );
    assert_eq!(
        Execution::Spawning { timeout_secs: 1 }
            .step(Event::Spawned(Pipes { stdout: false, stderr: true })),
        failure_with_kill(ExecutorError::MissingPipe("stdout"))
    );
    assert_eq!(
        Execution::Spawning { timeout_secs: 1 }
            .step(Event::Spawned(Pipes { stdout: true, stderr: false })),
        failure_with_kill(ExecutorError::MissingPipe("stderr"))
    );
    assert_eq!(
        Execution::Spawning { timeout_secs: 1 }
            .step(Event::Spawned(Pipes { stdout: false, stderr: false })),
        failure_with_kill(ExecutorError::MissingPipe("stdout"))
    );
}

#[test]
fn wait_and_drain_failures_end_the_run() {
    let m = || "broken".to_string();
    assert_eq!(
        Execution::Waiting { timeout_secs: 1 }.step(Event::WaitFailed(m())),
        failure_with_kill(ExecutorError::Wait(m()))
    );
    assert_eq!(
        Execution::JoiningStdout { status: Some(0) }.step(Event::StdoutFailed(m())),
        failure(ExecutorError::ReadStdout(m()))
    );
    assert_eq!(
        Execution::JoiningStdout { status: Some(0) }.step(Event::JoinFailed(m())),
        failure(ExecutorError::Join(m()))
    );
    assert_eq!(
        Execution::JoiningStderr { status: Some(0), stdout: Vec::new() }
            .step(Event::StderrFailed(m())),
        failure(ExecutorError::ReadStderr(m()))
    );
    assert_eq!(
        Execution::JoiningStderr { status: Some(0), stdout: Vec::new() }
            .step(Event::JoinFailed(m())),
        failure(ExecutorError::Join(m()))
    );
}

#[test]
fn event_that_is_not_awaited_changes_nothing() {
    assert_eq!(
        Execution::Staging { timeout_secs: 9 }.step(Event::DeadlineElapsed),
        (Execution::Staging { timeout_secs: 9 }, None)
    );
    assert_eq!(
        Execution::Waiting { timeout_secs: 9 }.step(Event::FileCreated),
        (Execution::Waiting { timeout_secs: 9 }, None)
    );
    assert_eq!(
        Execution::Waiting { timeout_secs: 9 }.step(Event::StdoutDrained(b"x".to_vec())),
        (Execution::Waiting { timeout_secs: 9 }, None)
    );
    assert_eq!(
        Execution::JoiningStdout { status: None }.step(Event::StderrDrained(b"x".to_vec())),
        (Execution::JoiningStdout { status: None }, None)
    );
    assert_eq!(
        Execution::JoiningStderr { status: None, stdout: b"kept".to_vec() }
            .step(Event::StdoutDrained(b"x".to_vec())),
        (Execution::JoiningStderr { status: None, stdout: b"kept".to_vec() }, None)
    );
    assert_eq!(
        Execution::Writing { timeout_secs: 9 }.step(Event::JoinFailed("x".to_string())),
        (Execution::Writing { timeout_secs: 9 }, None)
    );
}

#[test]
fn finished_run_takes_no_more_events() {
    assert_eq!(Execution::Done.step(Event::FileCreated), (Execution::Done, None));
    assert_eq!(Execution::Done.step(Event::DeadlineElapsed), (Execution::Done, None));
    assert_eq!(Execution::Done.step(Event::Exited(Some(0))), (Execution::Done, None));
}

#[test]
fn result_comes_only_after_both_streams() {
    let (run, action) = Execution::Waiting { timeout_secs: 1 }.step(Event::Exited(Some(2)));
    assert_eq!(action, Some(Action::JoinStdout));
    let (run, action) = run.step(Event::StdoutDrained(b"o".to_vec()));
    assert_eq!(action, Some(Action::JoinStderr));
    assert!(!run.is_done());
    let (run, action) = run.step(Event::StderrDrained(b"e".to_vec()));
    assert!(run.is_done());
    assert_eq!(
        action,
        Some(Action::Finish {
            kill: false,
            outcome: Ok(ExecutionResult {
                stdout: "o".to_string(),
                stderr: "e".to_string(),
                exit_code: 2,
            }),
        })
    );
}
