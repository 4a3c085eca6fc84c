use alleycat::capture::PipeCapture;
use alleycat::command_exec::{
    env_overrides, output_cap, process_spec, timeout_duration, validate_limits, validate_params,
    CommandExecParams, CommandExecTerminateParams, ExecError, ProcessRole, StdioMode,
    DEFAULT_OUTPUT_BYTES_CAP, INTERNAL_ERROR, INVALID_PARAMS, METHOD_NOT_FOUND,
};
use alleycat::exec_session::{LaunchOutcome, LaunchingCommand};
use alleycat::os_path::OsPath;
use alleycat::registry::{
    handle_command_exec_terminate, register_termination, unregister_process, ExecRegistry,
};
use alleycat::supervisor::{ChildExit, Supervisor, SupervisorAction, SupervisorEvent, Watch};

fn echo_params(text: &str) -> CommandExecParams {
    CommandExecParams {
        command: vec![
            "/bin/sh".to_string(),
            "-c".to_string(),
            format!("printf %s {text}"),
        ],
        tty: false,
        stream_stdin: false,
        stream_stdout_stderr: false,
        ..Default::default()
    }
}

fn started() -> LaunchOutcome {
    LaunchOutcome::Started { stdout: true, stderr: true }
}

fn finished(action: SupervisorAction) -> Result<Option<i32>, ExecError> {
    match action {
        SupervisorAction::Finish(exit) => exit,
        _ => panic!("the command did not end"),
    }
}

#[test]
fn buffered_command_exec_returns_stdout_and_exit_code() {
    let mut registry: ExecRegistry<u32> = ExecRegistry::new();
    let (command, process) = LaunchingCommand::accept(echo_params("acp-ok")).expect("command exec");
    assert_eq!(process.program, "/bin/sh");
    assert_eq!(process.args, vec!["-c", "printf %s acp-ok"]);
    let running = command.launched(&mut registry, 0, started()).expect("command exec");
    let mut stdout = running.capture();
    let mut stderr = running.capture();
    let mut supervisor = Supervisor::new(running.supervision());
    stdout.accept(b"acp-ok");
    stdout.accept(b"");
    stderr.accept(b"");
    let exit = finished(supervisor.step(SupervisorEvent::Exited(ChildExit::Code(Some(0)))));
    let response = running
        .ended(&mut registry, exit)
        .respond(stdout.into_bytes(), stderr.into_bytes())
        .expect("command exec");

    assert_eq!(response.exit_code, 0);
    assert!(response.stdout.contains("acp-ok"));
    assert_eq!(response.stderr, "");
}

#[test]
fn command_exec_rejects_tty_mode() {
    let mut params = echo_params("unused");
    params.tty = true;

    let err = match LaunchingCommand::accept(params) {
        Ok(_) => panic!("a tty was accepted"),
        Err(err) => err,
    };

    assert_eq!(err.rpc_code(), METHOD_NOT_FOUND);
    assert!(err.to_string().contains("tty mode is not supported"));
}

#[test]
fn refusals_come_in_their_order() {
    let mut params = CommandExecParams::default();
    params.tty = true;
    params.stream_stdin = true;
    params.stream_stdout_stderr = true;
    params.disable_output_cap = true;
    params.output_bytes_cap = Some(1);
    params.disable_timeout = true;
    params.timeout_ms = Some(1);
    let text = |params: &CommandExecParams| validate_params(params).unwrap_err().to_string();
    assert_eq!(text(&params), "invalid params: empty command argv");
    params.command.push("true".to_string());
    assert_eq!(text(&params), "unsupported: tty mode is not supported");
    params.tty = false;
    assert_eq!(text(&params), "unsupported: stream_stdin is not supported");
    params.stream_stdin = false;
    assert_eq!(text(&params), "unsupported: stream_stdout_stderr is not supported");
    params.stream_stdout_stderr = false;
    assert_eq!(
        text(&params),
        "invalid params: disable_output_cap cannot be combined with output_bytes_cap"
    );
    params.output_bytes_cap = None;
    assert_eq!(
        text(&params),
        "invalid params: disable_timeout cannot be combined with timeout_ms"
    );
    assert_eq!(validate_limits(&params).unwrap_err().rpc_code(), INVALID_PARAMS);
    params.timeout_ms = None;
    assert!(validate_params(&params).is_ok());
}

#[test]
fn errors_have_their_texts_and_codes() {
    let errors = vec![
        (ExecError::InvalidParams("x".to_string()), "invalid params: x", -32602),
        (ExecError::Unsupported("x".to_string()), "unsupported: x", -32601),
        (ExecError::Timeout, "command timed out", -32603),
        (ExecError::spawn("no such file"), "spawn failed: no such file", -32603),
        (ExecError::internal("x"), "internal error: x", -32603),
        (ExecError::wait("x"), "internal error: waiting on child: x", -32603),
    ];
    for (error, text, code) in errors {
        assert_eq!(error.to_string(), text);
        assert_eq!(error.rpc_code(), code);
    }
    assert_eq!(INTERNAL_ERROR, -32603);
}

#[test]
fn limits_have_defaults_and_extremes() {
    let mut params = echo_params("x");
    assert_eq!(output_cap(&params), 256 * 1024);
    assert_eq!(DEFAULT_OUTPUT_BYTES_CAP, 256 * 1024);
    assert_eq!(timeout_duration(&params), Some(60_000));
    params.output_bytes_cap = Some(7);
    params.timeout_ms = Some(-5);
    assert_eq!(output_cap(&params), 7);
    assert_eq!(timeout_duration(&params), Some(0));
    params.timeout_ms = Some(1_500);
    assert_eq!(timeout_duration(&params), Some(1_500));
    params.disable_output_cap = true;
    params.disable_timeout = true;
    assert_eq!(output_cap(&params), usize::MAX);
    assert_eq!(timeout_duration(&params), None);
}

#[test]
fn process_of_a_command() {
    let mut params = echo_params("x");
    params.cwd = Some(OsPath { bytes: b"/tmp".to_vec() });
    params.env = Some(vec![
        ("A".to_string(), Some("1".to_string())),
        ("B".to_string(), None),
        ("C".to_string(), Some(String::new())),
    ]);
    assert_eq!(
        env_overrides(&params),
        vec![("A".to_string(), "1".to_string()), ("C".to_string(), String::new())]
    );
    let process = process_spec(&params);
    assert_eq!(process.role, ProcessRole::ToolCommand);
    assert_eq!(process.program, "/bin/sh");
    assert_eq!(process.args, vec!["-c", "printf %s x"]);
    assert_eq!(process.cwd, Some(OsPath { bytes: b"/tmp".to_vec() }));
    assert_eq!(process.env.len(), 2);
    assert!(!process.env_clear);
    assert_eq!(process.stdin, StdioMode::Null);
    assert_eq!(process.stdout, StdioMode::Piped);
    assert_eq!(process.stderr, StdioMode::Piped);
    params.env = None;
    assert!(env_overrides(&params).is_empty());
}

#[test]
fn capture_keeps_what_fits() {
    let mut capture = PipeCapture::new(5);
    capture.accept(b"abc");
    assert!(capture.wants_read());
    capture.accept(b"defg");
    assert!(capture.wants_read());
    capture.accept(b"hij");
    assert!(capture.wants_read());
    capture.accept(b"");
    assert!(!capture.wants_read());
    assert_eq!(capture.into_bytes(), b"abcde");
}

#[test]
fn capture_stops_reading_at_an_exact_fit() {
    let mut capture = PipeCapture::new(5);
    capture.accept(b"abcde");
    assert!(!capture.wants_read());
    assert_eq!(capture.into_bytes(), b"abcde");
}

#[test]
fn capture_of_nothing_reads_nothing() {
    let capture = PipeCapture::new(0);
    assert!(!capture.wants_read());
    assert!(capture.into_bytes().is_empty());
}

#[test]
fn capture_keeps_what_came_before_an_error() {
    let mut capture = PipeCapture::new(50);
    capture.accept(b"abc");
    capture.fail();
    assert!(!capture.wants_read());
    assert_eq!(capture.into_bytes(), b"abc");
}

#[test]
fn registry_replaces_and_takes() {
    let mut registry = ExecRegistry::default();
    assert_eq!(registry.insert("a".to_string(), 1), None);
    assert_eq!(registry.insert("b".to_string(), 2), None);
    assert_eq!(registry.insert("a".to_string(), 3), Some(1));
    assert_eq!(registry.take("a"), Some(3));
    assert_eq!(registry.take("a"), None);
    assert_eq!(registry.take("b"), Some(2));
}

#[test]
fn termination_takes_the_handle_once() {
    let mut registry = ExecRegistry::new();
    let params = CommandExecTerminateParams { process_id: "p".to_string() };
    assert!(!register_termination(&mut registry, None, 1));
    assert!(register_termination(&mut registry, Some("p"), 2));
    assert_eq!(handle_command_exec_terminate(&mut registry, &params), Some(2));
    assert_eq!(handle_command_exec_terminate(&mut registry, &params), None);
    assert!(register_termination(&mut registry, Some("p"), 3));
    unregister_process(&mut registry, None);
    assert_eq!(registry.take("p"), Some(3));
    assert!(register_termination(&mut registry, Some("p"), 4));
    unregister_process(&mut registry, Some("p"));
    assert_eq!(registry.take("p"), None);
}

#[test]
fn failed_launch_registers_nothing() {
    let mut registry = ExecRegistry::new();
    let mut params = echo_params("x");
    params.process_id = Some("p".to_string());
    let (command, _) = LaunchingCommand::accept(params).unwrap();
    let outcome = LaunchOutcome::Failed("no such file".to_string());
    match command.launched(&mut registry, 1, outcome) {
        Ok(_) => panic!("a failed launch was taken for a running command"),
        Err(err) => assert_eq!(err, ExecError::Spawn("no such file".to_string())),
    }
    assert_eq!(registry.take("p"), None);
}

#[test]
fn missing_pipes_are_internal_errors() {
    for (stdout, stderr, text) in [
        (false, false, "internal error: child has no stdout pipe"),
        (true, false, "internal error: child has no stderr pipe"),
    ] {
        let mut registry = ExecRegistry::new();
        let mut params = echo_params("x");
        params.process_id = Some("p".to_string());
        let (command, _) = LaunchingCommand::accept(params).unwrap();
        match command.launched(&mut registry, 1, LaunchOutcome::Started { stdout, stderr }) {
            Ok(_) => panic!("a pipe is missing"),
            Err(err) => assert_eq!(err.to_string(), text),
        }
        assert_eq!(registry.take("p"), Some(1));
    }
}

#[test]
fn ended_command_is_unregistered() {
    let mut registry = ExecRegistry::new();
    registry.insert("other".to_string(), 9);
    let mut params = echo_params("x");
    params.process_id = Some("p".to_string());
    let (command, _) = LaunchingCommand::accept(params).unwrap();
    let running = command.launched(&mut registry, 1, started()).unwrap();
    assert!(running.supervision().terminable);
    assert_eq!(running.supervision().timeout_ms, Some(60_000));
    let ended = running.ended(&mut registry, Ok(None));
    assert_eq!(registry.take("p"), None);
    assert_eq!(registry.take("other"), Some(9));
    let response = ended.respond(b"caf\xc3\xa9 \xff".to_vec(), b"e".to_vec()).unwrap();
    assert_eq!(response.exit_code, -1);
    assert_eq!(response.stdout, "caf\u{e9} \u{fffd}");
    assert_eq!(response.stderr, "e");
}

#[test]
fn failed_commands_give_no_response() {
    let mut registry: ExecRegistry<u32> = ExecRegistry::new();
    let (command, _) = LaunchingCommand::accept(echo_params("x")).unwrap();
    let running = command.launched(&mut registry, 1, started()).unwrap();
    assert!(!running.supervision().terminable);
    let ended = running.ended(&mut registry, Err(ExecError::Timeout));
    assert_eq!(ended.respond(b"out".to_vec(), Vec::new()).unwrap_err(), ExecError::Timeout);
}

fn watch() -> Watch {
    Watch { timeout_ms: Some(10), terminable: true }
}

#[test]
fn passed_deadline_is_a_timeout() {
    let mut supervisor = Supervisor::new(watch());
    assert!(matches!(supervisor.step(SupervisorEvent::DeadlinePassed), SupervisorAction::Kill));
    assert!(matches!(supervisor.step(SupervisorEvent::KillReturned), SupervisorAction::Wait));
    let action = supervisor.step(SupervisorEvent::Exited(ChildExit::Code(Some(0))));
    assert_eq!(finished(action), Err(ExecError::Timeout));
    let again = supervisor.step(SupervisorEvent::Exited(ChildExit::Code(Some(0))));
    assert!(matches!(again, SupervisorAction::Idle));
}

#[test]
fn requested_end_tells_the_exit() {
    let mut supervisor = Supervisor::new(watch());
    let action = supervisor.step(SupervisorEvent::TerminationRequested);
    assert!(matches!(action, SupervisorAction::Kill));
    assert!(matches!(supervisor.step(SupervisorEvent::KillReturned), SupervisorAction::Wait));
    let action = supervisor.step(SupervisorEvent::Exited(ChildExit::Code(None)));
    assert_eq!(finished(action), Ok(None));
}

#[test]
fn failed_wait_is_an_internal_error() {
    let mut supervisor = Supervisor::new(watch());
    let exit = ChildExit::WaitFailed("gone".to_string());
    let action = supervisor.step(SupervisorEvent::Exited(exit));
    assert_eq!(
        finished(action).unwrap_err().to_string(),
        "internal error: waiting on child: gone"
    );
}

#[test]
fn unlimited_command_is_not_killed() {
    let mut supervisor = Supervisor::new(Watch { timeout_ms: None, terminable: false });
    assert!(matches!(supervisor.step(SupervisorEvent::DeadlinePassed), SupervisorAction::Watch));
    let action = supervisor.step(SupervisorEvent::TerminationRequested);
    assert!(matches!(action, SupervisorAction::Watch));
    let action = supervisor.step(SupervisorEvent::Exited(ChildExit::Code(Some(3))));
    assert_eq!(finished(action), Ok(Some(3)));
}
