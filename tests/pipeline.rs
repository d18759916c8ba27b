use code_runner::{
    after_build, after_execution, compiler_args, next_compile_action, prepare_source,
    sandbox_limits, session_capabilities, AfterBuild, BuildResult, CaptureBuffer, CompileAction,
    CompileEvent, ExecutionOutput, Response, BUILD_TIMEOUT_MESSAGE, ENTRY_SYMBOL, ENTRY_TRAMPOLINE,
    EXEC_FUEL_START, EXEC_FUEL_YIELD, SOURCE_FILE_NAME,
};

fn capture(writes: &[&[u8]]) -> String {
    let mut buffer = CaptureBuffer::new();
    for w in writes {
        buffer.write(w);
    }
    buffer.into_text()
}

fn compile_failed(stdout: &[u8], stderr: &[u8]) -> BuildResult {
    match next_compile_action(CompileEvent::Exited { success: false }) {
        CompileAction::DrainPipes => {}
        other => panic!("expected DrainPipes, got {:?}", other),
    }
    match next_compile_action(CompileEvent::Drained { stdout: stdout.to_vec(), stderr: stderr.to_vec() }) {
        CompileAction::Finish(b) => b,
        other => panic!("expected Finish, got {:?}", other),
    }
}

#[test]
fn source_gets_entry_trampoline() {
    let sample = "fn main() { println!(\"hi\"); }";
    let prepared = prepare_source(sample);
    assert_eq!(prepared, format!("{sample}{ENTRY_TRAMPOLINE}"));
    assert!(prepared.starts_with(sample));
    assert!(prepared.contains("#[no_mangle]"));
    assert!(prepared.contains(&format!("fn {ENTRY_SYMBOL}() {{ let _ = main(); }}")));
    assert!(prepared.ends_with("}\n"));
}

#[test]
fn empty_source_is_only_the_trampoline() {
    assert_eq!(prepare_source(""), ENTRY_TRAMPOLINE);
}

#[test]
fn compiler_targets_the_sandbox_format() {
    assert_eq!(
        compiler_args(),
        vec!["--target", "wasm32-wasi", "--crate-type", "cdylib", SOURCE_FILE_NAME]
    );
    assert_eq!(SOURCE_FILE_NAME, "main.rs");
}

#[test]
fn successful_compile_finishes_with_success() {
    let action = next_compile_action(CompileEvent::Exited { success: true });
    assert!(matches!(action, CompileAction::Finish(BuildResult::BuildSuccess)));
}

#[test]
fn late_compiler_is_killed_then_timed_out() {
    assert!(matches!(next_compile_action(CompileEvent::DeadlineElapsed), CompileAction::Kill));
    assert!(matches!(
        next_compile_action(CompileEvent::Killed),
        CompileAction::Finish(BuildResult::Timeout)
    ));
}

#[test]
fn failed_compile_keeps_both_streams() {
    match compile_failed(b"out", b"error: expected one of") {
        BuildResult::BuildFailed { stdout, stderr } => {
            assert_eq!(stdout, "out");
            assert_eq!(stderr, "error: expected one of");
        }
        other => panic!("expected BuildFailed, got {:?}", other),
    }
}

#[test]
fn failed_compile_decodes_invalid_bytes_leniently() {
    match compile_failed(&[b'a', 0xff, b'b'], &[0xc3, 0xa9]) {
        BuildResult::BuildFailed { stdout, stderr } => {
            assert_eq!(stdout, "a\u{FFFD}b");
            assert_eq!(stderr, "é");
        }
        other => panic!("expected BuildFailed, got {:?}", other),
    }
}

#[test]
fn capture_starts_empty() {
    assert_eq!(CaptureBuffer::new().as_str(), "");
    assert_eq!(capture(&[]), "");
}

#[test]
fn capture_appends_writes_in_order() {
    assert_eq!(capture(&[b"hel", b"lo", b"\n", b"world"]), "hello\nworld");
}

#[test]
fn capture_replaces_invalid_bytes() {
    assert_eq!(capture(&[&[0x68, 0x80, 0x69]]), "h\u{FFFD}i");
    assert_eq!(capture(&["ü".as_bytes(), b"!"]), "ü!");
}

#[test]
fn build_success_goes_on_to_execute() {
    assert!(matches!(after_build(Ok(BuildResult::BuildSuccess)), AfterBuild::Execute));
}

#[test]
fn build_timeout_is_server_error() {
    match after_build(Ok(BuildResult::Timeout)) {
        AfterBuild::Respond(r) => {
            assert_eq!(r.status(), 500);
            assert!(matches!(&r, Response::InternalError(m) if m == BUILD_TIMEOUT_MESSAGE));
            assert_eq!(BUILD_TIMEOUT_MESSAGE, "timeout when building");
        }
        other => panic!("expected a response, got {:?}", other),
    }
}

#[test]
fn build_io_fault_is_server_error() {
    match after_build(Err(String::from("No space left on device"))) {
        AfterBuild::Respond(r) => {
            assert_eq!(r.status(), 500);
            assert!(matches!(&r, Response::InternalError(m) if m == "No space left on device"));
        }
        other => panic!("expected a response, got {:?}", other),
    }
}

#[test]
fn build_failure_is_client_error_with_both_streams() {
    let b = BuildResult::BuildFailed { stdout: String::from("o"), stderr: String::from("e") };
    match after_build(Ok(b)) {
        AfterBuild::Respond(r) => {
            assert_eq!(r.status(), 400);
            assert!(matches!(&r, Response::BadRequest(m) if m == "o\ne"));
        }
        other => panic!("expected a response, got {:?}", other),
    }
}

#[test]
fn execution_output_is_answered_verbatim() {
    let out = ExecutionOutput { stdout: String::from("a\nb"), stderr: String::from("warn") };
    let r = after_execution(Ok(out));
    assert_eq!(r.status(), 200);
    match r {
        Response::Output(o) => {
            assert_eq!(o.stdout, "a\nb");
            assert_eq!(o.stderr, "warn");
        }
        other => panic!("expected output, got {:?}", other),
    }
}

#[test]
fn execution_fault_is_server_error() {
    let r = after_execution(Err(String::from("wasm trap: all fuel consumed by WebAssembly")));
    assert_eq!(r.status(), 500);
    assert!(matches!(&r, Response::InternalError(m) if m.contains("fuel")));
}

#[test]
fn limits_are_fixed_budget_and_yield() {
    let l = sandbox_limits();
    assert_eq!(l.fuel, 100_000);
    assert_eq!(l.yield_interval, 5000);
    assert_eq!(l.fuel, EXEC_FUEL_START);
    assert_eq!(l.yield_interval, EXEC_FUEL_YIELD);
    assert_eq!(l.fuel / l.yield_interval, 20);
}

#[test]
fn sandbox_gets_only_the_capture_streams() {
    let c = session_capabilities();
    assert!(c.capture_stdout && c.capture_stderr);
    assert!(!c.inherit_stdin && !c.inherit_args && !c.inherit_env);
    assert!(!c.inherit_network && !c.preopened_dirs);
}
