use rig_tools::{CommandOutput, ShellArgs, ShellError, ShellTool};

fn output(success: bool, stdout: &[u8], stderr: &[u8]) -> CommandOutput {
    CommandOutput { success, stdout: stdout.to_vec(), stderr: stderr.to_vec() }
}

#[test]
fn success_returns_standard_output() {
    let r = ShellTool.finish(Ok(output(true, b"X", b"ignored")));
    assert_eq!(r, Ok("X".to_string()));
}

#[test]
fn failure_returns_standard_error() {
    let r = ShellTool.finish(Ok(output(false, b"ignored", b"Y")));
    let e = r.unwrap_err();
    assert_eq!(e, ShellError::ExecutionError("Y".to_string()));
    assert_eq!(e.kind(), "ExecutionError");
    assert_eq!(e.message(), "Y");
    assert_eq!(e.to_string(), "Failed to execute command: Y");
}

#[test]
fn start_failure_carries_system_message() {
    let r = ShellTool.finish(Err("No such file or directory (os error 2)".to_string()));
    assert_eq!(
        r,
        Err(ShellError::ExecutionError("No such file or directory (os error 2)".to_string()))
    );
}

#[test]
fn invalid_bytes_are_replaced() {
    let r = ShellTool.finish(Ok(output(true, b"a\xffb", b"")));
    assert_eq!(r, Ok("a\u{FFFD}b".to_string()));
    let e = ShellTool.finish(Ok(output(false, b"", b"\xfe")));
    assert_eq!(e, Err(ShellError::ExecutionError("\u{FFFD}".to_string())));
}

#[test]
fn multibyte_output_is_decoded() {
    let r = ShellTool.finish(Ok(output(true, "héllo ✓\n".as_bytes(), b"")));
    assert_eq!(r, Ok("héllo ✓\n".to_string()));
}

#[test]
fn empty_output_is_empty_text() {
    assert_eq!(ShellTool.finish(Ok(output(true, b"", b""))), Ok(String::new()));
}

#[test]
fn finish_text_decides_by_status() {
    assert_eq!(
        ShellTool::finish_text(true, "out".to_string(), "err".to_string()),
        Ok("out".to_string())
    );
    assert_eq!(
        ShellTool::finish_text(false, "out".to_string(), "err".to_string()),
        Err(ShellError::ExecutionError("err".to_string()))
    );
}

#[test]
fn command_is_passed_verbatim() {
    let args = ShellArgs { command: "Get-ChildItem | Select -First 3; echo \"$x\"".to_string() };
    let c = ShellTool.command_line(&args);
    assert_eq!(c.program, "powershell");
    assert_eq!(c.args, vec!["-Command".to_string(), args.command.clone()]);
}

#[test]
fn same_output_gives_same_result() {
    let a = ShellTool.finish(Ok(output(true, b"X", b"")));
    let b = ShellTool.finish(Ok(output(true, b"X", b"")));
    assert_eq!(a, b);
}
