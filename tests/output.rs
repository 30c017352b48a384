use aseprite_mcp::output::ScriptOutput;
use aseprite_mcp::reply::{cli_reply, script_reply};
use aseprite_mcp::runner::RunError;

fn out(stdout: &str, stderr: &str, success: bool) -> ScriptOutput {
    ScriptOutput { stdout: stdout.to_string(), stderr: stderr.to_string(), success }
}

#[test]
fn success_with_output_is_trimmed_output() {
    assert_eq!(out("hello", "", true).result_text(), "hello");
    assert_eq!(out("  hello \n", "warn", true).result_text(), "hello");
}

#[test]
fn success_without_output_is_canned_message() {
    assert_eq!(out("", "", true).result_text(), "Operation completed successfully.");
    assert_eq!(out(" \n\t", "", true).result_text(), "Operation completed successfully.");
}

#[test]
fn failure_prefers_stderr() {
    assert_eq!(out("", "bad arg", false).result_text(), "Error: bad arg");
    assert_eq!(out("partial", "  bad arg\n", false).result_text(), "Error: bad arg");
}

#[test]
fn failure_falls_back_to_stdout() {
    assert_eq!(out(" printed \n", "  ", false).result_text(), "Error: printed");
}

#[test]
fn failure_without_any_output_is_unknown_error() {
    assert_eq!(out("", "", false).result_text(), "Error: Unknown error occurred");
}

#[test]
fn trim_uses_unicode_white_space() {
    assert_eq!(out("\u{3000}x\u{a0}", "", true).result_text(), "x");
}

#[test]
fn script_reply_frames_outcomes() {
    assert_eq!(script_reply(&Ok(out("{\"ok\":1}\n", "", true))), Ok("{\"ok\":1}".to_string()));
    assert_eq!(script_reply(&Ok(out("", "boom", false))), Err("Error: boom".to_string()));
    assert_eq!(
        script_reply(&Err(RunError::SpawnFailed("no such file".to_string()))),
        Err("Failed to execute script: Failed to spawn Aseprite process".to_string())
    );
    assert_eq!(
        script_reply(&Err(RunError::WriteFailed("disk full".to_string()))),
        Err("Failed to execute script: Failed to write temporary Lua script".to_string())
    );
}

#[test]
fn cli_reply_frames_outcomes() {
    assert_eq!(cli_reply(&Ok(out("", "", true))), Ok("Operation completed successfully.".to_string()));
    assert_eq!(
        cli_reply(&Err(RunError::TimedOut)),
        Err("CLI execution failed: Aseprite process timed out after 60 seconds. The operation may be too complex or Aseprite may be unresponsive.".to_string())
    );
    assert_eq!(
        cli_reply(&Err(RunError::WaitFailed("interrupted".to_string()))),
        Err("CLI execution failed: Failed to wait for Aseprite process".to_string())
    );
}
