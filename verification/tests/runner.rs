use gitquarry_mcp::commands::OutputMode;
use gitquarry_mcp::decimal::{i32_to_decimal, parse_u64, u64_to_decimal};
use gitquarry_mcp::runner::{CliRunner, CommandOutput, ProcessOutput, RunnerError};
use gitquarry_mcp::text::{trim_end, white_space};
use gitquarry_mcp::tool::{json_tool_result, tool_result};

fn runner() -> CliRunner {
    CliRunner::new("/usr/bin/gitquarry".to_string(), 500)
}

fn output(success: bool, code: Option<i32>, stdout: &str, stderr: &str) -> ProcessOutput {
    ProcessOutput {
        success,
        code,
        stdout: stdout.as_bytes().to_vec(),
        stderr: stderr.as_bytes().to_vec(),
    }
}

#[test]
fn wraps_json_with_text_and_structured_content() {
    let value: serde_json::Value = serde_json::from_str(r#"{ "items": ["a", "b"] }"#).unwrap();
    let result = json_tool_result(value.clone());

    assert_eq!(result.is_error, Some(false));
    assert_eq!(result.structured_content, Some(value));
    assert_eq!(result.content.len(), 1);
}

#[test]
fn json_tool_result_text_is_pretty_json() {
    let value: serde_json::Value = serde_json::from_str(r#"{"a":1}"#).unwrap();
    let result = json_tool_result(value);
    assert_eq!(result.content, vec!["{\n  \"a\": 1\n}".to_string()]);
}

#[test]
fn finish_parses_json_stdout() {
    let out = runner()
        .finish(
            output(true, Some(0), "{\"ok\":true,\"args\":[\"version\",\"--json\"]}\n", ""),
            OutputMode::Json,
        )
        .expect("json output should parse");
    let expected: serde_json::Value =
        serde_json::from_str(r#"{"ok": true, "args": ["version", "--json"]}"#).unwrap();
    assert_eq!(out, CommandOutput::Json(expected));
}

#[test]
fn finish_reports_stderr_of_failed_run() {
    let error = runner()
        .finish(
            output(false, Some(1), "", "authentication error: invalid token\n"),
            OutputMode::Json,
        )
        .expect_err("runner should return CLI failure");
    assert!(error.message().contains("authentication error: invalid token"));
    assert_eq!(
        error,
        RunnerError::CommandFailed { message: "authentication error: invalid token".to_string() }
    );
}

#[test]
fn finish_falls_back_to_stdout_then_status() {
    let runner = runner();
    let e = runner.finish(output(false, Some(2), "partial\n", "  \n"), OutputMode::Text).unwrap_err();
    assert_eq!(e, RunnerError::CommandFailed { message: "partial".to_string() });
    let e = runner.finish(output(false, Some(-3), "", ""), OutputMode::Text).unwrap_err();
    assert_eq!(
        e.message(),
        "`/usr/bin/gitquarry` exited with status -3".to_string()
    );
    let e = runner.finish(output(false, None, "\n", "\t"), OutputMode::Json).unwrap_err();
    assert_eq!(e.message(), "`/usr/bin/gitquarry` terminated by signal".to_string());
}

#[test]
fn finish_keeps_trimmed_text() {
    let out = runner()
        .finish(output(true, Some(0), "  gitquarry 1.2.3 \n\n", "noise"), OutputMode::Text)
        .unwrap();
    assert_eq!(out, CommandOutput::Text("  gitquarry 1.2.3".to_string()));
}

#[test]
fn finish_rejects_non_json_stdout() {
    let e = runner()
        .finish(output(true, Some(0), "not json", ""), OutputMode::Json)
        .unwrap_err();
    match e {
        RunnerError::Parse(_) => {}
        other => panic!("unexpected {:?}", other),
    }
    assert!(e.message().starts_with("failed to parse CLI JSON output: "));
    let expected = serde_json::from_str::<serde_json::Value>("not json").unwrap_err().to_string();
    assert_eq!(e, RunnerError::Parse(expected));
}

#[test]
fn finish_decodes_invalid_utf8_lossily() {
    let out = ProcessOutput {
        success: false,
        code: Some(1),
        stdout: vec![],
        stderr: vec![0xff, b'x', b'\n'],
    };
    let e = runner().finish(out, OutputMode::Text).unwrap_err();
    assert_eq!(e, RunnerError::CommandFailed { message: "\u{FFFD}x".to_string() });
    let out = ProcessOutput {
        success: true,
        code: Some(0),
        stdout: b"[1] ".to_vec(),
        stderr: vec![0xc3],
    };
    let v = runner().finish(out, OutputMode::Json).unwrap();
    assert_eq!(v, CommandOutput::Json(serde_json::from_str("[1]").unwrap()));
}

#[test]
fn settings_defaults() {
    let r = CliRunner::from_settings(None, None).unwrap();
    assert_eq!(r.cli_path, "gitquarry".to_string());
    assert_eq!(r.timeout_ms, 30000);
    let r = CliRunner::from_settings(Some("/opt/gq".to_string()), Some("1500".to_string())).unwrap();
    assert_eq!(r.cli_path, "/opt/gq".to_string());
    assert_eq!(r.timeout_ms, 1500);
}

#[test]
fn settings_reject_bad_timeouts() {
    let e = CliRunner::from_settings(None, Some("soon".to_string())).unwrap_err();
    assert_eq!(
        e,
        RunnerError::Config(
            "GITQUARRY_MCP_TIMEOUT_MS must be a positive integer in milliseconds".to_string()
        )
    );
    assert_eq!(
        e.message(),
        "configuration error: GITQUARRY_MCP_TIMEOUT_MS must be a positive integer in milliseconds"
    );
    let e = CliRunner::from_settings(None, Some("0".to_string())).unwrap_err();
    assert_eq!(
        e,
        RunnerError::Config("GITQUARRY_MCP_TIMEOUT_MS must be greater than 0".to_string())
    );
    assert!(CliRunner::from_settings(None, Some("-5".to_string())).is_err());
    assert!(CliRunner::from_settings(None, Some(" 5".to_string())).is_err());
    assert!(CliRunner::from_settings(None, Some("18446744073709551616".to_string())).is_err());
    assert_eq!(
        CliRunner::from_settings(None, Some("+42".to_string())).unwrap().timeout_ms,
        42
    );
}

#[test]
fn error_messages() {
    let r = runner();
    assert_eq!(
        r.timeout_error().message(),
        "`/usr/bin/gitquarry` timed out after 500ms".to_string()
    );
    assert_eq!(
        r.spawn_error("No such file or directory".to_string()).message(),
        "failed to start `/usr/bin/gitquarry`: No such file or directory".to_string()
    );
}

#[test]
fn tool_results_for_each_outcome() {
    let text = tool_result(Ok(CommandOutput::Text("logged in".to_string())));
    assert_eq!(text.is_error, Some(false));
    assert_eq!(text.content, vec!["logged in".to_string()]);
    assert_eq!(text.structured_content, None);

    let failed = tool_result(Err(RunnerError::CommandFailed { message: "boom".to_string() }));
    assert_eq!(failed.is_error, Some(true));
    assert_eq!(failed.content, vec!["boom".to_string()]);

    let value: serde_json::Value = serde_json::from_str("[1,2]").unwrap();
    let json = tool_result(Ok(CommandOutput::Json(value.clone())));
    assert_eq!(json.is_error, Some(false));
    assert_eq!(json.structured_content, Some(value));
}

#[test]
fn decimal_text_both_ways() {
    assert_eq!(u64_to_decimal(0), "0");
    assert_eq!(u64_to_decimal(500000), "500000");
    assert_eq!(u64_to_decimal(u64::MAX), u64::MAX.to_string());
    assert_eq!(i32_to_decimal(i32::MIN), i32::MIN.to_string());
    assert_eq!(i32_to_decimal(-7), "-7");
    assert_eq!(parse_u64("007"), Some(7));
    assert_eq!(parse_u64(""), None);
    assert_eq!(parse_u64("+"), None);
    assert_eq!(parse_u64("18446744073709551615"), Some(u64::MAX));
    assert_eq!(parse_u64("1e3"), None);
    for n in [0u64, 9, 10, 99, 12345, u64::MAX] {
        assert_eq!(parse_u64(&u64_to_decimal(n)), Some(n));
    }
}

#[test]
fn trims_unicode_white_space() {
    assert_eq!(trim_end("abc \t\n\r\u{3000}\u{a0}"), "abc");
    assert_eq!(trim_end(" x "), " x");
    assert_eq!(trim_end("   "), "");
    assert_eq!(trim_end("é\u{2009}"), "é");
    for c in ['\u{85}', '\u{1680}', '\u{2028}', '\u{205f}', ' ', 'a', '\u{200b}'] {
        assert_eq!(white_space(c), c.is_whitespace());
    }
}
