//! Running `gitquarry`: its settings, and the judgement of what it printed.

use vstd::prelude::*;
use vstd::utf8::{decode_utf8, valid_utf8};
use crate::commands::OutputMode;
use crate::decimal::{
    decimal, i32_to_decimal, parse_u64, parsed_u64, signed_decimal, u64_to_decimal,
};
use crate::json::{json_error_display, json_error_text, json_parse, parse_json};
use crate::text::{trim_end, trimmed_end};

verus! {

/// The timeout used when none is configured, in milliseconds.
pub const DEFAULT_TIMEOUT_MS: u64 = 30000;

/// Where to find the program and how long one run may take.
#[derive(Debug, Clone)]
pub struct CliRunner {
    pub cli_path: String,
    pub timeout_ms: u64,
}

/// What a finished run of the program left behind.
#[derive(Debug, Clone)]
pub struct ProcessOutput {
    /// Whether it exited with status zero.
    pub success: bool,
    /// Its exit code, absent when a signal ended it.
    pub code: Option<i32>,
    pub stdout: Vec<u8>,
    pub stderr: Vec<u8>,
}

/// What a successful run printed, read as its command asked.
#[derive(Debug, PartialEq)]
pub enum CommandOutput {
    Json(serde_json::Value),
    Text(String),
}

/// Why a run gave no usable output.
#[derive(Debug, Clone, PartialEq, Eq)]
pub enum RunnerError {
    Config(String),
    Spawn { path: String, message: String },
    Timeout { path: String, timeout_ms: u64 },
    CommandFailed { message: String },
    Parse(String),
}

/// The message a `RunnerError` shows.
pub open spec fn error_text(e: RunnerError) -> Seq<char> {
    match e {
        RunnerError::Config(m) => "configuration error: "@ + m@,
        RunnerError::Spawn { path, message } => "failed to start `"@ + path@ + "`: "@ + message@,
        RunnerError::Timeout { path, timeout_ms } => "`"@ + path@ + "` timed out after "@
            + decimal(timeout_ms as nat) + "ms"@,
        RunnerError::CommandFailed { message } => message@,
        RunnerError::Parse(m) => "failed to parse CLI JSON output: "@ + m@,
    }
}

impl RunnerError {
    /// The message this error shows to the tool's caller: `error_text` of it.
    pub fn message(&self) -> (r: String)
        ensures
            r@ == error_text(*self),
    {
        match self {
            RunnerError::Config(m) => {
                let mut s = String::from_str("configuration error: ");
                s.append(m.as_str());
                s
            },
            RunnerError::Spawn { path, message } => {
                let mut s = String::from_str("failed to start `");
                s.append(path.as_str());
                s.append("`: ");
                s.append(message.as_str());
                s
            },
            RunnerError::Timeout { path, timeout_ms } => {
                let mut s = String::from_str("`");
                s.append(path.as_str());
                s.append("` timed out after ");
                let ms = u64_to_decimal(*timeout_ms);
                s.append(ms.as_str());
                s.append("ms");
                s
            },
            RunnerError::CommandFailed { message } => message.clone(),
            RunnerError::Parse(m) => {
                let mut s = String::from_str("failed to parse CLI JSON output: ");
                s.append(m.as_str());
                s
            },
        }
    }
}

/// The text that `String::from_utf8_lossy` makes of a byte string: the
/// decoded characters, each invalid sequence replaced by U+FFFD. It depends on
/// the bytes alone.
pub uninterp spec fn lossy_utf8(bytes: Seq<u8>) -> Seq<char>;

/// Calls `String::from_utf8_lossy` and takes the result as an owned `String`.
/// The contract claims that the text is the one named by `lossy_utf8`, and,
/// as its documentation gives, that valid UTF-8 comes back as its decoding.
#[verifier::external_body]
fn lossy_text(bytes: &[u8]) -> (r: String)
    ensures
        r@ == lossy_utf8(bytes@),
        valid_utf8(bytes@) ==> r@ == decode_utf8(bytes@),
{
    String::from_utf8_lossy(bytes).into_owned()
}

/// The message of a failed run: its error output, else its standard output,
/// else a line about how it ended. Both outputs are already trimmed.
pub open spec fn failure_text(
    path: Seq<char>,
    stdout: Seq<char>,
    stderr: Seq<char>,
    code: Option<i32>,
) -> Seq<char> {
    if stderr.len() > 0 {
        stderr
    } else if stdout.len() > 0 {
        stdout
    } else {
        match code {
            Some(c) => "`"@ + path + "` exited with status "@ + signed_decimal(c as int),
            None => "`"@ + path + "` terminated by signal"@,
        }
    }
}

/// The settings, as the environment gives them, that `from_settings` accepts,
/// and the timeout they yield; or the message of the configuration error.
pub open spec fn timeout_setting(raw: Option<Seq<char>>) -> Result<u64, Seq<char>> {
    match raw {
        None => Ok(DEFAULT_TIMEOUT_MS),
        Some(text) => match parsed_u64(text) {
            None => Err("GITQUARRY_MCP_TIMEOUT_MS must be a positive integer in milliseconds"@),
            Some(v) => if v == 0 {
                Err("GITQUARRY_MCP_TIMEOUT_MS must be greater than 0"@)
            } else {
                Ok(v)
            },
        },
    }
}

impl CliRunner {
    /// A runner for the program at `cli_path` with the given timeout.
    pub fn new(cli_path: String, timeout_ms: u64) -> (r: CliRunner)
        ensures
            r.cli_path == cli_path,
            r.timeout_ms == timeout_ms,
    {
        CliRunner { cli_path, timeout_ms }
    }

    /// The runner that the environment's settings describe: `cli_path` is the
    /// program's path override and `timeout_raw` the timeout override in
    /// milliseconds, each absent when unset.
    pub fn from_settings(cli_path: Option<String>, timeout_raw: Option<String>) -> (r: Result<
        CliRunner,
        RunnerError,
    >)
        ensures
            match timeout_setting(timeout_raw.deep_view()) {
                Ok(ms) => r matches Ok(runner) && runner.timeout_ms == ms && runner.cli_path@ == (
                match cli_path {
                    Some(p) => p@,
                    None => "gitquarry"@,
                }),
                Err(m) => r matches Err(RunnerError::Config(msg)) && msg@ == m,
            },
    {
        let timeout_ms: u64 = match timeout_raw {
            Some(raw) => {
                match parse_u64(raw.as_str()) {
                    None => {
                        return Err(
                            RunnerError::Config(
                                String::from_str(
                                    "GITQUARRY_MCP_TIMEOUT_MS must be a positive integer in milliseconds",
                                ),
                            ),
                        );
                    },
                    Some(value) => {
                        if value == 0 {
                            return Err(
                                RunnerError::Config(
                                    String::from_str(
                                        "GITQUARRY_MCP_TIMEOUT_MS must be greater than 0",
                                    ),
                                ),
                            );
                        }
                        value
                    },
                }
            },
            None => DEFAULT_TIMEOUT_MS,
        };
        let cli_path = match cli_path {
            Some(p) => p,
            None => String::from_str("gitquarry"),
        };
        Ok(CliRunner { cli_path, timeout_ms })
    }

    /// The error for a program that could not be started or waited for.
    pub fn spawn_error(&self, message: String) -> (r: RunnerError)
        ensures
            r matches RunnerError::Spawn { path, message: m } && path@ == self.cli_path@ && m
                == message,
    {
        RunnerError::Spawn { path: self.cli_path.clone(), message }
    }

    /// The error for a run that outlived the timeout.
    pub fn timeout_error(&self) -> (r: RunnerError)
        ensures
            r matches RunnerError::Timeout { path, timeout_ms } && path@ == self.cli_path@
                && timeout_ms == self.timeout_ms,
    {
        RunnerError::Timeout { path: self.cli_path.clone(), timeout_ms: self.timeout_ms }
    }

    /// Judges what a finished run left behind. A failed run gives its message;
    /// a successful one gives its trimmed standard output, parsed as JSON when
    /// the command asked for JSON.
    pub fn finish(&self, output: ProcessOutput, mode: OutputMode) -> (r: Result<
        CommandOutput,
        RunnerError,
    >)
        ensures
            valid_utf8(output.stdout@) ==> lossy_utf8(output.stdout@) == decode_utf8(
                output.stdout@,
            ),
            valid_utf8(output.stderr@) ==> lossy_utf8(output.stderr@) == decode_utf8(
                output.stderr@,
            ),
            !output.success ==> (r matches Err(RunnerError::CommandFailed { message })
                && message@ == failure_text(
                self.cli_path@,
                trimmed_end(lossy_utf8(output.stdout@)),
                trimmed_end(lossy_utf8(output.stderr@)),
                output.code,
            )),
            output.success && mode == OutputMode::Text ==> (r matches Ok(CommandOutput::Text(t))
                && t@ == trimmed_end(lossy_utf8(output.stdout@))),
            output.success && mode == OutputMode::Json ==> match json_parse(
                trimmed_end(lossy_utf8(output.stdout@)),
            ) {
                Ok(v) => r == Ok::<CommandOutput, RunnerError>(CommandOutput::Json(v)),
                Err(e) => (r matches Err(RunnerError::Parse(m)) && m@ == json_error_display(e)),
            },
    {
        let stdout_raw = lossy_text(output.stdout.as_slice());
        let stderr_raw = lossy_text(output.stderr.as_slice());
        let stdout = trim_end(stdout_raw.as_str());
        let stderr = trim_end(stderr_raw.as_str());
        if !output.success {
            let message = if stderr.as_str().unicode_len() != 0 {
                stderr
            } else if stdout.as_str().unicode_len() != 0 {
                stdout
            } else {
                match output.code {
                    Some(code) => {
                        let mut s = String::from_str("`");
                        s.append(self.cli_path.as_str());
                        s.append("` exited with status ");
                        let c = i32_to_decimal(code);
                        s.append(c.as_str());
                        s
                    },
                    None => {
                        let mut s = String::from_str("`");
                        s.append(self.cli_path.as_str());
                        s.append("` terminated by signal");
                        s
                    },
                }
            };
            return Err(RunnerError::CommandFailed { message });
        }
        match mode {
            OutputMode::Json => match parse_json(stdout.as_str()) {
                Ok(value) => Ok(CommandOutput::Json(value)),
                Err(error) => Err(RunnerError::Parse(json_error_text(&error))),
            },
            OutputMode::Text => Ok(CommandOutput::Text(stdout)),
        }
    }
}

} // verus!
