//! The results that the MCP tools hand back to their callers.

use vstd::prelude::*;
use crate::json::{compact_json, pretty_json, pretty_text};
use crate::runner::{error_text, CommandOutput, RunnerError};

verus! {

/// A tool call's result: text content for the caller to read, the JSON
/// document itself when there is one, and whether the call failed.
#[derive(Debug, PartialEq)]
pub struct ToolResult {
    pub content: Vec<String>,
    pub structured_content: Option<serde_json::Value>,
    pub is_error: Option<bool>,
}

/// The successful result for a JSON document: the document as structured
/// content, and one text item that spells it out, pretty-printed.
pub fn json_tool_result(value: serde_json::Value) -> (result: ToolResult)
    ensures
        result.content@.len() == 1,
        result.content@[0]@ == pretty_text(value),
        result.structured_content == Some(value),
        result.is_error == Some(false),
{
    let pretty = match pretty_json(&value) {
        Ok(text) => text,
        Err(_) => compact_json(&value),
    };
    let mut content: Vec<String> = Vec::new();
    content.push(pretty);
    ToolResult { content, structured_content: Some(value), is_error: Some(false) }
}

/// The result of a tool call whose run ended with `outcome`: a JSON document
/// as structured content, text as one text item, an error as a failed result
/// whose one text item is the error's message.
pub fn tool_result(outcome: Result<CommandOutput, RunnerError>) -> (result: ToolResult)
    ensures
        result.content@.len() == 1,
        result.is_error == Some(outcome is Err),
        match outcome {
            Ok(CommandOutput::Json(value)) => result.structured_content == Some(value)
                && result.content@[0]@ == pretty_text(value),
            Ok(CommandOutput::Text(text)) => result.structured_content is None
                && result.content@[0]@ == text@,
            Err(e) => result.structured_content is None && result.content@[0]@ == error_text(e),
        },
{
    match outcome {
        Ok(CommandOutput::Json(value)) => json_tool_result(value),
        Ok(CommandOutput::Text(text)) => {
            let mut content: Vec<String> = Vec::new();
            content.push(text);
            ToolResult { content, structured_content: None, is_error: Some(false) }
        },
        Err(error) => {
            let mut content: Vec<String> = Vec::new();
            content.push(error.message());
            ToolResult { content, structured_content: None, is_error: Some(true) }
        },
    }
}

} // verus!
