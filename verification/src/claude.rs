//! Runs of the agent program: how one is started and what it prints.
use vstd::prelude::*;
use crate::json::{Json, JsonV};

verus! {

/// What a run is for; it fixes the tools and limits that the run is given.
#[derive(Debug, Clone, Copy, PartialEq, Eq, Structural)]
pub enum RunKind {
    Spec { with_codebase: bool },
    Decompose { with_codebase: bool },
    Impl,
    Verify,
    PipelinePlan,
    PipelineImplement,
    PipelineReview,
}

/// How a run is started.
#[derive(Debug, PartialEq)]
pub struct RunConfig {
    pub kind: RunKind,
    pub prompt: String,
    pub resume_session: Option<String>,
    pub working_dir: Option<String>,
    pub system_prompt_file: Option<String>,
}

/// One event of a run's output.
#[derive(Debug, PartialEq)]
pub enum StreamEvent {
    TextDelta { text: String },
    InputJsonDelta { partial_json: String },
    ToolUse { name: String, input: Json },
    ToolResult { content: String },
    Result { text: String, session_id: String },
    Error { message: String },
    ParseError { line: String, reason: String },
}

/// An event, and whether it asks the user a question.
#[derive(Debug, PartialEq)]
pub struct StreamItem {
    pub event: StreamEvent,
    pub asks_user: bool,
}

pub open spec fn typed(kind: Seq<char>) -> JsonV {
    JsonV::object().with("type"@, JsonV::Str(kind))
}

pub fn typed_json(kind: &str) -> (r: Json)
    ensures
        r@ == typed(kind@),
{
    Json::object().with("type", Json::text(kind))
}

impl StreamEvent {
    /// The event as it is shown to clients.
    pub open spec fn shown(self) -> JsonV {
        match self {
            StreamEvent::TextDelta { text } => typed("text"@).with("text"@, JsonV::Str(text@)),
            StreamEvent::InputJsonDelta { partial_json } => typed("input_json_delta"@).with(
                "partial_json"@,
                JsonV::Str(partial_json@),
            ),
            StreamEvent::ToolUse { name, input } => typed("tool_use"@).with(
                "name"@,
                JsonV::Str(name@),
            ).with("input"@, input@),
            StreamEvent::ToolResult { content } => typed("tool_result"@).with(
                "content"@,
                JsonV::Str(content@),
            ),
            StreamEvent::Result { text, session_id } => typed("result"@).with(
                "text"@,
                JsonV::Str(text@),
            ).with("session_id"@, JsonV::Str(session_id@)),
            StreamEvent::Error { message } => typed("error"@).with(
                "message"@,
                JsonV::Str(message@),
            ),
            StreamEvent::ParseError { line, reason } => typed("parse_error"@).with(
                "line"@,
                JsonV::Str(line@),
            ).with("reason"@, JsonV::Str(reason@)),
        }
    }

    pub fn to_json(&self) -> (r: Json)
        ensures
            r@ == self.shown(),
    {
        match self {
            StreamEvent::TextDelta { text } => typed_json("text").with(
                "text",
                Json::Str(text.clone()),
            ),
            StreamEvent::InputJsonDelta { partial_json } => typed_json("input_json_delta").with(
                "partial_json",
                Json::Str(partial_json.clone()),
            ),
            StreamEvent::ToolUse { name, input } => typed_json("tool_use").with(
                "name",
                Json::Str(name.clone()),
            ).with("input", input.copy()),
            StreamEvent::ToolResult { content } => typed_json("tool_result").with(
                "content",
                Json::Str(content.clone()),
            ),
            StreamEvent::Result { text, session_id } => typed_json("result").with(
                "text",
                Json::Str(text.clone()),
            ).with("session_id", Json::Str(session_id.clone())),
            StreamEvent::Error { message } => typed_json("error").with(
                "message",
                Json::Str(message.clone()),
            ),
            StreamEvent::ParseError { line, reason } => typed_json("parse_error").with(
                "line",
                Json::Str(line.clone()),
            ).with("reason", Json::Str(reason.clone())),
        }
    }
}

impl StreamItem {
    /// The event as a spec session shows it: a question to the user is shown as one.
    pub open spec fn shown(self) -> JsonV {
        if !self.asks_user {
            self.event.shown()
        } else {
            match self.event {
                StreamEvent::ToolUse { input, .. } => {
                    let text = match input@.text_field("question"@) {
                        Some(t) => t,
                        None => ""@,
                    };
                    let question = typed("question"@).with("text"@, JsonV::Str(text));
                    match input@.field("options"@) {
                        Some(options) => question.with("options"@, options),
                        None => question,
                    }
                },
                _ => typed("tool_use"@).with("name"@, JsonV::Str("AskUserQuestion"@)).with(
                    "input"@,
                    JsonV::object(),
                ),
            }
        }
    }

    pub fn to_json(&self) -> (r: Json)
        ensures
            r@ == self.shown(),
    {
        if !self.asks_user {
            return self.event.to_json();
        }
        match &self.event {
            StreamEvent::ToolUse { input, .. } => {
                let text = match input.str_field("question") {
                    Some(t) => t,
                    None => "".to_owned(),
                };
                let question = typed_json("question").with("text", Json::Str(text));
                match input.field("options") {
                    Some(options) => question.with("options", options.copy()),
                    None => question,
                }
            },
            _ => typed_json("tool_use").with("name", Json::text("AskUserQuestion")).with(
                "input",
                Json::object(),
            ),
        }
    }
}

} // verus!
