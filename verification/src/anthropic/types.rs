//! What a request consists of: messages, tools, reasoning; and what is wrong with one.

use vstd::prelude::*;

use crate::json::{entries_view, Fields, Json, JsonView};
use crate::text::{dec, decimal, join3, maybe_text};

verus! {

/// A request that cannot be served: what is wrong, with which parameter, and a code.
#[derive(Debug)]
pub struct RequestError {
    pub message: String,
    pub param: Option<String>,
    pub code: Option<String>,
}

/// A request error as plain values.
pub struct ErrorView {
    pub message: Seq<char>,
    pub param: Option<Seq<char>>,
    pub code: Option<Seq<char>>,
}

impl View for RequestError {
    type V = ErrorView;

    open spec fn view(&self) -> ErrorView {
        ErrorView {
            message: self.message@,
            param: maybe_text(self.param),
            code: maybe_text(self.code),
        }
    }
}

/// The error for a value that is not accepted.
pub open spec fn invalid(message: Seq<char>, param: Seq<char>) -> ErrorView {
    ErrorView { message, param: Some(param), code: Some("invalid_value"@) }
}

/// The error for a parameter that is not served.
pub open spec fn unsupported(message: Seq<char>, param: Seq<char>) -> ErrorView {
    ErrorView { message, param: Some(param), code: Some("unsupported_parameter"@) }
}

impl RequestError {
    /// The error for a value that is not accepted.
    pub fn new(message: &str, param: &str) -> (r: RequestError)
        ensures
            r@ == invalid(message@, param@),
    {
        RequestError {
            message: message.to_owned(),
            param: Some(param.to_owned()),
            code: Some("invalid_value".to_owned()),
        }
    }

    /// The error for a parameter that is not served.
    pub fn unsupported(message: &str, param: &str) -> (r: RequestError)
        ensures
            r@ == unsupported(message@, param@),
    {
        RequestError {
            message: message.to_owned(),
            param: Some(param.to_owned()),
            code: Some("unsupported_parameter".to_owned()),
        }
    }
}

/// The name of an input item, with `rest` behind it.
pub open spec fn input_path(index: nat, rest: Seq<char>) -> Seq<char> {
    "input["@ + dec(index) + ("]"@ + rest)
}

/// The name of a part of an input item's content, with `rest` behind it.
pub open spec fn part_path(index: nat, part: nat, rest: Seq<char>) -> Seq<char> {
    input_path(index, ".content["@ + dec(part) + ("]"@ + rest))
}

/// A place in a row, `rest` behind it.
pub(crate) fn place(before: &str, index: usize, rest: &str) -> (r: String)
    ensures
        r@ == before@ + dec(index as nat) + ("]"@ + rest@),
{
    let mut tail = "]".to_owned();
    tail.append(rest);
    join3(before, decimal(index as u64).as_str(), tail.as_str())
}

/// The name of an input item, with `rest` behind it.
pub(crate) fn input_place(index: usize, rest: &str) -> (r: String)
    ensures
        r@ == input_path(index as nat, rest@),
{
    place("input[", index, rest)
}

/// The name of a part of an input item's content, with `rest` behind it.
pub(crate) fn part_place(index: usize, part: usize, rest: &str) -> (r: String)
    ensures
        r@ == part_path(index as nat, part as nat, rest@),
{
    input_place(index, place(".content[", part, rest).as_str())
}

/// A message: who speaks, and what is said.
#[derive(Debug)]
pub struct Message {
    pub role: String,
    pub content: Json,
}

/// A message as plain values.
pub struct MessageView {
    pub role: Seq<char>,
    pub content: JsonView,
}

impl View for Message {
    type V = MessageView;

    open spec fn view(&self) -> MessageView {
        MessageView { role: self.role@, content: self.content@ }
    }
}

/// The messages of a row, as plain values.
pub open spec fn messages_view(messages: Seq<Message>) -> Seq<MessageView> {
    messages.map_values(|message: Message| message@)
}

/// An instruction that stands before the messages.
#[derive(Debug)]
pub struct SystemMessage {
    pub text: String,
}

/// The texts of a row of instructions, where there is one.
pub open spec fn system_view(system: Option<Vec<SystemMessage>>) -> Option<Seq<Seq<char>>> {
    match system {
        Some(messages) => Some(messages@.map_values(|message: SystemMessage| message.text@)),
        None => None,
    }
}

/// A tool that the backend is told of.
#[derive(Debug)]
pub struct Tool {
    pub tool_type: Option<String>,
    pub name: String,
    pub description: String,
    pub input_schema: Fields,
    pub max_uses: Option<i32>,
}

/// A tool as plain values.
pub struct ToolView {
    pub tool_type: Option<Seq<char>>,
    pub name: Seq<char>,
    pub description: Seq<char>,
    pub input_schema: Seq<(Seq<char>, JsonView)>,
    pub max_uses: Option<i32>,
}

impl View for Tool {
    type V = ToolView;

    open spec fn view(&self) -> ToolView {
        ToolView {
            tool_type: maybe_text(self.tool_type),
            name: self.name@,
            description: self.description@,
            input_schema: entries_view(self.input_schema.entries@),
            max_uses: self.max_uses,
        }
    }
}

/// The tools of a row, as plain values.
pub open spec fn tools_view(tools: Seq<Tool>) -> Seq<ToolView> {
    tools.map_values(|tool: Tool| tool@)
}

/// How the backend thinks before it answers.
#[derive(Debug)]
pub struct Thinking {
    pub thinking_type: String,
    pub budget_tokens: i32,
}

impl Thinking {
    /// Whether the backend thinks at all: of its own choice, or always.
    pub open spec fn enabled(self) -> bool {
        self.thinking_type@ == "enabled"@ || self.thinking_type@ == "adaptive"@
    }

    /// Whether the backend thinks at all.
    pub fn is_enabled(&self) -> (r: bool)
        ensures
            r == self.enabled(),
    {
        crate::text::same(self.thinking_type.as_str(), "enabled") || crate::text::same(
            self.thinking_type.as_str(),
            "adaptive",
        )
    }
}

/// How much effort the backend spends on an answer.
#[derive(Debug)]
pub struct OutputConfig {
    pub effort: String,
}

/// A request as the backend takes it.
#[derive(Debug)]
pub struct MessagesRequest {
    pub model: String,
    pub max_tokens: i32,
    pub messages: Vec<Message>,
    pub stream: bool,
    pub system: Option<Vec<SystemMessage>>,
    pub tools: Option<Vec<Tool>>,
    pub tool_choice: Option<Json>,
    pub thinking: Option<Thinking>,
    pub output_config: Option<OutputConfig>,
    pub metadata: Option<Json>,
}

} // verus!
