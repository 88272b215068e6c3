//! Requests of the Responses API, and the requests that the backend takes for them.

use vstd::prelude::*;

use crate::anthropic::input::{
    input_item, input_items, map_input, mapped_input, normalize_messages, turn_error, InputView,
    ItemView,
};
use crate::anthropic::reasoning::{
    asked_effort, effort_view, map_reasoning, reasoning_for, thinking_view, ReasoningConfig,
    ThinkingView,
};
use crate::anthropic::tools::{
    definitions_view, map_tool_choice, map_tools, mapped_tools, tool_choice, DefinitionView,
    ResponseTool,
};
use crate::anthropic::types::{
    invalid, messages_view, system_view, tools_view, unsupported, ErrorView, MessageView,
    MessagesRequest, RequestError, SystemMessage, ToolView,
};
use crate::json::{maybe_json, Json, JsonView};
use crate::rows::{all_ok, lemma_front_error, lemma_push, seen};
use crate::text::{blank, is_blank, lower_case, maybe_text};

verus! {

/// How many tokens an answer may have where a request does not say.
pub const DEFAULT_MAX_OUTPUT_TOKENS: i32 = 4096;

/// A request of the Responses API.
#[derive(Debug)]
pub struct ResponsesRequest {
    pub model: String,
    pub input: Json,
    pub instructions: Option<String>,
    pub max_output_tokens: Option<i32>,
    pub stream: bool,
    pub tools: Vec<ResponseTool>,
    pub tool_choice: Option<Json>,
    pub reasoning: Option<ReasoningConfig>,
    pub previous_response_id: Json,
    pub conversation: Json,
    pub background: bool,
    pub store: Option<bool>,
}

/// A request as plain values.
pub struct RequestView {
    pub model: Seq<char>,
    pub input: JsonView,
    pub instructions: Option<Seq<char>>,
    pub max_output_tokens: Option<i32>,
    pub stream: bool,
    pub tools: Seq<DefinitionView>,
    pub tool_choice: Option<JsonView>,
    pub effort: Option<Seq<char>>,
    pub previous_response_id: JsonView,
    pub conversation: JsonView,
    pub background: bool,
    pub store: Option<bool>,
}

impl View for ResponsesRequest {
    type V = RequestView;

    open spec fn view(&self) -> RequestView {
        RequestView {
            model: self.model@,
            input: self.input@,
            instructions: maybe_text(self.instructions),
            max_output_tokens: self.max_output_tokens,
            stream: self.stream,
            tools: definitions_view(self.tools@),
            tool_choice: maybe_json(self.tool_choice),
            effort: asked_effort(self.reasoning),
            previous_response_id: self.previous_response_id@,
            conversation: self.conversation@,
            background: self.background,
            store: self.store,
        }
    }
}

/// A request as the backend takes it, with what the answer needs of it.
#[derive(Debug)]
pub struct MappedRequest {
    pub messages: MessagesRequest,
    pub max_output_tokens: i32,
    pub thinking_enabled: bool,
}

/// A mapped request as plain values.
pub struct MappedView {
    pub model: Seq<char>,
    pub max_tokens: i32,
    pub messages: Seq<MessageView>,
    pub stream: bool,
    pub system: Option<Seq<Seq<char>>>,
    pub tools: Option<Seq<ToolView>>,
    pub tool_choice: Option<JsonView>,
    pub thinking: Option<ThinkingView>,
    pub effort: Option<Seq<char>>,
    pub metadata: Option<JsonView>,
    pub max_output_tokens: i32,
    pub thinking_enabled: bool,
}

impl View for MappedRequest {
    type V = MappedView;

    open spec fn view(&self) -> MappedView {
        MappedView {
            model: self.messages.model@,
            max_tokens: self.messages.max_tokens,
            messages: messages_view(self.messages.messages@),
            stream: self.messages.stream,
            system: system_view(self.messages.system),
            tools: match self.messages.tools {
                Some(tools) => Some(tools_view(tools@)),
                None => None,
            },
            tool_choice: maybe_json(self.messages.tool_choice),
            thinking: thinking_view(self.messages.thinking),
            effort: effort_view(self.messages.output_config),
            metadata: maybe_json(self.messages.metadata),
            max_output_tokens: self.max_output_tokens,
            thinking_enabled: self.thinking_enabled,
        }
    }
}

/// The first field of a request that asks for state, which is not kept.
pub open spec fn state_error(request: RequestView) -> Option<ErrorView> {
    if request.previous_response_id != JsonView::Null {
        Some(
            unsupported(
                "previous_response_id is not supported because this service does not persist response state"@,
                "previous_response_id"@,
            ),
        )
    } else if request.conversation != JsonView::Null {
        Some(
            unsupported(
                "conversation is not supported because this service does not persist conversation state"@,
                "conversation"@,
            ),
        )
    } else if request.background {
        Some(unsupported("background responses are not supported"@, "background"@))
    } else if request.store == Some(true) {
        Some(unsupported("stored responses are not supported"@, "store"@))
    } else {
        None
    }
}

/// How many tokens the answer to a request may have.
pub open spec fn token_limit(request: RequestView) -> i32 {
    match request.max_output_tokens {
        Some(limit) => limit,
        None => DEFAULT_MAX_OUTPUT_TOKENS,
    }
}

/// The instructions of a request, where they are not empty.
pub open spec fn first_instructions(request: RequestView) -> Option<Seq<Seq<char>>> {
    match request.instructions {
        Some(line) if line.len() > 0 => Some(seq![line]),
        _ => None,
    }
}

/// The request that the backend takes for a request, its model's name given in lower case
/// too; or the first thing that is wrong with it: its state, its model, its limit, its
/// input, its tools, its choice among them, its reasoning.
pub open spec fn mapped_request(request: RequestView, lower: Seq<char>) -> Result<
    MappedView,
    ErrorView,
> {
    if state_error(request) is Some {
        Err(state_error(request)->0)
    } else if is_blank(request.model) {
        Err(invalid("model must not be empty"@, "model"@))
    } else if token_limit(request) <= 0 {
        Err(invalid("max_output_tokens must be greater than 0"@, "max_output_tokens"@))
    } else {
        match mapped_input(request.input, first_instructions(request)) {
            Err(error) => Err(error),
            Ok(input) => if turn_error(input.messages) is Some {
                Err(turn_error(input.messages)->0)
            } else {
                match mapped_tools(request.tools + input.tools) {
                    Err(error) => Err(error),
                    Ok(tools) => match tool_choice(request.tool_choice, tools) {
                        Err(error) => Err(error),
                        Ok(choice) => match reasoning_for(lower, request.effort) {
                            Err(error) => Err(error),
                            Ok(reasoning) => Ok(
                                MappedView {
                                    model: request.model,
                                    max_tokens: token_limit(request),
                                    messages: input.messages,
                                    stream: request.stream,
                                    system: input.system,
                                    tools: if tools.len() == 0 {
                                        None
                                    } else {
                                        Some(tools)
                                    },
                                    tool_choice: choice,
                                    thinking: reasoning.thinking,
                                    effort: reasoning.effort,
                                    metadata: None,
                                    max_output_tokens: token_limit(request),
                                    thinking_enabled: reasoning.thinking is Some,
                                },
                            ),
                        },
                    },
                }
            },
        }
    }
}

/// A request that is accepted keeps no state, names a model, allows for an answer, and
/// becomes a row of messages that ends with the user; where it passes tools on, there is
/// at least one.
pub proof fn law_accepted_request(request: RequestView, lower: Seq<char>)
    requires
        mapped_request(request, lower) is Ok,
    ensures
        request.previous_response_id == JsonView::Null,
        request.conversation == JsonView::Null,
        !request.background,
        request.store != Some(true),
        !is_blank(request.model),
        mapped_request(request, lower)->Ok_0.max_tokens > 0,
        mapped_request(request, lower)->Ok_0.messages.len() > 0,
        mapped_request(request, lower)->Ok_0.messages.last().role == "user"@,
        mapped_request(request, lower)->Ok_0.tools matches Some(tools) ==> tools.len() > 0,
{
}

/// An item that becomes nothing, such as one of an unknown type, changes nothing behind
/// the other items of an input.
pub proof fn law_unknown_item_is_skipped(
    items: Seq<JsonView>,
    item: JsonView,
    system: Option<Seq<Seq<char>>>,
)
    requires
        items.len() > 0,
        input_item(item, items.len()) == Ok::<ItemView, ErrorView>(ItemView::Nothing),
    ensures
        mapped_input(JsonView::Array(items.push(item)), system) == mapped_input(
            JsonView::Array(items),
            system,
        ),
{
    let before = InputView { system, messages: Seq::empty(), tools: Seq::empty() };
    let results = input_items(items);
    let longer = input_items(items.push(item));
    assert(longer =~= results.push(Ok(ItemView::Nothing)));
    lemma_push(results, Ok(ItemView::Nothing));
    match all_ok(results) {
        Ok(found) => {
            assert(found.push(ItemView::Nothing).drop_last() =~= found);
        },
        Err(_) => {
            lemma_front_error(results, longer);
        },
    }
}

/// Whether a request asks for no state.
pub fn validate_stateless_fields(request: &ResponsesRequest) -> (r: Result<(), RequestError>)
    ensures
        match state_error(request@) {
            Some(error) => r matches Err(found) && found@ == error,
            None => r is Ok,
        },
{
    if !request.previous_response_id.is_null() {
        return Err(
            RequestError::unsupported(
                "previous_response_id is not supported because this service does not persist response state",
                "previous_response_id",
            ),
        );
    }
    if !request.conversation.is_null() {
        return Err(
            RequestError::unsupported(
                "conversation is not supported because this service does not persist conversation state",
                "conversation",
            ),
        );
    }
    if request.background {
        return Err(
            RequestError::unsupported("background responses are not supported", "background"),
        );
    }
    if let Some(true) = request.store {
        return Err(RequestError::unsupported("stored responses are not supported", "store"));
    }
    Ok(())
}

/// The request that the backend takes for a request, or what is wrong with it.
pub fn map_request(request: ResponsesRequest) -> (r: Result<MappedRequest, RequestError>)
    ensures
        seen(r) == mapped_request(request@, lower_case(request.model@)),
{
    if let Err(error) = validate_stateless_fields(&request) {
        return Err(error);
    }
    if blank(request.model.as_str()) {
        return Err(RequestError::new("model must not be empty", "model"));
    }
    let max_output_tokens: i32 = match request.max_output_tokens {
        Some(limit) => limit,
        None => DEFAULT_MAX_OUTPUT_TOKENS,
    };
    if max_output_tokens <= 0 {
        return Err(
            RequestError::new(
                "max_output_tokens must be greater than 0",
                "max_output_tokens",
            ),
        );
    }
    let ghost view = request@;
    let instructions = match request.instructions {
        Some(line) => if line.as_str().is_empty() {
            None
        } else {
            Some(vec![SystemMessage { text: line }])
        },
        None => None,
    };
    proof {
        if let Some(line) = view.instructions {
            if line.len() > 0 {
                assert(system_view(instructions)->0 =~= seq![line]);
            }
        }
        assert(system_view(instructions) == first_instructions(view));
    }
    let input = match map_input(&request.input, instructions) {
        Ok(input) => input,
        Err(error) => {
            return Err(error);
        },
    };
    if let Err(error) = normalize_messages(&input.messages) {
        return Err(error);
    }
    let mut all_tools = request.tools;
    let mut extra_tools = input.tools;
    let ghost own = all_tools@;
    let ghost extra = extra_tools@;
    all_tools.append(&mut extra_tools);
    assert(definitions_view(all_tools@) =~= definitions_view(own) + definitions_view(extra));
    let tools = match map_tools(&all_tools) {
        Ok(tools) => tools,
        Err(error) => {
            return Err(error);
        },
    };
    let tool_choice = match map_tool_choice(&request.tool_choice, &tools) {
        Ok(choice) => choice,
        Err(error) => {
            return Err(error);
        },
    };
    let (thinking, output_config) = match map_reasoning(request.model.as_str(), request.reasoning) {
        Ok(reasoning) => reasoning,
        Err(error) => {
            return Err(error);
        },
    };
    let thinking_enabled = match &thinking {
        Some(thinking) => thinking.is_enabled(),
        None => false,
    };
    let messages = MessagesRequest {
        model: request.model,
        max_tokens: max_output_tokens,
        messages: input.messages,
        stream: request.stream,
        system: input.system,
        tools: if tools.len() == 0 {
            None
        } else {
            Some(tools)
        },
        tool_choice,
        thinking,
        output_config,
        metadata: None,
    };
    Ok(MappedRequest { messages, max_output_tokens, thinking_enabled })
}

} // verus!
