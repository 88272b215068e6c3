//! The input of a request: its items, and the messages that they become.

use vstd::prelude::*;

use crate::anthropic::content::{
    content_to_system_text, map_message_content, message_content, system_text,
};
use crate::anthropic::tools::{decode_tool, definition, definitions_view, DefinitionView, ResponseTool};
use crate::anthropic::types::{
    input_path, input_place, invalid, messages_view, system_view, ErrorView, Message, MessageView,
    RequestError, SystemMessage,
};
use crate::json::{
    array_of_one, arranged, as_text, items_view, json_parse, json_text, lookup, no_fields, parse,
    text, to_text, Fields, Json, JsonView,
};
use crate::rows::{all_ok, lemma_first_error, lemma_next, seen};
use crate::text::{join2, same};

verus! {

/// What an input item becomes.
pub enum ItemView {
    System(Seq<char>),
    Message(MessageView),
    Tools(Seq<DefinitionView>),
    Nothing,
}

/// What the input of a request becomes: instructions, messages, and tool definitions that
/// came among the items.
#[derive(Debug)]
pub struct Input {
    pub system: Option<Vec<SystemMessage>>,
    pub messages: Vec<Message>,
    pub tools: Vec<ResponseTool>,
}

/// The mapped input as plain values.
pub struct InputView {
    pub system: Option<Seq<Seq<char>>>,
    pub messages: Seq<MessageView>,
    pub tools: Seq<DefinitionView>,
}

impl View for Input {
    type V = InputView;

    open spec fn view(&self) -> InputView {
        InputView {
            system: system_view(self.system),
            messages: messages_view(self.messages@),
            tools: definitions_view(self.tools@),
        }
    }
}

/// The text of a field that must be there and not be empty.
pub open spec fn required(
    object: Seq<(Seq<char>, JsonView)>,
    field: Seq<char>,
    index: nat,
) -> Result<Seq<char>, ErrorView> {
    match as_text(lookup(object, field)) {
        Some(value) if value.len() > 0 => Ok(value),
        _ => Err(
            invalid(
                field + " is required and must be a non-empty string"@,
                input_path(index, "."@ + field),
            ),
        ),
    }
}

/// What a message of a role becomes: a system message an instruction, a user's or an
/// assistant's a message.
pub open spec fn message_item(role: Seq<char>, content: JsonView, index: nat) -> Result<
    ItemView,
    ErrorView,
> {
    if role == "system"@ || role == "developer"@ {
        match system_text(content, index) {
            Ok(line) => Ok(ItemView::System(line)),
            Err(error) => Err(error),
        }
    } else if role == "user"@ || role == "assistant"@ {
        match message_content(content, role, index) {
            Ok(content) => Ok(ItemView::Message(MessageView { role, content })),
            Err(error) => Err(error),
        }
    } else {
        Err(invalid("Unsupported message role: "@ + role, input_path(index, ".role"@)))
    }
}

/// The input of a tool call: the object that its raw text encodes. A freeform text that
/// encodes none is put into an object.
pub open spec fn call_input(
    freeform: bool,
    raw: Seq<char>,
    parsed: Result<JsonView, Seq<char>>,
    index: nat,
) -> Result<JsonView, ErrorView> {
    match parsed {
        Ok(JsonView::Object(entries)) => Ok(JsonView::Object(entries)),
        _ => if freeform {
            Ok(JsonView::Object(no_fields().push(("input"@, JsonView::Text(raw)))))
        } else {
            match parsed {
                Ok(_) => Err(
                    invalid(
                        "function_call arguments must encode a JSON object"@,
                        input_path(index, ".arguments"@),
                    ),
                ),
                Err(error) => Err(
                    invalid(
                        "function_call arguments must be valid JSON: "@ + error,
                        input_path(index, ".arguments"@),
                    ),
                ),
            }
        },
    }
}

/// The message for a tool call.
pub open spec fn tool_use_message(id: Seq<char>, name: Seq<char>, input: JsonView) -> MessageView {
    MessageView {
        role: "assistant"@,
        content: JsonView::Array(
            seq![
                JsonView::Object(
                    no_fields().push(("type"@, JsonView::Text("tool_use"@))).push(
                        ("id"@, JsonView::Text(id)),
                    ).push(("name"@, JsonView::Text(name))).push(("input"@, input)),
                ),
            ],
        ),
    }
}

/// The message for what a tool gave back.
pub open spec fn tool_result_message(id: Seq<char>, content: Seq<char>) -> MessageView {
    MessageView {
        role: "user"@,
        content: JsonView::Array(
            seq![
                JsonView::Object(
                    no_fields().push(("type"@, JsonView::Text("tool_result"@))).push(
                        ("tool_use_id"@, JsonView::Text(id)),
                    ).push(("content"@, JsonView::Text(content))),
                ),
            ],
        ),
    }
}

/// The raw text of a tool call, and whether it is freeform: its arguments where they are
/// a text, else its input.
pub open spec fn raw_call(object: Seq<(Seq<char>, JsonView)>, index: nat) -> Result<
    (bool, Seq<char>),
    ErrorView,
> {
    match as_text(lookup(object, "arguments"@)) {
        Some(arguments) => Ok((false, arguments)),
        None => match required(object, "input"@, index) {
            Ok(raw) => Ok((true, raw)),
            Err(error) => Err(error),
        },
    }
}

/// What a tool call among the input items becomes.
pub open spec fn call_item(object: Seq<(Seq<char>, JsonView)>, index: nat) -> Result<
    ItemView,
    ErrorView,
> {
    match required(object, "call_id"@, index) {
        Err(error) => Err(error),
        Ok(id) => match required(object, "name"@, index) {
            Err(error) => Err(error),
            Ok(name) => match raw_call(object, index) {
                Err(error) => Err(error),
                Ok((freeform, raw)) => match call_input(freeform, raw, json_parse(raw), index) {
                    Err(error) => Err(error),
                    Ok(input) => Ok(ItemView::Message(tool_use_message(id, name, input))),
                },
            },
        },
    }
}

/// The text of what a tool gave back: a text as it is, another value as it was written.
pub open spec fn output_text(
    output: JsonView,
    written: Result<Seq<char>, Seq<char>>,
    index: nat,
) -> Result<Seq<char>, ErrorView> {
    match output {
        JsonView::Text(content) => Ok(content),
        _ => match written {
            Ok(content) => Ok(content),
            Err(error) => Err(
                invalid("Invalid function output: "@ + error, input_path(index, ".output"@)),
            ),
        },
    }
}

/// What the output of a tool among the input items becomes.
pub open spec fn output_item(object: Seq<(Seq<char>, JsonView)>, index: nat) -> Result<
    ItemView,
    ErrorView,
> {
    match required(object, "call_id"@, index) {
        Err(error) => Err(error),
        Ok(id) => match lookup(object, "output"@) {
            None => Err(
                invalid("function_call_output output is required"@, input_path(index, ".output"@)),
            ),
            Some(output) => match output_text(output, json_text(arranged(output)), index) {
                Err(error) => Err(error),
                Ok(content) => Ok(ItemView::Message(tool_result_message(id, content))),
            },
        },
    }
}

/// The tool definitions among a row of values; values that hold none are left out.
pub open spec fn readable_tools(items: Seq<JsonView>) -> Seq<DefinitionView>
    decreases items.len(),
{
    if items.len() == 0 {
        Seq::empty()
    } else {
        let front = readable_tools(items.drop_last());
        match definition(items.last()) {
            Some(tool) => front.push(tool),
            None => front,
        }
    }
}

/// What an input item becomes, or what is wrong with it. Items of an unknown type become
/// nothing.
pub open spec fn input_item(item: JsonView, index: nat) -> Result<ItemView, ErrorView> {
    match item {
        JsonView::Object(object) => {
            let kind = match as_text(lookup(object, "type"@)) {
                Some(kind) => kind,
                None => "message"@,
            };
            if kind == "message"@ {
                match required(object, "role"@, index) {
                    Err(error) => Err(error),
                    Ok(role) => match lookup(object, "content"@) {
                        None => Err(
                            invalid(
                                "message content is required"@,
                                input_path(index, ".content"@),
                            ),
                        ),
                        Some(content) => message_item(role, content, index),
                    },
                }
            } else if kind == "function_call"@ || kind == "custom_tool_call"@ {
                call_item(object, index)
            } else if kind == "function_call_output"@ || kind == "custom_tool_call_output"@ {
                output_item(object, index)
            } else if kind == "additional_tools"@ {
                match lookup(object, "tools"@) {
                    Some(JsonView::Array(items)) => Ok(ItemView::Tools(readable_tools(items))),
                    _ => Ok(ItemView::Nothing),
                }
            } else {
                Ok(ItemView::Nothing)
            }
        },
        _ => Err(invalid("input items must be objects"@, input_path(index, ""@))),
    }
}

/// The items of an input, each with what it becomes or what is wrong with it.
pub open spec fn input_items(items: Seq<JsonView>) -> Seq<Result<ItemView, ErrorView>> {
    Seq::new(items.len(), |i: int| input_item(items[i], i as nat))
}

/// The input with one more item.
pub open spec fn with_item(input: InputView, item: ItemView) -> InputView {
    match item {
        ItemView::System(line) => InputView {
            system: Some(
                match input.system {
                    Some(lines) => lines.push(line),
                    None => seq![line],
                },
            ),
            ..input
        },
        ItemView::Message(message) => InputView {
            messages: input.messages.push(message),
            ..input
        },
        ItemView::Tools(tools) => InputView { tools: input.tools + tools, ..input },
        ItemView::Nothing => input,
    }
}

/// The input with a row of items.
pub open spec fn with_items(input: InputView, items: Seq<ItemView>) -> InputView
    decreases items.len(),
{
    if items.len() == 0 {
        input
    } else {
        with_item(with_items(input, items.drop_last()), items.last())
    }
}

/// What the input of a request becomes, `system` before the instructions in it; or what
/// is wrong with it.
pub open spec fn mapped_input(input: JsonView, system: Option<Seq<Seq<char>>>) -> Result<
    InputView,
    ErrorView,
> {
    let before = InputView { system, messages: Seq::empty(), tools: Seq::empty() };
    match input {
        JsonView::Text(content) => if content.len() == 0 {
            Err(invalid("input must not be empty"@, "input"@))
        } else {
            Ok(
                with_item(
                    before,
                    ItemView::Message(
                        MessageView { role: "user"@, content: JsonView::Text(content) },
                    ),
                ),
            )
        },
        JsonView::Array(items) => if items.len() == 0 {
            Err(invalid("input must not be empty"@, "input"@))
        } else {
            match all_ok(input_items(items)) {
                Err(error) => Err(error),
                Ok(found) => {
                    let after = with_items(before, found);
                    if after.messages.len() == 0 {
                        Err(invalid("input must contain a user or assistant item"@, "input"@))
                    } else {
                        Ok(after)
                    }
                },
            }
        },
        _ => Err(invalid("input must be a string or an array"@, "input"@)),
    }
}

/// What is wrong with a row of messages: it needs one of the user, and one of the user at
/// its end.
pub open spec fn turn_error(messages: Seq<MessageView>) -> Option<ErrorView> {
    if !exists|i: int| 0 <= i < messages.len() && (#[trigger] messages[i]).role == "user"@ {
        Some(invalid("input must contain a user message or function_call_output"@, "input"@))
    } else if messages.last().role != "user"@ {
        Some(
            invalid(
                "The final input item must be a user message or function_call_output"@,
                "input"@,
            ),
        )
    } else {
        None
    }
}

/// The text of a field that must be there and not be empty.
fn required_string<'a>(object: &'a Fields, field: &str, index: usize) -> (r: Result<
    &'a str,
    RequestError,
>)
    ensures
        seen(r) == required(object@, field@, index as nat),
{
    match object.get_text(field) {
        Some(value) if !value.is_empty() => Ok(value),
        _ => Err(
            RequestError::new(
                join2(field, " is required and must be a non-empty string").as_str(),
                input_place(index, join2(".", field).as_str()).as_str(),
            ),
        ),
    }
}

impl Input {
    /// Nothing but instructions.
    fn new(system: Option<Vec<SystemMessage>>) -> (r: Input)
        ensures
            r@ == (InputView {
                system: system_view(system),
                messages: Seq::empty(),
                tools: Seq::empty(),
            }),
    {
        let r = Input { system, messages: Vec::new(), tools: Vec::new() };
        assert(r@.messages =~= Seq::<MessageView>::empty());
        assert(r@.tools =~= Seq::<DefinitionView>::empty());
        r
    }

    /// One more instruction.
    fn push_system(&mut self, line: String)
        ensures
            final(self)@ == with_item(old(self)@, ItemView::System(line@)),
    {
        let mut lines = match self.system.take() {
            Some(lines) => lines,
            None => Vec::new(),
        };
        let ghost before = lines@;
        lines.push(SystemMessage { text: line });
        assert(lines@.map_values(|m: SystemMessage| m.text@) =~= before.map_values(
            |m: SystemMessage| m.text@,
        ).push(line@));
        self.system = Some(lines);
        proof {
            if old(self).system is None {
                assert(self@.system->0 =~= seq![line@]);
            }
        }
    }

    /// One more message.
    fn push_message(&mut self, message: Message)
        ensures
            final(self)@ == with_item(old(self)@, ItemView::Message(message@)),
    {
        self.messages.push(message);
        assert(self@.messages =~= old(self)@.messages.push(message@));
    }

    /// One more tool definition.
    fn push_tool(&mut self, tool: ResponseTool)
        ensures
            final(self)@ == (InputView { tools: old(self)@.tools.push(tool@), ..old(self)@ }),
    {
        self.tools.push(tool);
        assert(self@.tools =~= old(self)@.tools.push(tool@));
    }
}

/// Adds a message of a role to the input.
fn map_message(role: &str, content: &Json, index: usize, input: &mut Input) -> (r: Result<
    (),
    RequestError,
>)
    ensures
        match message_item(role@, content@, index as nat) {
            Ok(item) => r is Ok && final(input)@ == with_item(old(input)@, item),
            Err(error) => r matches Err(found) && found@ == error && *final(input) == *old(input),
        },
{
    if same(role, "system") || same(role, "developer") {
        let line = match content_to_system_text(content, index) {
            Ok(line) => line,
            Err(error) => {
                return Err(error);
            },
        };
        input.push_system(line);
        return Ok(());
    }
    if !(same(role, "user") || same(role, "assistant")) {
        return Err(
            RequestError::new(
                join2("Unsupported message role: ", role).as_str(),
                input_place(index, ".role").as_str(),
            ),
        );
    }
    match map_message_content(content, role, index) {
        Ok(content) => {
            input.push_message(Message { role: role.to_owned(), content });
            Ok(())
        },
        Err(error) => Err(error),
    }
}

/// The input of a tool call: the object that its raw text encodes, as it was parsed. A
/// freeform text that encodes none is put into an object.
pub fn map_call_input(freeform: bool, raw: &str, parsed: Result<Json, String>, index: usize) -> (r:
    Result<Json, RequestError>)
    ensures
        seen(r) == call_input(freeform, raw@, seen(parsed), index as nat),
{
    match parsed {
        Ok(value) => {
            if value.as_object().is_some() {
                return Ok(value);
            }
            if freeform {
                return Ok(Fields::new().with("input", text(raw)).into_object());
            }
            Err(
                RequestError::new(
                    "function_call arguments must encode a JSON object",
                    input_place(index, ".arguments").as_str(),
                ),
            )
        },
        Err(error) => {
            if freeform {
                return Ok(Fields::new().with("input", text(raw)).into_object());
            }
            Err(
                RequestError::new(
                    join2("function_call arguments must be valid JSON: ", error.as_str()).as_str(),
                    input_place(index, ".arguments").as_str(),
                ),
            )
        },
    }
}

/// Adds a tool call to the input.
fn map_function_call(object: &Fields, index: usize, input: &mut Input) -> (r: Result<
    (),
    RequestError,
>)
    ensures
        match call_item(object@, index as nat) {
            Ok(item) => r is Ok && final(input)@ == with_item(old(input)@, item),
            Err(error) => r matches Err(found) && found@ == error && *final(input) == *old(input),
        },
{
    let call_id = match required_string(object, "call_id", index) {
        Ok(call_id) => call_id,
        Err(error) => {
            return Err(error);
        },
    };
    let name = match required_string(object, "name", index) {
        Ok(name) => name,
        Err(error) => {
            return Err(error);
        },
    };
    let (freeform, raw) = match object.get_text("arguments") {
        Some(arguments) => (false, arguments),
        None => match required_string(object, "input", index) {
            Ok(raw) => (true, raw),
            Err(error) => {
                return Err(error);
            },
        },
    };
    let call = match map_call_input(freeform, raw, parse(raw), index) {
        Ok(call) => call,
        Err(error) => {
            return Err(error);
        },
    };
    let block = Fields::new().with("type", text("tool_use")).with("id", text(call_id)).with(
        "name",
        text(name),
    ).with("input", call).into_object();
    input.push_message(Message { role: "assistant".to_owned(), content: array_of_one(block) });
    Ok(())
}

/// The text of what a tool gave back: a text as it is, another value as it was written.
pub fn map_output_text(output: &Json, written: Result<String, String>, index: usize) -> (r: Result<
    String,
    RequestError,
>)
    ensures
        seen(r) == output_text(output@, seen(written), index as nat),
{
    if let Some(content) = output.as_str() {
        return Ok(content.to_owned());
    }
    match written {
        Ok(content) => Ok(content),
        Err(error) => Err(
            RequestError::new(
                join2("Invalid function output: ", error.as_str()).as_str(),
                input_place(index, ".output").as_str(),
            ),
        ),
    }
}

/// Adds the output of a tool to the input.
fn map_function_output(object: &Fields, index: usize, input: &mut Input) -> (r: Result<
    (),
    RequestError,
>)
    ensures
        match output_item(object@, index as nat) {
            Ok(item) => r is Ok && final(input)@ == with_item(old(input)@, item),
            Err(error) => r matches Err(found) && found@ == error && *final(input) == *old(input),
        },
{
    let call_id = match required_string(object, "call_id", index) {
        Ok(call_id) => call_id,
        Err(error) => {
            return Err(error);
        },
    };
    let output = match object.get("output") {
        Some(output) => output,
        None => {
            return Err(
                RequestError::new(
                    "function_call_output output is required",
                    input_place(index, ".output").as_str(),
                ),
            );
        },
    };
    let content = match map_output_text(output, to_text(output), index) {
        Ok(content) => content,
        Err(error) => {
            return Err(error);
        },
    };
    let block = Fields::new().with("type", text("tool_result")).with(
        "tool_use_id",
        text(call_id),
    ).with("content", text(content.as_str())).into_object();
    input.push_message(Message { role: "user".to_owned(), content: array_of_one(block) });
    Ok(())
}

/// Adds the tool definitions among a row of values to the input.
fn add_tools(items: &Vec<Json>, input: &mut Input)
    ensures
        final(input)@ == with_item(
            old(input)@,
            ItemView::Tools(readable_tools(items_view(items@))),
        ),
{
    let ghost all = items_view(items@);
    let ghost before = input@;
    assert(before.tools + readable_tools(all.take(0)) =~= before.tools);
    for i in 0..items.len()
        invariant
            all == items_view(items@),
            input@ == with_item(before, ItemView::Tools(readable_tools(all.take(i as int)))),
    {
        assert(all.take(i + 1).drop_last() =~= all.take(i as int));
        if let Some(tool) = decode_tool(&items[i]) {
            input.push_tool(tool);
            assert((before.tools + readable_tools(all.take(i as int))).push(tool@) =~= before.tools
                + readable_tools(all.take(i + 1)));
        }
    }
    assert(all.take(all.len() as int) =~= all);
}

/// Adds an input item to the input.
fn map_input_item(item: &Json, index: usize, input: &mut Input) -> (r: Result<(), RequestError>)
    ensures
        match input_item(item@, index as nat) {
            Ok(found) => r is Ok && final(input)@ == with_item(old(input)@, found),
            Err(error) => r matches Err(found) && found@ == error && *final(input) == *old(input),
        },
{
    let object = match item.as_object() {
        Some(object) => object,
        None => {
            return Err(
                RequestError::new("input items must be objects", input_place(index, "").as_str()),
            );
        },
    };
    let kind = match object.get_text("type") {
        Some(kind) => kind,
        None => "message",
    };
    if same(kind, "message") {
        let role = match required_string(object, "role", index) {
            Ok(role) => role,
            Err(error) => {
                return Err(error);
            },
        };
        match object.get("content") {
            Some(content) => map_message(role, content, index, input),
            None => Err(
                RequestError::new(
                    "message content is required",
                    input_place(index, ".content").as_str(),
                ),
            ),
        }
    } else if same(kind, "function_call") || same(kind, "custom_tool_call") {
        map_function_call(object, index, input)
    } else if same(kind, "function_call_output") || same(kind, "custom_tool_call_output") {
        map_function_output(object, index, input)
    } else if same(kind, "additional_tools") {
        if let Some(value) = object.get("tools") {
            if let Some(items) = value.as_array() {
                add_tools(items, input);
            }
        }
        Ok(())
    } else {
        Ok(())
    }
}

/// What the input of a request becomes, `system` before the instructions in it.
pub fn map_input(input: &Json, system: Option<Vec<SystemMessage>>) -> (r: Result<
    Input,
    RequestError,
>)
    ensures
        seen(r) == mapped_input(input@, system_view(system)),
{
    let mut mapped = Input::new(system);
    let ghost before = mapped@;
    if let Some(content) = input.as_str() {
        if content.is_empty() {
            return Err(RequestError::new("input must not be empty", "input"));
        }
        mapped.push_message(Message { role: "user".to_owned(), content: text(content) });
        return Ok(mapped);
    }
    let items = match input.as_array() {
        Some(items) => items,
        None => {
            return Err(RequestError::new("input must be a string or an array", "input"));
        },
    };
    if items.len() == 0 {
        return Err(RequestError::new("input must not be empty", "input"));
    }
    let ghost results = input_items(items_view(items@));
    assert(results.take(0) =~= Seq::empty());
    for index in 0..items.len()
        invariant
            items@.len() > 0,
            input@ == JsonView::Array(items_view(items@)),
            results == input_items(items_view(items@)),
            before == (InputView {
                system: system_view(system),
                messages: Seq::empty(),
                tools: Seq::empty(),
            }),
            all_ok(results.take(index as int)) is Ok,
            mapped@ == with_items(before, all_ok(results.take(index as int))->Ok_0),
    {
        let ghost found = all_ok(results.take(index as int))->Ok_0;
        proof {
            lemma_next(results, index as int);
        }
        if let Err(error) = map_input_item(&items[index], index, &mut mapped) {
            proof {
                lemma_first_error(results, index + 1);
            }
            return Err(error);
        }
        assert(found.push(results[index as int]->Ok_0).drop_last() =~= found);
    }
    assert(results.take(results.len() as int) =~= results);
    if mapped.messages.len() == 0 {
        return Err(RequestError::new("input must contain a user or assistant item", "input"));
    }
    Ok(mapped)
}

/// Whether a row of messages can be answered: it needs one of the user, and one of the
/// user at its end.
pub fn normalize_messages(messages: &Vec<Message>) -> (r: Result<(), RequestError>)
    ensures
        match turn_error(messages_view(messages@)) {
            Some(error) => r matches Err(found) && found@ == error,
            None => r is Ok,
        },
{
    let ghost all = messages_view(messages@);
    let mut any = false;
    for i in 0..messages.len()
        invariant
            all == messages_view(messages@),
            any == exists|j: int| 0 <= j < i && (#[trigger] all[j]).role == "user"@,
    {
        assert(all[i as int] == messages@[i as int]@);
        if same(messages[i].role.as_str(), "user") {
            any = true;
        }
    }
    if !any {
        return Err(
            RequestError::new("input must contain a user message or function_call_output", "input"),
        );
    }
    assert(all.last() == messages@.last()@);
    if !same(messages[messages.len() - 1].role.as_str(), "user") {
        return Err(
            RequestError::new(
                "The final input item must be a user message or function_call_output",
                "input",
            ),
        );
    }
    Ok(())
}

} // verus!
