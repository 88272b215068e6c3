//! What a request becomes, part by part and field by field.

use vstd::prelude::*;

use crate::anthropic::content::{
    content_part, content_parts, data_of, data_url, data_url_head, message_content, system_parts,
    system_text,
};
use crate::anthropic::input::{
    input_item, input_items, mapped_input, output_text, readable_tools, required, turn_error,
    with_items, InputView, ItemView,
};
use crate::anthropic::reasoning::reasoning_for;
use crate::anthropic::reply::{
    admitted, conversion_problem, provider_reply, request_reply, service_reply, ConversionError,
    ErrorReply, ReplyView,
};
use crate::anthropic::responses::{mapped_request, MappedRequest, RequestView, ResponsesRequest};
use crate::anthropic::tools::{
    definition, definitions, function_tool, functions, functions_of, inner_functions, inner_path,
    lemma_same_front, mapped_tools, tool_choice, tool_path, DefinitionView,
};
use crate::anthropic::types::{
    input_path, messages_view, part_path, system_view, ErrorView, MessageView, RequestError,
    ToolView,
};
use crate::json::{
    arranged, as_text, field, json_parse, json_text, lemma_lookup_nothing, lemma_lookup_pushed,
    lookup, text_field, JsonView,
};
use crate::rows::{all_ok, law_all_or_first_error, lemma_picked_push, lemma_push};
use crate::text::{dec, is_blank, joined, lower_case, maybe_text, occurs_in};

verus! {

/// The names of the fields of a block are not the same.
proof fn lemma_block_names()
    ensures
        "id"@.len() == 2,
        "type"@.len() == 4 && "type"@[0] == 't' && "type"@[1] == 'y',
        "text"@.len() == 4 && "text"@[0] == 't' && "text"@[1] == 'e',
        "name"@.len() == 4 && "name"@[0] == 'n',
        "data"@.len() == 4 && "data"@[0] == 'd',
        "input"@.len() == 5,
        "source"@.len() == 6,
        "content"@.len() == 7,
        "media_type"@.len() == 10 && "media_type"@[0] == 'm',
        "properties"@.len() == 10 && "properties"@[0] == 'p',
        "tool_use_id"@.len() == 11,
{
    reveal_strlit("id");
    reveal_strlit("type");
    reveal_strlit("text");
    reveal_strlit("name");
    reveal_strlit("data");
    reveal_strlit("input");
    reveal_strlit("source");
    reveal_strlit("content");
    reveal_strlit("media_type");
    reveal_strlit("properties");
    reveal_strlit("tool_use_id");
}

/// The kinds of parts are not the same.
proof fn lemma_part_kinds()
    ensures
        "text"@.len() == 4,
        "input_text"@.len() == 10,
        "output_text"@.len() == 11 && "output_text"@[0] == 'o',
        "input_image"@.len() == 11 && "input_image"@[0] == 'i',
{
    reveal_strlit("text");
    reveal_strlit("input_text");
    reveal_strlit("output_text");
    reveal_strlit("input_image");
}

/// A part that holds text, and the text.
pub open spec fn is_text_part_of(part: JsonView, content: Seq<char>) -> bool {
    &&& {
        ||| text_field(part, "type"@) == Some("text"@)
        ||| text_field(part, "type"@) == Some("input_text"@)
        ||| text_field(part, "type"@) == Some("output_text"@)
    }
    &&& text_field(part, "text"@) == Some(content)
}

/// A part that holds an image, and the image.
pub open spec fn is_image_part_of(part: JsonView, media_type: Seq<char>, data: Seq<char>) -> bool {
    &&& text_field(part, "type"@) == Some("input_image"@)
    &&& text_field(part, "image_url"@) == Some("data:"@ + media_type + ";base64,"@ + data)
    &&& data.len() > 0
    &&& {
        ||| media_type == "image/jpeg"@
        ||| media_type == "image/png"@
        ||| media_type == "image/gif"@
        ||| media_type == "image/webp"@
    }
}

/// A block that says a text.
pub open spec fn is_text_block(block: JsonView, content: Seq<char>) -> bool {
    text_field(block, "type"@) == Some("text"@) && text_field(block, "text"@) == Some(content)
}

/// A block that shows an image.
pub open spec fn is_image_block(block: JsonView, media_type: Seq<char>, data: Seq<char>) -> bool {
    &&& text_field(block, "type"@) == Some("image"@)
    &&& field(block, "source"@) matches Some(source) && {
        &&& text_field(source, "type"@) == Some("base64"@)
        &&& text_field(source, "media_type"@) == Some(media_type)
        &&& text_field(source, "data"@) == Some(data)
    }
}

/// A URL that reads as an image is made of the image's media type and its data.
pub proof fn law_image_is_what_the_url_says(url: Seq<char>)
    ensures
        data_url(url) matches Some((media_type, data)) ==> url == "data:"@ + media_type
            + ";base64,"@ + data && data.len() > 0 && (media_type == "image/jpeg"@ || media_type
            == "image/png"@ || media_type == "image/gif"@ || media_type == "image/webp"@),
{
    if let Some((media_type, data)) = data_url(url) {
        let head = data_url_head(media_type);
        assert(data_of(url, media_type) == Some(data));
        assert(url =~= head + data);
    }
}

/// The block of a part says the text, or shows the image, of the part. A part that holds
/// neither, or an image that is not the user's, has none.
pub proof fn law_block_is_its_part(part: JsonView, role: Seq<char>, index: nat, at: nat)
    ensures
        match content_part(part, role, index, at) {
            Ok(block) => (exists|content: Seq<char>| #[trigger]
                is_text_part_of(part, content) && is_text_block(block, content)) || (role
                == "user"@ && exists|media_type: Seq<char>, data: Seq<char>| #[trigger]
                is_image_part_of(part, media_type, data) && is_image_block(
                    block,
                    media_type,
                    data,
                )),
            Err(error) => {
                &&& forall|content: Seq<char>| !#[trigger] is_text_part_of(part, content)
                &&& role == "user"@ ==> forall|media_type: Seq<char>, data: Seq<char>|
                    !#[trigger] is_image_part_of(part, media_type, data)
                &&& error.code == Some("invalid_value"@)
                &&& error.param matches Some(param) && ("input["@ + dec(index) + "].content["@
                    + dec(at) + "]"@).is_prefix_of(param)
            },
        },
{
    broadcast use {lemma_lookup_pushed, lemma_lookup_nothing};

    lemma_block_names();
    lemma_part_kinds();
    let kind = text_field(part, "type"@);
    match content_part(part, role, index, at) {
        Ok(block) => {
            if kind == Some("input_image"@) {
                let url = text_field(part, "image_url"@)->0;
                let (media_type, data) = data_url(url)->0;
                law_image_is_what_the_url_says(url);
                assert(is_image_part_of(part, media_type, data));
            } else {
                assert(is_text_part_of(part, text_field(part, "text"@)->0));
            }
        },
        Err(error) => {
            if role == "user"@ {
                assert forall|media_type: Seq<char>, data: Seq<char>|
                    !#[trigger] is_image_part_of(part, media_type, data) by {
                    if is_image_part_of(part, media_type, data) {
                        crate::anthropic::content::law_data_url_is_read_back(media_type, data);
                    }
                }
            }
            lemma_part_path(index, at, error.param->0);
        },
    }
}

/// The place of a part begins with the place of its item.
proof fn lemma_part_path(index: nat, at: nat, param: Seq<char>)
    requires
        exists|rest: Seq<char>| param == #[trigger] part_path(index, at, rest),
    ensures
        ("input["@ + dec(index) + "].content["@ + dec(at) + "]"@).is_prefix_of(param),
{
    let rest = choose|rest: Seq<char>| param == #[trigger] part_path(index, at, rest);
    reveal_strlit("]");
    reveal_strlit(".content[");
    reveal_strlit("].content[");
    let head = "input["@ + dec(index) + "].content["@ + dec(at) + "]"@;
    assert("].content["@ =~= "]"@ + ".content["@);
    assert(param =~= head + rest);
}

/// A message of parts becomes a block for each part, in their order: as many, and each of
/// its part. It is refused only where one of its parts has no block, or where there are
/// none. A message that is a text stays the text.
pub proof fn law_every_part_becomes_a_block(content: JsonView, role: Seq<char>, index: nat)
    ensures
        match content {
            JsonView::Array(parts) => match message_content(content, role, index) {
                Ok(JsonView::Array(blocks)) => {
                    &&& parts.len() > 0
                    &&& blocks.len() == parts.len()
                    &&& forall|i: int|
                        0 <= i < parts.len() ==> content_part(
                            #[trigger] parts[i],
                            role,
                            index,
                            i as nat,
                        ) == Ok::<JsonView, ErrorView>(blocks[i])
                },
                Ok(_) => false,
                Err(error) => parts.len() == 0 || exists|i: int|
                    0 <= i < parts.len() && content_part(#[trigger] parts[i], role, index, i as nat)
                        == Err::<JsonView, ErrorView>(error) && forall|j: int|
                        0 <= j < i ==> content_part(
                            #[trigger] parts[j],
                            role,
                            index,
                            j as nat,
                        ) is Ok,
            },
            JsonView::Text(said) => match message_content(content, role, index) {
                Ok(kept) => kept == content && said.len() > 0,
                Err(_) => said.len() == 0,
            },
            _ => message_content(content, role, index) is Err,
        },
{
    if let JsonView::Array(parts) = content {
        let results = content_parts(parts, role, index);
        law_all_or_first_error(results);
        match all_ok(results) {
            Ok(blocks) => {
                assert forall|i: int| 0 <= i < parts.len() implies content_part(
                    #[trigger] parts[i],
                    role,
                    index,
                    i as nat,
                ) == Ok::<JsonView, ErrorView>(blocks[i]) by {
                    assert(results[i] == Ok::<JsonView, ErrorView>(blocks[i]));
                }
            },
            Err(error) => {
                let i = choose|i: int|
                    0 <= i < results.len() && #[trigger] results[i] == Err::<JsonView, ErrorView>(
                        error,
                    ) && forall|j: int| 0 <= j < i ==> (#[trigger] results[j]) is Ok;
                assert forall|j: int| 0 <= j < i implies content_part(
                    #[trigger] parts[j],
                    role,
                    index,
                    j as nat,
                ) is Ok by {
                    assert(results[j] is Ok);
                }
                assert(content_part(parts[i], role, index, i as nat) == results[i]);
            },
        }
    }
}

/// A part that says something as an instruction, and what it says.
pub open spec fn instructs(part: JsonView, content: Seq<char>) -> bool {
    &&& part is Object
    &&& {
        ||| text_field(part, "type"@) is None
        ||| text_field(part, "type"@) == Some("text"@)
        ||| text_field(part, "type"@) == Some("input_text"@)
        ||| text_field(part, "type"@) == Some("output_text"@)
    }
    &&& text_field(part, "text"@) == Some(content)
}

/// The instruction of one part is what the part says; each further part is put behind, on a
/// line of its own. A text that is not empty is the instruction as it is.
pub proof fn law_instruction_is_all_of_its_lines(
    parts: Seq<JsonView>,
    part: JsonView,
    content: Seq<char>,
    index: nat,
)
    requires
        instructs(part, content),
    ensures
        parts.len() == 0 ==> system_text(JsonView::Array(parts.push(part)), index) == Ok::<
            Seq<char>,
            ErrorView,
        >(content),
        system_text(JsonView::Array(parts), index) matches Ok(before) ==> system_text(
            JsonView::Array(parts.push(part)),
            index,
        ) == Ok::<Seq<char>, ErrorView>(before + "\n"@ + content),
        content.len() > 0 ==> system_text(JsonView::Text(content), index) == Ok::<
            Seq<char>,
            ErrorView,
        >(content),
{
    let results = system_parts(parts, index);
    let longer = system_parts(parts.push(part), index);
    assert(longer =~= results.push(Ok(content)));
    lemma_push(results, Ok(content));
    if parts.len() == 0 {
        assert(results =~= Seq::empty());
        assert(all_ok(longer)->Ok_0 =~= seq![content]);
        assert(joined(seq![content], "\n"@) == content);
    }
    if let Ok(lines) = all_ok(results) {
        if lines.len() > 0 {
            assert(lines.push(content).drop_last() =~= lines);
            assert(joined(lines.push(content), "\n"@) =~= joined(lines, "\n"@) + "\n"@ + content);
        }
    }
}

/// A part that says something as an instruction.
pub open spec fn is_instruction(part: JsonView) -> bool {
    exists|content: Seq<char>| instructs(part, content)
}

/// An instruction is refused where one of its parts says nothing as one, or where it is
/// empty.
pub proof fn law_instruction_of_other_parts_is_refused(parts: Seq<JsonView>, index: nat)
    ensures
        system_text(JsonView::Array(parts), index) is Ok <==> parts.len() > 0 && forall|i: int|
            0 <= i < parts.len() ==> is_instruction(#[trigger] parts[i]),
{
    let results = system_parts(parts, index);
    law_all_or_first_error(results);
    assert forall|i: int| 0 <= i < parts.len() implies (#[trigger] results[i] is Ok
        <==> is_instruction(parts[i])) by {
        if results[i] is Ok {
            assert(instructs(parts[i], results[i]->Ok_0));
        }
    }
    match all_ok(results) {
        Ok(lines) => {
            assert forall|i: int| 0 <= i < parts.len() implies is_instruction(
                #[trigger] parts[i],
            ) by {
                assert(results[i] == Ok::<Seq<char>, ErrorView>(lines[i]));
            }
        },
        Err(error) => {
            let i = choose|i: int|
                0 <= i < results.len() && #[trigger] results[i] == Err::<Seq<char>, ErrorView>(
                    error,
                ) && forall|j: int| 0 <= j < i ==> (#[trigger] results[j]) is Ok;
            assert(!is_instruction(parts[i]));
        },
    }
}

/// The kinds of items are not the same.
proof fn lemma_item_kinds()
    ensures
        "message"@.len() == 7,
        "function_call"@.len() == 13,
        "custom_tool_call"@.len() == 16 && "custom_tool_call"@[0] == 'c',
        "additional_tools"@.len() == 16 && "additional_tools"@[0] == 'a',
        "function_call_output"@.len() == 20,
        "custom_tool_call_output"@.len() == 23,
{
    reveal_strlit("message");
    reveal_strlit("function_call");
    reveal_strlit("custom_tool_call");
    reveal_strlit("additional_tools");
    reveal_strlit("function_call_output");
    reveal_strlit("custom_tool_call_output");
}

/// A message that is a single block.
pub open spec fn only_block(message: MessageView) -> JsonView {
    match message.content {
        JsonView::Array(blocks) => if blocks.len() == 1 {
            blocks[0]
        } else {
            JsonView::Null
        },
        _ => JsonView::Null,
    }
}

/// The input of a call, as its item gives it: what its arguments encode. A call without
/// arguments has a freeform input, which may be any text.
pub open spec fn gives_input(item: JsonView, input: JsonView) -> bool {
    &&& input is Object
    &&& match text_field(item, "arguments"@) {
        Some(arguments) => json_parse(arguments) == Ok::<JsonView, Seq<char>>(input),
        None => text_field(item, "input"@) matches Some(raw) && raw.len() > 0 && (json_parse(raw)
            == Ok::<JsonView, Seq<char>>(input) || (!(json_parse(raw) matches Ok(
            JsonView::Object(_),
        )) && text_field(input, "input"@) == Some(raw))),
    }
}

/// A text of a field that is not empty.
pub open spec fn is_given(item: JsonView, name: Seq<char>) -> bool {
    text_field(item, name) matches Some(value) && value.len() > 0
}

/// A tool call among the input items becomes a message of the assistant that calls the same
/// tool under the same id with the same input. It is refused only where one of these is
/// missing or cannot be read.
pub proof fn law_call_is_passed_on(item: JsonView, index: nat)
    requires
        text_field(item, "type"@) == Some("function_call"@) || text_field(item, "type"@) == Some(
            "custom_tool_call"@,
        ),
    ensures
        match input_item(item, index) {
            Ok(ItemView::Message(message)) => {
                let block = only_block(message);
                &&& message.role == "assistant"@
                &&& text_field(block, "type"@) == Some("tool_use"@)
                &&& is_given(item, "call_id"@)
                &&& text_field(block, "id"@) == text_field(item, "call_id"@)
                &&& is_given(item, "name"@)
                &&& text_field(block, "name"@) == text_field(item, "name"@)
                &&& field(block, "input"@) matches Some(input) && gives_input(item, input)
            },
            Ok(_) => false,
            Err(_) => {
                ||| !is_given(item, "call_id"@)
                ||| !is_given(item, "name"@)
                ||| match text_field(item, "arguments"@) {
                    Some(arguments) => !(json_parse(arguments) matches Ok(JsonView::Object(_))),
                    None => !is_given(item, "input"@),
                }
            },
        },
{
    broadcast use {lemma_lookup_pushed, lemma_lookup_nothing};

    lemma_item_kinds();
    lemma_block_names();
    reveal_strlit("input");
}

/// What a tool gave back becomes a message of the user that answers the call of the same
/// id: with the same text, or with the text of any other value.
pub proof fn law_output_is_passed_on(item: JsonView, index: nat)
    requires
        text_field(item, "type"@) == Some("function_call_output"@) || text_field(item, "type"@)
            == Some("custom_tool_call_output"@),
    ensures
        match input_item(item, index) {
            Ok(ItemView::Message(message)) => {
                let block = only_block(message);
                &&& message.role == "user"@
                &&& text_field(block, "type"@) == Some("tool_result"@)
                &&& is_given(item, "call_id"@)
                &&& text_field(block, "tool_use_id"@) == text_field(item, "call_id"@)
                &&& match field(item, "output"@) {
                    Some(JsonView::Text(said)) => text_field(block, "content"@) == Some(said),
                    Some(output) => text_field(block, "content"@) matches Some(written)
                        && json_text(arranged(output)) == Ok::<Seq<char>, Seq<char>>(written),
                    None => false,
                }
            },
            Ok(_) => false,
            Err(_) => {
                ||| !is_given(item, "call_id"@)
                ||| match field(item, "output"@) {
                    Some(JsonView::Text(_)) => false,
                    Some(output) => json_text(arranged(output)) is Err,
                    None => true,
                }
            },
        },
{
    broadcast use {lemma_lookup_pushed, lemma_lookup_nothing};

    lemma_item_kinds();
    lemma_block_names();
}

/// A message among the input items stays a message of the same role with the content that
/// it has, or becomes the instruction that it holds where the system or the developer
/// speaks. An item that does not say what it is is a message.
pub proof fn law_message_is_passed_on(item: JsonView, index: nat)
    requires
        item is Object,
        text_field(item, "type"@) is None || text_field(item, "type"@) == Some("message"@),
    ensures
        match (text_field(item, "role"@), field(item, "content"@)) {
            (Some(role), Some(content)) => if role == "user"@ || role == "assistant"@ {
                match message_content(content, role, index) {
                    Ok(kept) => input_item(item, index) matches Ok(ItemView::Message(message))
                        && message.role == role && message.content == kept,
                    Err(error) => input_item(item, index) == Err::<ItemView, ErrorView>(error),
                }
            } else if role == "system"@ || role == "developer"@ {
                match system_text(content, index) {
                    Ok(line) => input_item(item, index) == Ok::<ItemView, ErrorView>(
                        ItemView::System(line),
                    ),
                    Err(error) => input_item(item, index) == Err::<ItemView, ErrorView>(error),
                }
            } else {
                input_item(item, index) is Err
            },
            _ => input_item(item, index) is Err,
        },
{
    reveal_strlit("user");
    reveal_strlit("assistant");
    reveal_strlit("system");
    reveal_strlit("developer");
    assert("user"@.len() == 4 && "assistant"@.len() == 9 && "system"@.len() == 6 && "developer"@.len()
        == 9);
    assert("assistant"@[0] == 'a' && "developer"@[0] == 'd');
    lemma_item_kinds();
}

/// Tools among the input items are those that can be read, in their order; an item of any
/// other type becomes nothing, and what is no object is refused.
pub proof fn law_other_items(item: JsonView, index: nat)
    ensures
        text_field(item, "type"@) == Some("additional_tools"@) ==> match field(item, "tools"@) {
            Some(JsonView::Array(tools)) => input_item(item, index) == Ok::<ItemView, ErrorView>(
                ItemView::Tools(tools.filter_map(|tool: JsonView| definition(tool))),
            ),
            _ => input_item(item, index) == Ok::<ItemView, ErrorView>(ItemView::Nothing),
        },
        text_field(item, "type"@) matches Some(kind) ==> kind != "message"@ && kind
            != "function_call"@ && kind != "custom_tool_call"@ && kind != "function_call_output"@
            && kind != "custom_tool_call_output"@ && kind != "additional_tools"@ ==> input_item(
            item,
            index,
        ) == Ok::<ItemView, ErrorView>(ItemView::Nothing),
        !(item is Object) ==> input_item(item, index) is Err,
{
    lemma_item_kinds();
    if let Some(JsonView::Array(tools)) = field(item, "tools"@) {
        lemma_readable_tools(tools);
    }
}

proof fn lemma_readable_tools(items: Seq<JsonView>)
    ensures
        readable_tools(items) == items.filter_map(|tool: JsonView| definition(tool)),
    decreases items.len(),
{
    let read = |tool: JsonView| definition(tool);
    if items.len() == 0 {
        assert(readable_tools(items) =~= items.filter_map(read));
    } else {
        lemma_readable_tools(items.drop_last());
        lemma_picked_push(items.drop_last(), items.last(), read);
        assert(items.drop_last().push(items.last()) =~= items);
    }
}

/// Picks the message that an item becomes.
pub open spec fn message_of() -> spec_fn(ItemView) -> Option<MessageView> {
    |item: ItemView|
        match item {
            ItemView::Message(message) => Some(message),
            _ => None,
        }
}

/// Picks the instruction that an item becomes.
pub open spec fn line_of() -> spec_fn(ItemView) -> Option<Seq<char>> {
    |item: ItemView|
        match item {
            ItemView::System(line) => Some(line),
            _ => None,
        }
}

/// Picks the tools that an item becomes.
pub open spec fn tools_of() -> spec_fn(ItemView) -> Option<Seq<DefinitionView>> {
    |item: ItemView|
        match item {
            ItemView::Tools(tools) => Some(tools),
            _ => None,
        }
}

/// The instructions that stand before, and those behind them.
pub open spec fn with_lines(system: Option<Seq<Seq<char>>>, lines: Seq<Seq<char>>) -> Option<
    Seq<Seq<char>>,
> {
    if lines.len() == 0 {
        system
    } else {
        Some(
            (match system {
                Some(before) => before,
                None => Seq::empty(),
            }) + lines,
        )
    }
}

proof fn lemma_items_are_sorted_out(before: InputView, items: Seq<ItemView>)
    ensures
        ({
            let after = with_items(before, items);
            &&& after.messages == before.messages + items.filter_map(message_of())
            &&& after.system == with_lines(before.system, items.filter_map(line_of()))
            &&& after.tools == before.tools + items.filter_map(tools_of()).flatten()
        }),
    decreases items.len(),
{
    if items.len() == 0 {
        assert(before.messages + items.filter_map(message_of()) =~= before.messages);
        assert(items.filter_map(line_of()) =~= Seq::<Seq<char>>::empty());
        assert(items.filter_map(tools_of()) =~= Seq::<Seq<DefinitionView>>::empty());
        assert(before.tools + Seq::<DefinitionView>::empty() =~= before.tools);
    } else {
        let front = items.drop_last();
        let last = items.last();
        lemma_items_are_sorted_out(before, front);
        assert(front.push(last) =~= items);
        lemma_picked_push(front, last, message_of());
        lemma_picked_push(front, last, line_of());
        lemma_picked_push(front, last, tools_of());
        let after = with_items(before, items);
        match last {
            ItemView::Message(message) => {
                assert(after.messages =~= before.messages + items.filter_map(message_of()));
            },
            ItemView::System(line) => {
                assert(after.system->0 =~= with_lines(
                    before.system,
                    items.filter_map(line_of()),
                )->0);
            },
            ItemView::Tools(tools) => {
                front.filter_map(tools_of()).lemma_flatten_push(tools);
                assert(after.tools =~= before.tools + items.filter_map(tools_of()).flatten());
            },
            ItemView::Nothing => {},
        }
    }
}

/// The input of a request becomes all that its items become, in their order and nothing
/// left out: the messages, the instructions behind those of the request, and the tools. It
/// is refused only where an item is, or where there is no message. An input that is a text
/// is one message of the user.
pub proof fn law_every_item_counts(input: JsonView, system: Option<Seq<Seq<char>>>)
    ensures
        match input {
            JsonView::Text(said) => match mapped_input(input, system) {
                Ok(mapped) => said.len() > 0 && mapped.messages.len() == 1
                    && mapped.messages[0].role == "user"@ && mapped.messages[0].content == input
                    && mapped.system == system && mapped.tools.len() == 0,
                Err(_) => said.len() == 0,
            },
            JsonView::Array(items) => {
                let found = Seq::new(
                    items.len(),
                    |i: int| input_item(items[i], i as nat)->Ok_0,
                );
                match mapped_input(input, system) {
                    Ok(mapped) => {
                        &&& forall|i: int|
                            0 <= i < items.len() ==> input_item(#[trigger] items[i], i as nat) is Ok
                        &&& mapped.messages.len() > 0
                        &&& mapped.messages == found.filter_map(message_of())
                        &&& mapped.system == with_lines(system, found.filter_map(line_of()))
                        &&& mapped.tools == found.filter_map(tools_of()).flatten()
                    },
                    Err(error) => {
                        ||| exists|i: int|
                            0 <= i < items.len() && input_item(#[trigger] items[i], i as nat)
                                == Err::<ItemView, ErrorView>(error) && forall|j: int|
                                0 <= j < i ==> input_item(#[trigger] items[j], j as nat) is Ok
                        ||| found.filter_map(message_of()).len() == 0
                    },
                }
            },
            _ => mapped_input(input, system) is Err,
        },
{
    if let JsonView::Array(items) = input {
        let results = input_items(items);
        let found = Seq::new(items.len(), |i: int| input_item(items[i], i as nat)->Ok_0);
        let before = InputView { system, messages: Seq::empty(), tools: Seq::empty() };
        law_all_or_first_error(results);
        if items.len() == 0 {
            assert(found.filter_map(message_of()) =~= Seq::<MessageView>::empty());
        }
        match all_ok(results) {
            Ok(values) => {
                assert forall|i: int| 0 <= i < items.len() implies input_item(
                    #[trigger] items[i],
                    i as nat,
                ) == Ok::<ItemView, ErrorView>(values[i]) by {
                    assert(results[i] == Ok::<ItemView, ErrorView>(values[i]));
                }
                assert(values =~= found);
                lemma_items_are_sorted_out(before, found);
                assert(before.messages + found.filter_map(message_of()) =~= found.filter_map(
                    message_of(),
                ));
                assert(before.tools + found.filter_map(tools_of()).flatten() =~= found.filter_map(
                    tools_of(),
                ).flatten());
            },
            Err(error) => {
                let i = choose|i: int|
                    0 <= i < results.len() && #[trigger] results[i] == Err::<ItemView, ErrorView>(
                        error,
                    ) && forall|j: int| 0 <= j < i ==> (#[trigger] results[j]) is Ok;
                assert forall|j: int| 0 <= j < i implies input_item(
                    #[trigger] items[j],
                    j as nat,
                ) is Ok by {
                    assert(results[j] is Ok);
                }
                assert(input_item(items[i], i as nat) == results[i]);
            },
        }
    }
}

/// A row of messages is one that can be answered where the user speaks last.
pub proof fn law_user_speaks_last(messages: Seq<MessageView>)
    ensures
        turn_error(messages) is None <==> messages.len() > 0 && messages.last().role == "user"@,
{
    if messages.len() > 0 {
        assert(messages[messages.len() - 1] == messages.last());
    }
}

/// A text that may be missing, as an object gives it: it is missing where it is null.
pub open spec fn gives_text(given: Option<JsonView>, value: Option<Seq<char>>) -> bool {
    match given {
        None => value is None,
        Some(JsonView::Null) => value is None,
        Some(JsonView::Text(said)) => value == Some(said),
        Some(_) => false,
    }
}

/// A tool is read with the type, name, description, parameters and inner tools that its
/// object gives under these names. It can be read where its type is a text, its name and
/// description are texts if they are there, and its inner tools can be read.
pub proof fn law_tool_is_read_by_its_fields(entries: Seq<(Seq<char>, JsonView)>)
    ensures
        ({
            let given = JsonView::Object(entries);
            match definition(given) {
                Some(tool) => {
                    &&& text_field(given, "type"@) == Some(tool.tool_type)
                    &&& gives_text(field(given, "name"@), tool.name)
                    &&& gives_text(field(given, "description"@), tool.description)
                    &&& match field(given, "parameters"@) {
                        None => tool.parameters is None,
                        Some(JsonView::Null) => tool.parameters is None,
                        Some(value) => tool.parameters == Some(value),
                    }
                    &&& match field(given, "tools"@) {
                        None => tool.tools.len() == 0,
                        Some(JsonView::Array(inner)) => tool.tools.len() == inner.len()
                            && forall|i: int|
                            0 <= i < inner.len() ==> definition(#[trigger] inner[i]) == Some(
                                tool.tools[i],
                            ),
                        Some(_) => false,
                    }
                },
                None => {
                    ||| text_field(given, "type"@) is None
                    ||| forall|value: Option<Seq<char>>|
                        !#[trigger] gives_text(field(given, "name"@), value)
                    ||| forall|value: Option<Seq<char>>|
                        !#[trigger] gives_text(field(given, "description"@), value)
                    ||| match field(given, "tools"@) {
                        None => false,
                        Some(JsonView::Array(inner)) => exists|i: int|
                            0 <= i < inner.len() && definition(#[trigger] inner[i]) is None,
                        Some(_) => true,
                    }
                },
            }
        }),
{
    let given = JsonView::Object(entries);
    if let Some(JsonView::Array(inner)) = field(given, "tools"@) {
        lemma_definitions_are_read(inner);
    }
    if definition(given) is None {
        if field(given, "name"@) matches Some(JsonView::Text(said)) {
        }
    }
}

proof fn lemma_definitions_are_read(items: Seq<JsonView>)
    ensures
        match definitions(items) {
            Some(tools) => tools.len() == items.len() && forall|i: int|
                0 <= i < items.len() ==> definition(#[trigger] items[i]) == Some(tools[i]),
            None => exists|i: int| 0 <= i < items.len() && definition(#[trigger] items[i]) is None,
        },
    decreases items.len(),
{
    if items.len() > 0 {
        let front = items.drop_last();
        lemma_definitions_are_read(front);
        assert(items[items.len() - 1] == items.last());
        match definitions(front) {
            Some(tools) => {
                assert forall|i: int| 0 <= i < front.len() implies definition(#[trigger] items[i])
                    == Some(tools[i]) by {
                    assert(definition(front[i]) == Some(tools[i]));
                }
            },
            None => {
                let i = choose|i: int|
                    0 <= i < front.len() && definition(#[trigger] front[i]) is None;
                assert(definition(items[i]) is None);
            },
        }
    }
}

/// A function of a request as the backend is told of it: under the same name, with the same
/// description and the same parameters. One that defines no parameters takes an object
/// without properties.
pub open spec fn is_tool_of(tool: ToolView, function: DefinitionView) -> bool {
    &&& function.name == Some(tool.name)
    &&& tool.name.len() > 0
    &&& tool.description == match function.description {
        Some(description) => description,
        None => Seq::empty(),
    }
    &&& match function.parameters {
        Some(parameters) => parameters == JsonView::Object(tool.input_schema),
        None => as_text(lookup(tool.input_schema, "type"@)) == Some("object"@) && lookup(
            tool.input_schema,
            "properties"@,
        ) == Some(JsonView::Object(Seq::empty())),
    }
    &&& tool.tool_type is None
    &&& tool.max_uses is None
}

/// A function that can be passed on.
pub open spec fn can_be_passed_on(function: DefinitionView) -> bool {
    &&& function.name matches Some(name) && name.len() > 0
    &&& function.parameters matches Some(parameters) ==> parameters is Object
}

proof fn lemma_function_tool(function: DefinitionView, param: Seq<char>)
    ensures
        match function_tool(function, param) {
            Ok(tool) => is_tool_of(tool, function) && can_be_passed_on(function),
            Err(_) => !can_be_passed_on(function),
        },
{
    broadcast use {lemma_lookup_pushed, lemma_lookup_nothing};

    lemma_block_names();
}

/// A function.
pub open spec fn is_function() -> spec_fn(DefinitionView) -> bool {
    |tool: DefinitionView| tool.tool_type == "function"@
}

/// What comes of passing a function on.
spec fn comes_of(result: Result<ToolView, ErrorView>, function: DefinitionView) -> bool {
    match result {
        Ok(tool) => is_tool_of(tool, function),
        Err(_) => !can_be_passed_on(function),
    }
}

/// The functions of a namespace are its functions, in order.
proof fn lemma_inner_functions(tools: Seq<DefinitionView>, index: nat, n: nat)
    requires
        n <= tools.len(),
    ensures
        inner_functions(tools, index, n).len() == tools.take(n as int).filter(is_function()).len(),
        forall|i: int|
            0 <= i < inner_functions(tools, index, n).len() ==> comes_of(
                #[trigger] inner_functions(tools, index, n)[i],
                tools.take(n as int).filter(is_function())[i],
            ),
    decreases n,
{
    reveal(Seq::filter);
    if n > 0 {
        let m = (n - 1) as nat;
        lemma_inner_functions(tools, index, m);
        assert(tools.take(n as int).drop_last() =~= tools.take(m as int));
        lemma_function_tool(tools[m as int], inner_path(index, m));
        let before = inner_functions(tools, index, m);
        let now = inner_functions(tools, index, n);
        let all = tools.take(n as int).filter(is_function());
        assert forall|i: int| 0 <= i < now.len() implies comes_of(#[trigger] now[i], all[i]) by {
            if i < before.len() {
                assert(comes_of(before[i], all[i]));
            }
        }
    }
}

/// The functions that a tool of a request brings: itself where it is a function, those
/// inside it where it is a namespace, and none where it is anything else.
pub open spec fn brings(tool: DefinitionView) -> Seq<DefinitionView> {
    if tool.tool_type == "function"@ {
        seq![tool]
    } else if tool.tool_type == "namespace"@ {
        tool.tools.filter(is_function())
    } else {
        Seq::empty()
    }
}

/// The tools that are passed on are the functions that the tools of the request bring, in
/// their order, each with its name, description and parameters: one more tool puts what it
/// brings behind the others. It is refused only where it brings one that cannot be passed on.
pub proof fn law_every_function_is_passed_on(tools: Seq<DefinitionView>, tool: DefinitionView)
    ensures
        mapped_tools(Seq::empty()) == Ok::<Seq<ToolView>, ErrorView>(Seq::empty()),
        mapped_tools(tools) matches Ok(before) ==> match mapped_tools(tools.push(tool)) {
            Ok(after) => {
                &&& after.len() == before.len() + brings(tool).len()
                &&& after.take(before.len() as int) == before
                &&& forall|i: int|
                    0 <= i < brings(tool).len() ==> is_tool_of(
                        after[before.len() + i],
                        #[trigger] brings(tool)[i],
                    )
            },
            Err(_) => exists|i: int|
                0 <= i < brings(tool).len() && !can_be_passed_on(#[trigger] brings(tool)[i]),
        },
{
    reveal_strlit("function");
    reveal_strlit("namespace");
    assert("function"@.len() == 8 && "namespace"@.len() == 9);
    let n = tools.len();
    let longer = tools.push(tool);
    let results = functions(tools, n);
    let more = functions_of(tool, n);
    let all = functions(longer, longer.len());
    lemma_same_front(tools, longer, n);
    assert(longer[n as int] == tool);
    assert(all == results + more);
    assert(functions(Seq::<DefinitionView>::empty(), 0) =~= Seq::empty());
    assert forall|i: int| 0 <= i < more.len() implies comes_of(
        #[trigger] more[i],
        brings(tool)[i],
    ) by {
        if tool.tool_type == "function"@ {
            lemma_function_tool(tool, tool_path(n, ""@));
        } else {
            lemma_inner_functions(tool.tools, n, tool.tools.len());
            assert(tool.tools.take(tool.tools.len() as int) =~= tool.tools);
        }
    }
    assert(more.len() == brings(tool).len()) by {
        if tool.tool_type == "namespace"@ {
            lemma_inner_functions(tool.tools, n, tool.tools.len());
            assert(tool.tools.take(tool.tools.len() as int) =~= tool.tools);
        }
    }
    law_all_or_first_error(results);
    law_all_or_first_error(all);
    if let Ok(before) = mapped_tools(tools) {
        match mapped_tools(longer) {
            Ok(after) => {
                assert forall|i: int| 0 <= i < before.len() implies after[i] == before[i] by {
                    assert(all[i] == results[i]);
                    assert(results[i] == Ok::<ToolView, ErrorView>(before[i]));
                }
                assert(after.take(before.len() as int) =~= before);
                assert forall|i: int| 0 <= i < brings(tool).len() implies is_tool_of(
                    after[before.len() + i],
                    #[trigger] brings(tool)[i],
                ) by {
                    assert(all[before.len() + i] == more[i]);
                }
            },
            Err(error) => {
                let i = choose|i: int|
                    0 <= i < all.len() && #[trigger] all[i] == Err::<ToolView, ErrorView>(error)
                        && forall|j: int| 0 <= j < i ==> (#[trigger] all[j]) is Ok;
                if i < results.len() {
                    assert(results[i] == Ok::<ToolView, ErrorView>(before[i]));
                }
                assert(more[i - results.len()] == all[i]);
                assert(!can_be_passed_on(brings(tool)[i - results.len()]));
            },
        }
    }
}

/// The choice among the tools is passed on in the words of the backend: what is chosen
/// freely, not at all or in any case stays so, and a function that is named is one that
/// there is. Any other choice is refused.
pub proof fn law_choice_is_passed_on(choice: Option<JsonView>, tools: Seq<ToolView>)
    ensures
        match tool_choice(choice, tools) {
            Ok(None) => choice is None,
            Ok(Some(passed)) => match choice {
                Some(JsonView::Text(word)) => {
                    &&& word == "auto"@ || word == "none"@ || word == "required"@
                    &&& text_field(passed, "type"@) == Some(
                        if word == "required"@ {
                            "any"@
                        } else {
                            word
                        },
                    )
                    &&& field(passed, "name"@) is None
                },
                Some(named) => {
                    &&& text_field(named, "type"@) == Some("function"@)
                    &&& text_field(passed, "type"@) == Some("tool"@)
                    &&& is_given(named, "name"@)
                    &&& text_field(passed, "name"@) == text_field(named, "name"@)
                    &&& exists|i: int|
                        0 <= i < tools.len() && Some((#[trigger] tools[i]).name) == text_field(
                            named,
                            "name"@,
                        )
                },
                None => false,
            },
            Err(_) => match choice {
                None => false,
                Some(JsonView::Text(word)) => word != "auto"@ && word != "none"@ && word
                    != "required"@,
                Some(named) => text_field(named, "type"@) != Some("function"@) || !is_given(
                    named,
                    "name"@,
                ) || forall|i: int|
                    0 <= i < tools.len() ==> Some((#[trigger] tools[i]).name) != text_field(
                        named,
                        "name"@,
                    ),
            },
        },
{
    broadcast use {lemma_lookup_pushed, lemma_lookup_nothing};

    lemma_block_names();
    reveal_strlit("auto");
    reveal_strlit("none");
    reveal_strlit("required");
    assert("auto"@.len() == 4 && "none"@.len() == 4 && "required"@.len() == 8);
    assert("auto"@[0] == 'a' && "none"@[0] == 'n');
}

/// A model thinks where its name says so or where an effort is asked for. Where only the
/// effort asks for it, or the model is one that decides by itself, it decides how much, with
/// the effort that is asked for, or a high one; else it thinks in any case. An effort that
/// is not known is refused.
pub proof fn law_model_thinks_as_asked(lower: Seq<char>, effort: Option<Seq<char>>)
    ensures
        ({
            let by_name = occurs_in(lower, "thinking"@);
            let by_effort = effort matches Some(asked) && asked != "none"@;
            let decides = occurs_in(lower, "opus"@) && (occurs_in(lower, "4-6"@) || occurs_in(
                lower,
                "4.6"@,
            ));
            match reasoning_for(lower, effort) {
                Ok(reasoning) => {
                    &&& reasoning.thinking is Some <==> by_name || by_effort
                    &&& reasoning.thinking matches Some(thinking) ==> {
                        &&& thinking.budget_tokens == 20_000
                        &&& by_name && !decides ==> thinking.thinking_type == "enabled"@
                            && reasoning.effort is None
                        &&& !by_name || decides ==> thinking.thinking_type == "adaptive"@
                            && reasoning.effort == Some(
                            match effort {
                                Some(asked) => asked,
                                None => "high"@,
                            },
                        )
                    }
                    &&& reasoning.thinking is None ==> reasoning.effort is None
                    &&& effort matches Some(asked) ==> asked == "none"@ || asked == "minimal"@
                        || asked == "low"@ || asked == "medium"@ || asked == "high"@ || asked
                        == "xhigh"@
                },
                Err(error) => {
                    &&& effort matches Some(asked) && asked != "none"@ && asked != "minimal"@
                        && asked != "low"@ && asked != "medium"@ && asked != "high"@ && asked
                        != "xhigh"@
                    &&& error.param == Some("reasoning.effort"@)
                },
            }
        }),
{
}

/// A request that asks for state is refused, and the first field that does so is named.
pub proof fn law_state_is_refused(request: RequestView, lower: Seq<char>)
    ensures
        ({
            let refused = |name: Seq<char>| mapped_request(request, lower) matches Err(error)
                && error.param == Some(name) && error.code == Some("unsupported_parameter"@);
            let earlier = request.previous_response_id != JsonView::Null;
            let talk = request.conversation != JsonView::Null;
            &&& earlier ==> refused("previous_response_id"@)
            &&& !earlier && talk ==> refused("conversation"@)
            &&& !earlier && !talk && request.background ==> refused("background"@)
            &&& !earlier && !talk && !request.background && request.store == Some(true) ==> refused(
                "store"@,
            )
        }),
{
}

/// A request that is accepted is passed on as it was made: to the same model, as a stream or
/// not, with at most as many tokens as it allows, with the messages and instructions of its
/// input behind its own instructions, and with its tools in front of those of its input.
pub proof fn law_request_is_passed_on(request: ResponsesRequest, mapped: MappedRequest)
    requires
        mapped_request(request@, lower_case(request.model@)) == Ok::<_, ErrorView>(mapped@),
    ensures
        mapped.messages.model@ == request.model@,
        mapped.messages.stream == request.stream,
        mapped.messages.max_tokens == match request.max_output_tokens {
            Some(limit) => limit,
            None => 4096,
        },
        mapped.max_output_tokens == mapped.messages.max_tokens,
        mapped.messages.metadata is None,
        mapped.thinking_enabled == mapped.messages.thinking is Some,
        ({
            let own = match request.instructions {
                Some(line) => if line@.len() > 0 {
                    Some(seq![line@])
                } else {
                    None
                },
                None => None,
            };
            mapped_input(request.input@, own) matches Ok(input) && {
                &&& messages_view(mapped.messages.messages@) == input.messages
                &&& system_view(mapped.messages.system) == input.system
                &&& mapped_tools(request@.tools + input.tools) matches Ok(tools) && {
                    &&& mapped@.tools == if tools.len() == 0 {
                        None
                    } else {
                        Some(tools)
                    }
                    &&& tool_choice(request@.tool_choice, tools) == Ok::<_, ErrorView>(
                        mapped@.tool_choice,
                    )
                }
            }
        }),
        reasoning_for(lower_case(request.model@), request@.effort) matches Ok(reasoning)
            && reasoning.thinking == mapped@.thinking && reasoning.effort == mapped@.effort,
{
}

/// A request is refused only for a reason: it asks for state, names no model, allows for no
/// answer, or has an input, tools, a choice or an effort that are refused.
pub proof fn law_refusal_has_a_reason(request: RequestView, lower: Seq<char>)
    requires
        mapped_request(request, lower) is Err,
    ensures
        ({
            let own = match request.instructions {
                Some(line) => if line.len() > 0 {
                    Some(seq![line])
                } else {
                    None
                },
                None => None,
            };
            ||| request.previous_response_id != JsonView::Null
            ||| request.conversation != JsonView::Null
            ||| request.background
            ||| request.store == Some(true)
            ||| is_blank(request.model)
            ||| request.max_output_tokens matches Some(limit) && limit <= 0
            ||| reasoning_for(lower, request.effort) is Err
            ||| match mapped_input(request.input, own) {
                Err(_) => true,
                Ok(input) => input.messages.last().role != "user"@ || match mapped_tools(
                    request.tools + input.tools,
                ) {
                    Err(_) => true,
                    Ok(tools) => tool_choice(request.tool_choice, tools) is Err,
                },
            }
        }),
{
    let own = match request.instructions {
        Some(line) => if line.len() > 0 {
            Some(seq![line])
        } else {
            None
        },
        None => None,
    };
    law_every_item_counts(request.input, own);
    if let Ok(input) = mapped_input(request.input, own) {
        law_user_speaks_last(input.messages);
    }
}

/// A client is told what is wrong with a request in the words of the error, with the
/// parameter and the code of the error.
pub proof fn law_reply_tells_the_error(status: u16, error: RequestError, reply: ErrorReply)
    requires
        reply@ == request_reply(status, error@),
    ensures
        reply.status == status,
        reply.error.message@ == error.message@,
        maybe_text(reply.error.param) == maybe_text(error.param),
        maybe_text(reply.error.code) == maybe_text(error.code),
        reply.error.error_type@ == "invalid_request_error"@,
{
}

/// A client is told what is wrong with the service, and that the request is not at fault.
pub proof fn law_reply_tells_the_fault(status: u16, message: Seq<char>, reply: ErrorReply)
    requires
        reply@ == service_reply(status, message),
    ensures
        reply.status == status,
        reply.error.message@ == message,
        reply.error.param is None,
        reply.error.code is None,
        reply.error.error_type@ == "api_error"@,
{
}

/// A refusal of the backend is the fault of the request exactly where the backend says that
/// it is too long; else it is passed on in the words of the backend.
pub proof fn law_backend_refusal(message: Seq<char>, reply: ErrorReply)
    requires
        reply@ == provider_reply(message),
    ensures
        ({
            let too_long = occurs_in(message, "CONTENT_LENGTH_EXCEEDS_THRESHOLD"@) || occurs_in(
                message,
                "Input is too long"@,
            );
            &&& too_long ==> reply.status == 400 && maybe_text(reply.error.param) == Some("input"@)
                && reply.error.error_type@ == "invalid_request_error"@
            &&& !too_long ==> reply.status == 502 && message.is_suffix_of(reply.error.message@)
                && reply.error.error_type@ == "api_error"@
        }),
{
    let told = "Upstream API request failed: "@ + message;
    assert(told.skip(told.len() - message.len()) =~= message);
    assert(told.subrange(told.len() - message.len(), told.len() as int) =~= message);
}

/// Where an item is refused, the error names its place in the input.
pub proof fn law_error_names_the_item(item: JsonView, index: nat)
    ensures
        input_item(item, index) matches Err(error) ==> (error.param matches Some(param)
            && ("input["@ + dec(index) + "]"@).is_prefix_of(param)),
{
    if let Err(error) = input_item(item, index) {
        let param = error.param->0;
        let head = "input["@ + dec(index) + "]"@;
        let content = field(item, "content"@);
        let role = text_field(item, "role"@);
        if content is Some && role is Some {
            law_every_part_becomes_a_block(content->0, role->0, index);
            if let JsonView::Array(parts) = content->0 {
                law_all_or_first_error(system_parts(parts, index));
                law_all_or_first_error(content_parts(parts, role->0, index));
            }
        }
        assert(exists|rest: Seq<char>| param == #[trigger] input_path(index, rest));
        let rest = choose|rest: Seq<char>| param == #[trigger] input_path(index, rest);
        assert(param =~= head + rest);
    }
}

/// Where the tools are refused, the error names the place of the first that cannot be passed
/// on.
pub proof fn law_error_names_the_tool(tools: Seq<DefinitionView>, tool: DefinitionView)
    requires
        mapped_tools(tools) is Ok,
    ensures
        mapped_tools(tools.push(tool)) matches Err(error) ==> (error.param matches Some(param)
            && ("tools["@ + dec(tools.len()) + "]"@).is_prefix_of(param)),
{
    let n = tools.len();
    let longer = tools.push(tool);
    let results = functions(tools, n);
    let more = functions_of(tool, n);
    let all = functions(longer, longer.len());
    lemma_same_front(tools, longer, n);
    assert(longer[n as int] == tool);
    assert(all == results + more);
    law_all_or_first_error(results);
    law_all_or_first_error(all);
    if let Err(error) = mapped_tools(longer) {
        let i = choose|i: int|
            0 <= i < all.len() && #[trigger] all[i] == Err::<ToolView, ErrorView>(error)
                && forall|j: int| 0 <= j < i ==> (#[trigger] all[j]) is Ok;
        if i < results.len() {
            assert(results[i] == all[i]);
        }
        assert(more[i - results.len()] == all[i]);
        if tool.tool_type == "namespace"@ {
            lemma_inner_errors(tool.tools, n, tool.tools.len());
            assert(is_error_at(more[i - results.len()], n));
        } else {
            lemma_function_error(tool, n, ""@);
        }
        assert(is_error_at(all[i], n));
    }
}

/// A result that, where it is an error, names the place of a tool.
spec fn is_error_at(result: Result<ToolView, ErrorView>, index: nat) -> bool {
    result matches Err(error) ==> (error.param matches Some(param) && ("tools["@ + dec(index)
        + "]"@).is_prefix_of(param))
}

proof fn lemma_function_error(tool: DefinitionView, index: nat, rest: Seq<char>)
    ensures
        is_error_at(function_tool(tool, tool_path(index, rest)), index),
{
    let head = "tools["@ + dec(index) + "]"@;
    let path = tool_path(index, rest);
    assert(path + ".parameters"@ =~= head + (rest + ".parameters"@));
    assert(path + ".name"@ =~= head + (rest + ".name"@));
}

proof fn lemma_inner_errors(tools: Seq<DefinitionView>, index: nat, n: nat)
    ensures
        forall|i: int|
            0 <= i < inner_functions(tools, index, n).len() ==> is_error_at(
                #[trigger] inner_functions(tools, index, n)[i],
                index,
            ),
    decreases n,
{
    if n > 0 {
        let m = (n - 1) as nat;
        lemma_inner_errors(tools, index, m);
        lemma_function_error(tools[m as int], index, ".tools["@ + dec(m) + ("]"@ + ""@));
        let before = inner_functions(tools, index, m);
        let now = inner_functions(tools, index, n);
        assert forall|i: int| 0 <= i < now.len() implies is_error_at(#[trigger] now[i], index) by {
            if i < before.len() {
                assert(now[i] == before[i]);
            }
        }
    }
}

/// A tool that is given as a row is read by position: its type, name, description and
/// parameters, and its inner tools where the row goes on.
pub proof fn law_tool_is_read_by_position(items: Seq<JsonView>, entries: Seq<(Seq<char>, JsonView)>)
    requires
        items.len() == 4 || items.len() == 5,
        lookup(entries, "type"@) == Some(items[0]),
        lookup(entries, "name"@) == Some(items[1]),
        lookup(entries, "description"@) == Some(items[2]),
        lookup(entries, "parameters"@) == Some(items[3]),
        lookup(entries, "tools"@) == if items.len() == 5 {
            Some(items[4])
        } else {
            None
        },
    ensures
        definition(JsonView::Array(items)) == definition(JsonView::Object(entries)),
{
}

/// What becomes of a request that can be read: with a backend it is what it is mapped to, or
/// the error of the mapping; without one, and where it cannot be read, it is refused.
pub proof fn law_request_is_admitted(request: Result<ResponsesRequest, String>, configured: bool)
    ensures
        match request {
            Ok(request) => if configured {
                match mapped_request(request@, lower_case(request.model@)) {
                    Ok(mapped) => admitted(Ok(request), configured) == Ok::<_, ReplyView>(mapped),
                    Err(error) => admitted(Ok(request), configured) matches Err(reply)
                        && reply.status == 400 && reply.error == error && reply.error_type
                        == "invalid_request_error"@,
                }
            } else {
                admitted(Ok(request), configured) matches Err(reply) && reply.status == 503
                    && reply.error_type == "api_error"@
            },
            Err(error) => admitted(request, configured) matches Err(reply) && reply.status == 400
                && error@.is_suffix_of(reply.error.message) && reply.error.param == Some("body"@),
        },
{
    if let Err(error) = request {
        let told = "Invalid JSON request: "@ + error@;
        assert(told.subrange(told.len() - error@.len(), told.len() as int) =~= error@);
    }
}

/// A model that the backend does not know is named to the client.
pub proof fn law_unknown_model_is_named(model: String)
    ensures
        model@.is_suffix_of(conversion_problem(ConversionError::UnsupportedModel(model)).message),
{
    let told = "Unsupported model: "@ + model@;
    assert(told.subrange(told.len() - model@.len(), told.len() as int) =~= model@);
}

} // verus!
