//! An answer that has been collected, and the response object for it.

use vstd::prelude::*;

use crate::anthropic::content::{make_text_block, text_block};
use crate::json::{
    array, array_of_one, int_number, items_view, json_parse, maybe_json, no_fields, parse, signed,
    text, Fields, Json, JsonView,
};
use crate::rows::seen;
use crate::text::maybe_text;

verus! {

/// A tool call of an answer.
#[derive(Debug)]
pub struct CollectedCall {
    pub item_id: String,
    pub call_id: String,
    pub name: String,
    pub arguments: String,
}

/// A tool call as plain values.
pub struct CallView {
    pub item_id: Seq<char>,
    pub call_id: Seq<char>,
    pub name: Seq<char>,
    pub arguments: Seq<char>,
}

impl View for CollectedCall {
    type V = CallView;

    open spec fn view(&self) -> CallView {
        CallView {
            item_id: self.item_id@,
            call_id: self.call_id@,
            name: self.name@,
            arguments: self.arguments@,
        }
    }
}

impl Clone for CollectedCall {
    fn clone(&self) -> (r: CollectedCall)
        ensures
            r == *self,
    {
        CollectedCall {
            item_id: self.item_id.clone(),
            call_id: self.call_id.clone(),
            name: self.name.clone(),
            arguments: self.arguments.clone(),
        }
    }
}

/// The calls of a row, as plain values.
pub open spec fn calls_view(calls: Seq<CollectedCall>) -> Seq<CallView> {
    calls.map_values(|call: CollectedCall| call@)
}

/// An answer: its text and tool calls, what they cost, and why it is incomplete where it
/// is.
#[derive(Debug)]
pub struct CollectedResponse {
    pub text: String,
    pub text_item_id: Option<String>,
    pub calls: Vec<CollectedCall>,
    pub input_tokens: i32,
    pub output_tokens: i32,
    pub max_output_tokens: i32,
    pub incomplete_reason: Option<String>,
    pub created_at: i64,
}

/// An answer as plain values.
pub struct CollectedView {
    pub text: Seq<char>,
    pub text_item_id: Option<Seq<char>>,
    pub calls: Seq<CallView>,
    pub input_tokens: i32,
    pub output_tokens: i32,
    pub max_output_tokens: i32,
    pub incomplete_reason: Option<Seq<char>>,
    pub created_at: i64,
}

impl View for CollectedResponse {
    type V = CollectedView;

    open spec fn view(&self) -> CollectedView {
        CollectedView {
            text: self.text@,
            text_item_id: maybe_text(self.text_item_id),
            calls: calls_view(self.calls@),
            input_tokens: self.input_tokens,
            output_tokens: self.output_tokens,
            max_output_tokens: self.max_output_tokens,
            incomplete_reason: maybe_text(self.incomplete_reason),
            created_at: self.created_at,
        }
    }
}

/// The sum of two token counts fits.
pub open spec fn total_fits(input_tokens: i32, output_tokens: i32) -> bool {
    i32::MIN <= input_tokens + output_tokens <= i32::MAX
}

/// The block that a tool call is counted by: what its arguments encode, or their text.
pub open spec fn call_block(
    arguments: Seq<char>,
    parsed: Result<JsonView, Seq<char>>,
) -> JsonView {
    JsonView::Object(
        no_fields().push(("type"@, JsonView::Text("tool_use"@))).push(
            (
                "input"@,
                match parsed {
                    Ok(input) => input,
                    Err(_) => JsonView::Text(arguments),
                },
            ),
        ),
    )
}

/// The blocks that an answer is counted by: its text where there is any, and its calls.
pub open spec fn token_blocks(content: Seq<char>, calls: Seq<CallView>) -> Seq<JsonView> {
    (if content.len() > 0 {
        seq![text_block(content)]
    } else {
        Seq::empty()
    }) + calls.map_values(|call: CallView| call_block(call.arguments, json_parse(call.arguments)))
}

/// A part of a message of the output.
pub open spec fn output_part(content: Seq<char>) -> JsonView {
    JsonView::Object(
        no_fields().push(("type"@, JsonView::Text("output_text"@))).push(
            ("text"@, JsonView::Text(content)),
        ).push(("annotations"@, JsonView::Array(Seq::empty()))).push(
            ("logprobs"@, JsonView::Array(Seq::empty())),
        ),
    )
}

/// A message of the output.
pub open spec fn output_message(
    id: Seq<char>,
    status: Seq<char>,
    content: Seq<JsonView>,
) -> JsonView {
    JsonView::Object(
        no_fields().push(("id"@, JsonView::Text(id))).push(
            ("type"@, JsonView::Text("message"@)),
        ).push(("status"@, JsonView::Text(status))).push(
            ("role"@, JsonView::Text("assistant"@)),
        ).push(("content"@, JsonView::Array(content))),
    )
}

/// A tool call of the output.
pub open spec fn output_call(call: CallView, status: Seq<char>, arguments: Seq<char>) -> JsonView {
    JsonView::Object(
        no_fields().push(("id"@, JsonView::Text(call.item_id))).push(
            ("type"@, JsonView::Text("function_call"@)),
        ).push(("status"@, JsonView::Text(status))).push(
            ("call_id"@, JsonView::Text(call.call_id)),
        ).push(("name"@, JsonView::Text(call.name))).push(
            ("arguments"@, JsonView::Text(arguments)),
        ),
    )
}

/// The output of an answer: its message where it has one, then its calls.
pub open spec fn output_items(answer: CollectedView) -> Seq<JsonView> {
    (match answer.text_item_id {
        Some(id) => seq![output_message(id, "completed"@, seq![output_part(answer.text)])],
        None => Seq::empty(),
    }) + answer.calls.map_values(
        |call: CallView| output_call(call, "completed"@, call.arguments),
    )
}

/// A tree that may be missing, null where it is.
pub open spec fn or_null(value: Option<JsonView>) -> JsonView {
    match value {
        Some(value) => value,
        None => JsonView::Null,
    }
}

/// A count as a tree.
pub open spec fn count(n: i64) -> JsonView {
    JsonView::Number(int_number(n))
}

/// How an answer ended.
pub open spec fn final_status(answer: CollectedView, failed: bool) -> Seq<char> {
    if failed {
        "failed"@
    } else if answer.incomplete_reason is Some {
        "incomplete"@
    } else {
        "completed"@
    }
}

/// Why an answer is incomplete, as a tree.
pub open spec fn incomplete_details(answer: CollectedView) -> JsonView {
    match answer.incomplete_reason {
        Some(reason) => JsonView::Object(no_fields().push(("reason"@, JsonView::Text(reason)))),
        None => JsonView::Null,
    }
}

/// What an answer cost.
pub open spec fn usage(answer: CollectedView) -> JsonView {
    JsonView::Object(
        no_fields().push(("input_tokens"@, count(answer.input_tokens as i64))).push(
            (
                "input_tokens_details"@,
                JsonView::Object(no_fields().push(("cached_tokens"@, count(0)))),
            ),
        ).push(("output_tokens"@, count(answer.output_tokens as i64))).push(
            (
                "output_tokens_details"@,
                JsonView::Object(no_fields().push(("reasoning_tokens"@, count(0)))),
            ),
        ).push(
            ("total_tokens"@, count((answer.input_tokens + answer.output_tokens) as i64)),
        ),
    )
}

/// The response object for an answer.
pub open spec fn response_object(
    id: Seq<char>,
    model: Seq<char>,
    answer: CollectedView,
    output: Seq<JsonView>,
    error: Option<JsonView>,
) -> JsonView {
    JsonView::Object(
        no_fields().push(("id"@, JsonView::Text(id))).push(
            ("object"@, JsonView::Text("response"@)),
        ).push(("created_at"@, count(answer.created_at))).push(
            ("status"@, JsonView::Text(final_status(answer, error is Some))),
        ).push(("background"@, JsonView::Bool(false))).push(("error"@, or_null(error))).push(
            ("incomplete_details"@, incomplete_details(answer)),
        ).push(("instructions"@, JsonView::Null)).push(
            ("max_output_tokens"@, count(answer.max_output_tokens as i64)),
        ).push(("model"@, JsonView::Text(model))).push(
            ("output"@, JsonView::Array(output)),
        ).push(("parallel_tool_calls"@, JsonView::Bool(true))).push(
            ("previous_response_id"@, JsonView::Null),
        ).push(("store"@, JsonView::Bool(false))).push(("usage"@, usage(answer))),
    )
}

/// The block that a tool call is counted by, its arguments given as they were parsed.
pub fn make_call_block(arguments: &str, parsed: Result<Json, String>) -> (r: Json)
    ensures
        r@ == call_block(arguments@, seen(parsed)),
{
    let input = match parsed {
        Ok(input) => input,
        Err(_) => text(arguments),
    };
    Fields::new().with("type", text("tool_use")).with("input", input).into_object()
}

/// The blocks that an answer is counted by.
pub fn make_token_blocks(content: &str, calls: &Vec<CollectedCall>) -> (r: Vec<Json>)
    ensures
        items_view(r@) == token_blocks(content@, calls_view(calls@)),
{
    let ghost all = calls_view(calls@);
    let ghost count = |call: CallView| call_block(call.arguments, json_parse(call.arguments));
    let mut blocks: Vec<Json> = Vec::new();
    if !content.is_empty() {
        blocks.push(make_text_block(content));
    }
    let ghost front = items_view(blocks@);
    assert(front =~= if content@.len() > 0 {
        seq![text_block(content@)]
    } else {
        Seq::empty()
    });
    assert(front + all.take(0).map_values(count) =~= front);
    for i in 0..calls.len()
        invariant
            all == calls_view(calls@),
            count == |call: CallView| call_block(call.arguments, json_parse(call.arguments)),
            items_view(blocks@) == front + all.take(i as int).map_values(count),
    {
        let arguments = calls[i].arguments.as_str();
        let block = make_call_block(arguments, parse(arguments));
        let ghost before = items_view(blocks@);
        blocks.push(block);
        assert(items_view(blocks@) =~= before.push(block@));
        assert(all.take(i + 1).map_values(count) =~= all.take(i as int).map_values(count).push(
            block@,
        ));
        assert(items_view(blocks@) =~= front + all.take(i + 1).map_values(count));
    }
    assert(all.take(all.len() as int) =~= all);
    blocks
}

/// An array without items.
pub fn empty_array() -> (r: Json)
    ensures
        r@ == JsonView::Array(Seq::empty()),
{
    let items: Vec<Json> = Vec::new();
    assert(items_view(items@) =~= Seq::<JsonView>::empty());
    array(items)
}

/// A part of a message of the output.
pub fn make_output_part(content: &str) -> (r: Json)
    ensures
        r@ == output_part(content@),
{
    Fields::new().with("type", text("output_text")).with("text", text(content)).with(
        "annotations",
        empty_array(),
    ).with("logprobs", empty_array()).into_object()
}

/// A message of the output.
pub fn make_output_message(id: &str, status: &str, content: Json) -> (r: Json)
    requires
        content@ is Array,
    ensures
        r@ == output_message(id@, status@, content@->Array_0),
{
    Fields::new().with("id", text(id)).with("type", text("message")).with(
        "status",
        text(status),
    ).with("role", text("assistant")).with("content", content).into_object()
}

/// A tool call of the output.
pub fn make_output_call(call: &CollectedCall, status: &str, arguments: &str) -> (r: Json)
    ensures
        r@ == output_call(call@, status@, arguments@),
{
    Fields::new().with("id", text(call.item_id.as_str())).with("type", text("function_call")).with(
        "status",
        text(status),
    ).with("call_id", text(call.call_id.as_str())).with("name", text(call.name.as_str())).with(
        "arguments",
        text(arguments),
    ).into_object()
}

/// What an answer cost.
fn make_usage(answer: &CollectedResponse) -> (r: Json)
    requires
        total_fits(answer.input_tokens, answer.output_tokens),
    ensures
        r@ == usage(answer@),
{
    let total: i32 = answer.input_tokens + answer.output_tokens;
    Fields::new().with("input_tokens", signed(answer.input_tokens as i64)).with(
        "input_tokens_details",
        Fields::new().with("cached_tokens", signed(0)).into_object(),
    ).with("output_tokens", signed(answer.output_tokens as i64)).with(
        "output_tokens_details",
        Fields::new().with("reasoning_tokens", signed(0)).into_object(),
    ).with("total_tokens", signed(total as i64)).into_object()
}

/// The response object for an answer.
pub fn response_snapshot(
    response_id: &str,
    model: &str,
    answer: &CollectedResponse,
    output: Vec<Json>,
    error: Option<Json>,
) -> (r: Json)
    requires
        total_fits(answer.input_tokens, answer.output_tokens),
    ensures
        r@ == response_object(
            response_id@,
            model@,
            answer@,
            items_view(output@),
            maybe_json(error),
        ),
{
    let status = if error.is_some() {
        "failed"
    } else if answer.incomplete_reason.is_some() {
        "incomplete"
    } else {
        "completed"
    };
    let error = match error {
        Some(error) => error,
        None => Json::Null,
    };
    let details = match &answer.incomplete_reason {
        Some(reason) => Fields::new().with("reason", text(reason.as_str())).into_object(),
        None => Json::Null,
    };
    Fields::new().with("id", text(response_id)).with("object", text("response")).with(
        "created_at",
        signed(answer.created_at),
    ).with("status", text(status)).with("background", Json::Bool(false)).with("error", error).with(
        "incomplete_details",
        details,
    ).with("instructions", Json::Null).with(
        "max_output_tokens",
        signed(answer.max_output_tokens as i64),
    ).with("model", text(model)).with("output", array(output)).with(
        "parallel_tool_calls",
        Json::Bool(true),
    ).with("previous_response_id", Json::Null).with("store", Json::Bool(false)).with(
        "usage",
        make_usage(answer),
    ).into_object()
}

/// The response object for an answer, with its output.
pub fn build_response_body(response_id: &str, model: &str, answer: &CollectedResponse) -> (r: Json)
    requires
        total_fits(answer.input_tokens, answer.output_tokens),
    ensures
        r@ == response_object(response_id@, model@, answer@, output_items(answer@), None),
{
    let ghost all = answer@.calls;
    let ghost item = |call: CallView| output_call(call, "completed"@, call.arguments);
    let mut output: Vec<Json> = Vec::new();
    if let Some(item_id) = &answer.text_item_id {
        let content = array_of_one(make_output_part(answer.text.as_str()));
        output.push(make_output_message(item_id.as_str(), "completed", content));
    }
    let ghost front = items_view(output@);
    assert(front =~= match answer@.text_item_id {
        Some(id) => seq![output_message(id, "completed"@, seq![output_part(answer@.text)])],
        None => Seq::empty(),
    });
    assert(front + all.take(0).map_values(item) =~= front);
    for i in 0..answer.calls.len()
        invariant
            all == calls_view(answer.calls@),
            item == |call: CallView| output_call(call, "completed"@, call.arguments),
            items_view(output@) == front + all.take(i as int).map_values(item),
    {
        let call = &answer.calls[i];
        let next = make_output_call(call, "completed", call.arguments.as_str());
        let ghost before = items_view(output@);
        output.push(next);
        assert(items_view(output@) =~= before.push(next@));
        assert(all.take(i + 1).map_values(item) =~= all.take(i as int).map_values(item).push(
            next@,
        ));
        assert(items_view(output@) =~= front + all.take(i + 1).map_values(item));
    }
    assert(all.take(all.len() as int) =~= all);
    response_snapshot(response_id, model, answer, output, None)
}

} // verus!
