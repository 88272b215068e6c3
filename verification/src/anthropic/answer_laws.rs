//! What an answer looks like to a client, field by field: as a whole, and as a stream.

use vstd::prelude::*;

use crate::amount::{Amount, HUNDRED_BITS};
use crate::anthropic::collected::{
    call_block, calls_view, output_call, output_items, output_message, output_part, response_object,
    token_blocks, usage, CallView, CollectedResponse,
};
use crate::anthropic::events::{tool_processed, CallsView, Event, Frame, ToolUseEvent};
use crate::anthropic::exchange::{answer_gathered, collects, piece_outcome, Answer};
use crate::anthropic::stream::{
    are_call_ids, arguments_notice, call_notices, calls_complete, calls_notices, completes_call,
    counted, ends_with, failed_notices, finish_notices, frame, frame_processed, frame_text, frames,
    frames_processed, gathered, initial_notices, is_item_id, item_notice, message_id, new_context,
    numbered, processed, spoken, text_notices, unfinished_message, ContextView, NoticeView,
};
use crate::anthropic::thinking::leaves;
use crate::json::{
    arranged, as_text, field, int_number, json_parse, json_text, lemma_lookup_nothing,
    lemma_lookup_pushed, lookup, text_field, Json, JsonView,
};
use crate::order::{lemma_listing_exists, lemma_text_order, listing, text_order};
use crate::rows::{lemma_picked_add, lemma_picked_push};
use crate::text::{joined, maybe_text, occurs_at, occurs_in};

verus! {

/// A whole number as a tree.
pub open spec fn whole_number(n: int) -> JsonView {
    JsonView::Number(int_number(n as i64))
}

/// The names of the fields of an item are not the same.
proof fn lemma_item_names()
    ensures
        "id"@.len() == 2,
        "type"@.len() == 4 && "type"@[0] == 't' && "type"@[1] == 'y',
        "text"@.len() == 4 && "text"@[0] == 't' && "text"@[1] == 'e',
        "role"@.len() == 4 && "role"@[0] == 'r',
        "name"@.len() == 4 && "name"@[0] == 'n',
        "input"@.len() == 5,
        "status"@.len() == 6,
        "content"@.len() == 7 && "content"@[1] == 'o',
        "call_id"@.len() == 7 && "call_id"@[1] == 'a',
        "logprobs"@.len() == 8,
        "arguments"@.len() == 9,
        "annotations"@.len() == 11,
{
    reveal_strlit("id");
    reveal_strlit("type");
    reveal_strlit("text");
    reveal_strlit("role");
    reveal_strlit("name");
    reveal_strlit("input");
    reveal_strlit("status");
    reveal_strlit("content");
    reveal_strlit("call_id");
    reveal_strlit("logprobs");
    reveal_strlit("arguments");
    reveal_strlit("annotations");
}

/// The names of the fields of a response are not the same.
proof fn lemma_response_names()
    ensures
        "id"@.len() == 2,
        "error"@.len() == 5 && "error"@[0] == 'e',
        "model"@.len() == 5 && "model"@[0] == 'm',
        "store"@.len() == 5 && "store"@[0] == 's',
        "usage"@.len() == 5 && "usage"@[0] == 'u',
        "object"@.len() == 6 && "object"@[0] == 'o' && "object"@[1] == 'b',
        "output"@.len() == 6 && "output"@[0] == 'o' && "output"@[1] == 'u',
        "status"@.len() == 6 && "status"@[0] == 's',
        "created_at"@.len() == 10 && "created_at"@[0] == 'c',
        "background"@.len() == 10 && "background"@[0] == 'b',
        "instructions"@.len() == 12,
        "max_output_tokens"@.len() == 17,
        "incomplete_details"@.len() == 18,
        "parallel_tool_calls"@.len() == 19,
        "previous_response_id"@.len() == 20,
        "input_tokens"@.len() == 12 && "input_tokens"@[0] == 'i',
        "total_tokens"@.len() == 12 && "total_tokens"@[0] == 't',
        "output_tokens"@.len() == 13,
        "input_tokens_details"@.len() == 20,
        "output_tokens_details"@.len() == 21,
        "code"@.len() == 4,
        "message"@.len() == 7,
{
    reveal_strlit("id");
    reveal_strlit("error");
    reveal_strlit("model");
    reveal_strlit("store");
    reveal_strlit("usage");
    reveal_strlit("object");
    reveal_strlit("output");
    reveal_strlit("status");
    reveal_strlit("created_at");
    reveal_strlit("background");
    reveal_strlit("instructions");
    reveal_strlit("max_output_tokens");
    reveal_strlit("incomplete_details");
    reveal_strlit("parallel_tool_calls");
    reveal_strlit("previous_response_id");
    reveal_strlit("input_tokens");
    reveal_strlit("total_tokens");
    reveal_strlit("output_tokens");
    reveal_strlit("input_tokens_details");
    reveal_strlit("output_tokens_details");
    reveal_strlit("code");
    reveal_strlit("message");
}

/// What a tool call of the output says.
pub open spec fn is_call_item(
    item: JsonView,
    status: Seq<char>,
    item_id: Seq<char>,
    call_id: Seq<char>,
    name: Seq<char>,
    arguments: Seq<char>,
) -> bool {
    &&& text_field(item, "type"@) == Some("function_call"@)
    &&& text_field(item, "status"@) == Some(status)
    &&& text_field(item, "id"@) == Some(item_id)
    &&& text_field(item, "call_id"@) == Some(call_id)
    &&& text_field(item, "name"@) == Some(name)
    &&& text_field(item, "arguments"@) == Some(arguments)
}

/// A part of a message of the output that says a text.
pub open spec fn is_text_part(part: JsonView, content: Seq<char>) -> bool {
    &&& text_field(part, "type"@) == Some("output_text"@)
    &&& text_field(part, "text"@) == Some(content)
    &&& field(part, "annotations"@) == Some(JsonView::Array(Seq::empty()))
    &&& field(part, "logprobs"@) == Some(JsonView::Array(Seq::empty()))
}

/// A message of the output.
pub open spec fn is_message_item(item: JsonView, status: Seq<char>, item_id: Seq<char>) -> bool {
    &&& text_field(item, "type"@) == Some("message"@)
    &&& text_field(item, "role"@) == Some("assistant"@)
    &&& text_field(item, "status"@) == Some(status)
    &&& text_field(item, "id"@) == Some(item_id)
}

/// A message of the output that says one text.
pub open spec fn says(item: JsonView, content: Seq<char>) -> bool {
    field(item, "content"@) matches Some(JsonView::Array(parts)) && parts.len() == 1
        && is_text_part(parts[0], content)
}

proof fn lemma_call_item(call: CallView, status: Seq<char>, arguments: Seq<char>)
    ensures
        is_call_item(
            output_call(call, status, arguments),
            status,
            call.item_id,
            call.call_id,
            call.name,
            arguments,
        ),
{
    broadcast use {lemma_lookup_pushed, lemma_lookup_nothing};

    lemma_item_names();
}

proof fn lemma_text_part(content: Seq<char>)
    ensures
        is_text_part(output_part(content), content),
{
    broadcast use {lemma_lookup_pushed, lemma_lookup_nothing};

    lemma_item_names();
}

proof fn lemma_message_item(id: Seq<char>, status: Seq<char>, content: Seq<JsonView>)
    ensures
        is_message_item(output_message(id, status, content), status, id),
        field(output_message(id, status, content), "content"@) == Some(JsonView::Array(content)),
{
    broadcast use {lemma_lookup_pushed, lemma_lookup_nothing};

    lemma_item_names();
}

/// The items of the output of a response.
pub open spec fn output_of(response: JsonView) -> Seq<JsonView> {
    match field(response, "output"@) {
        Some(JsonView::Array(items)) => items,
        _ => Seq::empty(),
    }
}

/// The response for an answer hands the client all of the answer: its text as the one
/// message, where there is one, and behind it every call, in order, with its name and its
/// arguments.
pub proof fn law_response_holds_the_answer(
    id: Seq<char>,
    model: Seq<char>,
    answer: CollectedResponse,
    body: Json,
)
    requires
        body@ == response_object(id, model, answer@, output_items(answer@), None),
    ensures
        ({
            let output = output_of(body@);
            let first = if answer.text_item_id is Some {
                1int
            } else {
                0int
            };
            &&& field(body@, "output"@) == Some(JsonView::Array(output))
            &&& output.len() == first + answer.calls@.len()
            &&& answer.text_item_id matches Some(item_id) ==> is_message_item(
                output[0],
                "completed"@,
                item_id@,
            ) && says(output[0], answer.text@)
            &&& forall|i: int|
                #![trigger answer.calls@[i]]
                0 <= i < answer.calls@.len() ==> is_call_item(
                    output[first + i],
                    "completed"@,
                    answer.calls@[i].item_id@,
                    answer.calls@[i].call_id@,
                    answer.calls@[i].name@,
                    answer.calls@[i].arguments@,
                )
        }),
{
    broadcast use {lemma_lookup_pushed, lemma_lookup_nothing};

    lemma_response_names();
    let output = output_items(answer@);
    assert(output_of(body@) == output);
    if answer.text_item_id is Some {
        let parts = seq![output_part(answer.text@)];
        lemma_text_part(answer.text@);
        lemma_message_item(answer.text_item_id->0@, "completed"@, parts);
        assert(output[0] == output_message(answer.text_item_id->0@, "completed"@, parts));
    }
    let first = if answer.text_item_id is Some {
        1int
    } else {
        0int
    };
    assert forall|i: int|
        #![trigger answer.calls@[i]]
        0 <= i < answer.calls@.len() implies is_call_item(
        output[first + i],
        "completed"@,
        answer.calls@[i].item_id@,
        answer.calls@[i].call_id@,
        answer.calls@[i].name@,
        answer.calls@[i].arguments@,
    ) by {
        let call = answer.calls@[i]@;
        lemma_call_item(call, "completed"@, call.arguments);
        assert(answer@.calls[i] == call);
    }
}

/// The response for an answer says whose answer it is, when it was made, whether it is
/// complete and, where it is not, why; and what it cost.
pub proof fn law_response_describes_the_answer(
    id: Seq<char>,
    model: Seq<char>,
    answer: CollectedResponse,
    body: Json,
)
    requires
        body@ == response_object(id, model, answer@, output_items(answer@), None),
    ensures
        text_field(body@, "object"@) == Some("response"@),
        text_field(body@, "id"@) == Some(id),
        text_field(body@, "model"@) == Some(model),
        text_field(body@, "status"@) == Some(
            if answer.incomplete_reason is Some {
                "incomplete"@
            } else {
                "completed"@
            },
        ),
        field(body@, "created_at"@) == Some(whole_number(answer.created_at as int)),
        field(body@, "max_output_tokens"@) == Some(whole_number(answer.max_output_tokens as int)),
        field(body@, "error"@) == Some(JsonView::Null),
        field(body@, "instructions"@) == Some(JsonView::Null),
        field(body@, "previous_response_id"@) == Some(JsonView::Null),
        field(body@, "background"@) == Some(JsonView::Bool(false)),
        field(body@, "store"@) == Some(JsonView::Bool(false)),
        field(body@, "parallel_tool_calls"@) == Some(JsonView::Bool(true)),
        match answer.incomplete_reason {
            Some(reason) => field(body@, "incomplete_details"@) matches Some(details)
                && text_field(details, "reason"@) == Some(reason@),
            None => field(body@, "incomplete_details"@) == Some(JsonView::Null),
        },
        field(body@, "usage"@) matches Some(cost) && {
            &&& field(cost, "input_tokens"@) == Some(whole_number(answer.input_tokens as int))
            &&& field(cost, "output_tokens"@) == Some(whole_number(answer.output_tokens as int))
            &&& field(cost, "total_tokens"@) == Some(
                whole_number(answer.input_tokens + answer.output_tokens),
            )
            &&& field(cost, "input_tokens_details"@) matches Some(details) && field(
                details,
                "cached_tokens"@,
            ) == Some(whole_number(0))
            &&& field(cost, "output_tokens_details"@) matches Some(details) && field(
                details,
                "reasoning_tokens"@,
            ) == Some(whole_number(0))
        },
{
    broadcast use {lemma_lookup_pushed, lemma_lookup_nothing};

    lemma_response_names();
}

/// The kinds of notices are not the same.
proof fn lemma_kinds()
    ensures
        "response.output_item.added"@.len() == 26 && "response.output_item.added"@[9] == 'o'
            && "response.output_item.added"@[16] == 'i',
        "response.output_item.done"@.len() == 25 && "response.output_item.done"@[9] == 'o'
            && "response.output_item.done"@[16] == 'i',
        "response.output_text.delta"@.len() == 26 && "response.output_text.delta"@[9] == 'o'
            && "response.output_text.delta"@[16] == 't',
        "response.output_text.done"@.len() == 25 && "response.output_text.done"@[9] == 'o'
            && "response.output_text.done"@[16] == 't',
        "response.content_part.added"@.len() == 27,
        "response.content_part.done"@.len() == 26 && "response.content_part.done"@[9] == 'c',
        "response.function_call_arguments.delta"@.len() == 38,
        "response.function_call_arguments.done"@.len() == 37,
        "response.completed"@.len() == 18,
        "response.incomplete"@.len() == 19,
{
    reveal_strlit("response.output_item.added");
    reveal_strlit("response.output_item.done");
    reveal_strlit("response.output_text.delta");
    reveal_strlit("response.output_text.done");
    reveal_strlit("response.content_part.added");
    reveal_strlit("response.content_part.done");
    reveal_strlit("response.function_call_arguments.delta");
    reveal_strlit("response.function_call_arguments.done");
    reveal_strlit("response.completed");
    reveal_strlit("response.incomplete");
}

/// The names of the data of a notice are not the same.
proof fn lemma_notice_names()
    ensures
        "item"@.len() == 4 && "item"@[0] == 'i',
        "part"@.len() == 4 && "part"@[0] == 'p',
        "text"@.len() == 4 && "text"@[0] == 't',
        "delta"@.len() == 5,
        "item_id"@.len() == 7,
        "arguments"@.len() == 9,
        "output_index"@.len() == 12,
        "content_index"@.len() == 13,
{
    reveal_strlit("item");
    reveal_strlit("part");
    reveal_strlit("text");
    reveal_strlit("delta");
    reveal_strlit("item_id");
    reveal_strlit("arguments");
    reveal_strlit("output_index");
    reveal_strlit("content_index");
}

/// Picks what notices of a kind carry under a name.
pub open spec fn carried(kind: Seq<char>, name: Seq<char>) -> spec_fn(NoticeView) -> Option<
    JsonView,
> {
    |notice: NoticeView|
        if notice.kind == kind {
            lookup(notice.data, name)
        } else {
            None
        }
}

proof fn lemma_four<A, B>(a: A, b: A, c: A, d: A, pick: spec_fn(A) -> Option<B>)
    ensures
        Seq::<A>::empty().push(a).push(b).push(c).push(d).filter_map(pick) == ({
            let none = Seq::<B>::empty();
            let one = match pick(a) {
                Some(found) => none.push(found),
                None => none,
            };
            let two = match pick(b) {
                Some(found) => one.push(found),
                None => one,
            };
            let three = match pick(c) {
                Some(found) => two.push(found),
                None => two,
            };
            match pick(d) {
                Some(found) => three.push(found),
                None => three,
            }
        }),
{
    let none = Seq::<A>::empty();
    assert(none.filter_map(pick) =~= Seq::<B>::empty());
    lemma_picked_push(none, a, pick);
    lemma_picked_push(none.push(a), b, pick);
    lemma_picked_push(none.push(a).push(b), c, pick);
    lemma_picked_push(none.push(a).push(b).push(c), d, pick);
}

/// What the notices on a row of calls carry, where those on one call carry one thing.
proof fn lemma_carried_by_calls(
    calls: Seq<CallView>,
    first: i64,
    n: nat,
    pick: spec_fn(NoticeView) -> Option<JsonView>,
    one: spec_fn(CallView) -> JsonView,
)
    requires
        n <= calls.len(),
        forall|call: CallView, index: i64|
            #[trigger] call_notices(call, index).filter_map(pick) == Seq::<JsonView>::empty().push(
                one(call),
            ),
    ensures
        calls_notices(calls, first, n).filter_map(pick) == calls.take(n as int).map_values(one),
    decreases n,
{
    if n == 0 {
        assert(calls_notices(calls, first, n).filter_map(pick) =~= calls.take(0).map_values(one));
    } else {
        let m = (n - 1) as nat;
        lemma_carried_by_calls(calls, first, m, pick, one);
        let last = call_notices(calls[m as int], (first + n - 1) as i64);
        lemma_picked_add(calls_notices(calls, first, m), last, pick);
        assert(last.filter_map(pick) == Seq::<JsonView>::empty().push(one(calls[m as int])));
        assert(calls_notices(calls, first, n).filter_map(pick) =~= calls.take(n as int).map_values(
            one,
        ));
    }
}

/// The notices on a row of calls carry nothing that those on one call do not.
proof fn lemma_not_carried_by_calls(
    calls: Seq<CallView>,
    first: i64,
    n: nat,
    pick: spec_fn(NoticeView) -> Option<JsonView>,
)
    requires
        n <= calls.len(),
        forall|call: CallView, index: i64|
            #[trigger] call_notices(call, index).filter_map(pick) == Seq::<JsonView>::empty(),
    ensures
        calls_notices(calls, first, n).filter_map(pick) == Seq::<JsonView>::empty(),
    decreases n,
{
    if n > 0 {
        let m = (n - 1) as nat;
        lemma_not_carried_by_calls(calls, first, m, pick);
        let last = call_notices(calls[m as int], (first + n - 1) as i64);
        lemma_picked_add(calls_notices(calls, first, m), last, pick);
        assert(last.filter_map(pick) == Seq::<JsonView>::empty());
        assert(calls_notices(calls, first, n).filter_map(pick) =~= Seq::<JsonView>::empty());
    } else {
        assert(calls_notices(calls, first, n).filter_map(pick) =~= Seq::<JsonView>::empty());
    }
}

/// What the notices on one call carry.
proof fn lemma_carried_by_call(call: CallView, index: i64)
    ensures
        call_notices(call, index).filter_map(carried("response.output_item.added"@, "item"@))
            == Seq::<JsonView>::empty().push(output_call(call, "in_progress"@, ""@)),
        call_notices(call, index).filter_map(carried("response.output_item.done"@, "item"@))
            == Seq::<JsonView>::empty().push(output_call(call, "completed"@, call.arguments)),
        call_notices(call, index).filter_map(
            carried("response.function_call_arguments.delta"@, "delta"@),
        ) == Seq::<JsonView>::empty().push(JsonView::Text(call.arguments)),
        call_notices(call, index).filter_map(
            carried("response.function_call_arguments.done"@, "arguments"@),
        ) == Seq::<JsonView>::empty().push(JsonView::Text(call.arguments)),
        call_notices(call, index).filter_map(carried("response.output_text.delta"@, "delta"@))
            == Seq::<JsonView>::empty(),
        call_notices(call, index).filter_map(carried("response.output_text.done"@, "text"@))
            == Seq::<JsonView>::empty(),
        call_notices(call, index).filter_map(carried("response.content_part.added"@, "part"@))
            == Seq::<JsonView>::empty(),
        call_notices(call, index).filter_map(carried("response.content_part.done"@, "part"@))
            == Seq::<JsonView>::empty(),
{
    broadcast use {lemma_lookup_pushed, lemma_lookup_nothing};

    lemma_kinds();
    lemma_notice_names();
    let a = item_notice(
        "response.output_item.added"@,
        index,
        output_call(call, "in_progress"@, ""@),
    );
    let b = arguments_notice("response.function_call_arguments.delta"@, call, index, "delta"@);
    let c = arguments_notice("response.function_call_arguments.done"@, call, index, "arguments"@);
    let d = item_notice(
        "response.output_item.done"@,
        index,
        output_call(call, "completed"@, call.arguments),
    );
    lemma_four(a, b, c, d, carried("response.output_item.added"@, "item"@));
    lemma_four(a, b, c, d, carried("response.output_item.done"@, "item"@));
    lemma_four(a, b, c, d, carried("response.function_call_arguments.delta"@, "delta"@));
    lemma_four(a, b, c, d, carried("response.function_call_arguments.done"@, "arguments"@));
    lemma_four(a, b, c, d, carried("response.output_text.delta"@, "delta"@));
    lemma_four(a, b, c, d, carried("response.output_text.done"@, "text"@));
    lemma_four(a, b, c, d, carried("response.content_part.added"@, "part"@));
    lemma_four(a, b, c, d, carried("response.content_part.done"@, "part"@));
}

proof fn lemma_six<A, B>(a: A, b: A, c: A, d: A, e: A, f: A, pick: spec_fn(A) -> Option<B>)
    ensures
        Seq::<A>::empty().push(a).push(b).push(c).push(d).push(e).push(f).filter_map(pick) == ({
            let four = Seq::<A>::empty().push(a).push(b).push(c).push(d).filter_map(pick);
            let five = match pick(e) {
                Some(found) => four.push(found),
                None => four,
            };
            match pick(f) {
                Some(found) => five.push(found),
                None => five,
            }
        }),
{
    let four = Seq::<A>::empty().push(a).push(b).push(c).push(d);
    lemma_picked_push(four, e, pick);
    lemma_picked_push(four.push(e), f, pick);
}

/// What the notices on a message carry.
proof fn lemma_carried_by_message(id: Seq<char>, content: Seq<char>, index: i64)
    ensures
        text_notices(id, content, index).filter_map(
            carried("response.output_item.added"@, "item"@),
        ) == Seq::<JsonView>::empty().push(
            output_message(id, "in_progress"@, Seq::empty()),
        ),
        text_notices(id, content, index).filter_map(
            carried("response.output_item.done"@, "item"@),
        ) == Seq::<JsonView>::empty().push(
            output_message(id, "completed"@, seq![output_part(content)]),
        ),
        text_notices(id, content, index).filter_map(
            carried("response.function_call_arguments.delta"@, "delta"@),
        ) == Seq::<JsonView>::empty(),
        text_notices(id, content, index).filter_map(
            carried("response.function_call_arguments.done"@, "arguments"@),
        ) == Seq::<JsonView>::empty(),
        text_notices(id, content, index).filter_map(
            carried("response.output_text.delta"@, "delta"@),
        ) == Seq::<JsonView>::empty().push(
            JsonView::Text(content),
        ),
        text_notices(id, content, index).filter_map(
            carried("response.output_text.done"@, "text"@),
        ) == Seq::<JsonView>::empty().push(
            JsonView::Text(content),
        ),
        text_notices(id, content, index).filter_map(
            carried("response.content_part.added"@, "part"@),
        ) == Seq::<JsonView>::empty().push(
            output_part(""@),
        ),
        text_notices(id, content, index).filter_map(
            carried("response.content_part.done"@, "part"@),
        ) == Seq::<JsonView>::empty().push(
            output_part(content),
        ),
{
    broadcast use {lemma_lookup_pushed, lemma_lookup_nothing};

    lemma_kinds();
    lemma_notice_names();
    let notices = text_notices(id, content, index);
    let a = notices[0];
    let b = notices[1];
    let c = notices[2];
    let d = notices[3];
    let e = notices[4];
    let f = notices[5];
    assert(notices =~= Seq::<NoticeView>::empty().push(a).push(b).push(c).push(d).push(e).push(f));
    lemma_four(a, b, c, d, carried("response.output_item.added"@, "item"@));
    lemma_six(a, b, c, d, e, f, carried("response.output_item.added"@, "item"@));
    lemma_four(a, b, c, d, carried("response.output_item.done"@, "item"@));
    lemma_six(a, b, c, d, e, f, carried("response.output_item.done"@, "item"@));
    lemma_four(a, b, c, d, carried("response.function_call_arguments.delta"@, "delta"@));
    lemma_six(a, b, c, d, e, f, carried("response.function_call_arguments.delta"@, "delta"@));
    lemma_four(a, b, c, d, carried("response.function_call_arguments.done"@, "arguments"@));
    lemma_six(a, b, c, d, e, f, carried("response.function_call_arguments.done"@, "arguments"@));
    lemma_four(a, b, c, d, carried("response.output_text.delta"@, "delta"@));
    lemma_six(a, b, c, d, e, f, carried("response.output_text.delta"@, "delta"@));
    lemma_four(a, b, c, d, carried("response.output_text.done"@, "text"@));
    lemma_six(a, b, c, d, e, f, carried("response.output_text.done"@, "text"@));
    lemma_four(a, b, c, d, carried("response.content_part.added"@, "part"@));
    lemma_six(a, b, c, d, e, f, carried("response.content_part.added"@, "part"@));
    lemma_four(a, b, c, d, carried("response.content_part.done"@, "part"@));
    lemma_six(a, b, c, d, e, f, carried("response.content_part.done"@, "part"@));
}

/// What the notices that end an answer carry: what those on its message carry, what those
/// on its calls carry, and what the last one carries.
proof fn lemma_carried_at_the_end(
    context: ContextView,
    content: Seq<char>,
    item_id: Seq<char>,
    output_tokens: i32,
    pick: spec_fn(NoticeView) -> Option<JsonView>,
)
    requires
        pick(finish_notices(context, content, item_id, output_tokens).last()) is None,
    ensures
        finish_notices(context, content, item_id, output_tokens).filter_map(pick) == (
        if content.len() > 0 {
            text_notices(item_id, content, 0).filter_map(pick)
        } else {
            Seq::empty()
        }) + calls_notices(
            context.calls.done,
            if content.len() > 0 {
                1
            } else {
                0
            },
            context.calls.done.len(),
        ).filter_map(pick),
{
    let notices = finish_notices(context, content, item_id, output_tokens);
    let message = if content.len() > 0 {
        text_notices(item_id, content, 0)
    } else {
        Seq::empty()
    };
    let calls = calls_notices(
        context.calls.done,
        if content.len() > 0 {
            1
        } else {
            0
        },
        context.calls.done.len(),
    );
    assert(notices =~= (message + calls).push(notices.last()));
    lemma_picked_push(message + calls, notices.last(), pick);
    lemma_picked_add(message, calls, pick);
    if content.len() == 0 {
        assert(message.filter_map(pick) =~= Seq::<JsonView>::empty());
    }
}

/// The response that the last notice of an answer carries.
pub open spec fn last_response(notices: Seq<NoticeView>) -> JsonView {
    match lookup(notices.last().data, "response"@) {
        Some(response) => response,
        None => JsonView::Null,
    }
}

/// What a stream tells of an answer piece by piece is what its last notice tells as a
/// whole: the items that it says are done are, in order, the output of the response; and
/// what it says of the text and of the arguments of calls, in pieces and once more when
/// they are done, adds up to the text and the arguments in that output.
pub proof fn law_stream_adds_up(
    context: ContextView,
    content: Seq<char>,
    item_id: Seq<char>,
    output_tokens: i32,
)
    ensures
        ({
            let notices = finish_notices(context, content, item_id, output_tokens);
            let output = output_of(last_response(notices));
            let calls = output.skip(
                if content.len() > 0 {
                    1
                } else {
                    0
                },
            );
            let texts = |items: Seq<JsonView>|
                items.map_values(|item: JsonView| as_text(Some(item))->0);
            let arguments = calls.map_values(|item: JsonView| field(item, "arguments"@)->0);
            &&& field(last_response(notices), "output"@) == Some(JsonView::Array(output))
            &&& notices.filter_map(carried("response.output_item.done"@, "item"@)) == output
            &&& output.len() == context.calls.done.len() + if content.len() > 0 {
                1int
            } else {
                0int
            }
            &&& texts(
                notices.filter_map(carried("response.output_text.delta"@, "delta"@)),
            ).flatten() == content
            &&& texts(
                notices.filter_map(carried("response.output_text.done"@, "text"@)),
            ).flatten() == content
            &&& content.len() > 0 ==> is_message_item(output[0], "completed"@, item_id) && says(
                output[0],
                content,
            )
            &&& forall|i: int|
                #![trigger context.calls.done[i]]
                0 <= i < context.calls.done.len() ==> is_call_item(
                    calls[i],
                    "completed"@,
                    context.calls.done[i].item_id,
                    context.calls.done[i].call_id,
                    context.calls.done[i].name,
                    context.calls.done[i].arguments,
                )
            &&& notices.filter_map(carried("response.function_call_arguments.delta"@, "delta"@))
                == arguments
            &&& notices.filter_map(
                carried("response.function_call_arguments.done"@, "arguments"@),
            ) == arguments
            &&& notices.filter_map(carried("response.content_part.done"@, "part"@)) == if content.len()
                > 0 {
                field(output[0], "content"@)->0->Array_0
            } else {
                Seq::empty()
            }
        }),
{
    broadcast use {lemma_lookup_pushed, lemma_lookup_nothing};

    lemma_kinds();
    lemma_notice_names();
    lemma_response_names();
    let notices = finish_notices(context, content, item_id, output_tokens);
    let done = context.calls.done;
    let n = done.len();
    let first = if content.len() > 0 {
        1i64
    } else {
        0i64
    };
    let items = carried("response.output_item.done"@, "item"@);
    let said = carried("response.output_text.delta"@, "delta"@);
    let said_again = carried("response.output_text.done"@, "text"@);
    let given = carried("response.function_call_arguments.delta"@, "delta"@);
    let given_again = carried("response.function_call_arguments.done"@, "arguments"@);
    let parts = carried("response.content_part.done"@, "part"@);
    let output = output_of(last_response(notices));
    lemma_carried_by_message(item_id, content, 0);
    assert forall|call: CallView, index: i64| #![trigger call_notices(call, index)] true implies {
        &&& call_notices(call, index).filter_map(items) == Seq::<JsonView>::empty().push(
            output_call(call, "completed"@, call.arguments),
        )
        &&& call_notices(call, index).filter_map(given) == Seq::<JsonView>::empty().push(
            JsonView::Text(call.arguments),
        )
        &&& call_notices(call, index).filter_map(given_again) == Seq::<JsonView>::empty().push(
            JsonView::Text(call.arguments),
        )
        &&& call_notices(call, index).filter_map(said) == Seq::<JsonView>::empty()
        &&& call_notices(call, index).filter_map(said_again) == Seq::<JsonView>::empty()
        &&& call_notices(call, index).filter_map(parts) == Seq::<JsonView>::empty()
    } by {
        lemma_carried_by_call(call, index);
    }
    let whole = |call: CallView| output_call(call, "completed"@, call.arguments);
    let only = |call: CallView| JsonView::Text(call.arguments);
    assert(done.take(n as int) =~= done);
    lemma_carried_by_calls(done, first, n, items, whole);
    lemma_carried_by_calls(done, first, n, given, only);
    lemma_carried_by_calls(done, first, n, given_again, only);
    lemma_not_carried_by_calls(done, first, n, said);
    lemma_not_carried_by_calls(done, first, n, said_again);
    lemma_not_carried_by_calls(done, first, n, parts);
    lemma_carried_at_the_end(context, content, item_id, output_tokens, items);
    lemma_carried_at_the_end(context, content, item_id, output_tokens, said);
    lemma_carried_at_the_end(context, content, item_id, output_tokens, said_again);
    lemma_carried_at_the_end(context, content, item_id, output_tokens, given);
    lemma_carried_at_the_end(context, content, item_id, output_tokens, given_again);
    lemma_carried_at_the_end(context, content, item_id, output_tokens, parts);
    let answer = gathered(context, content, message_id(content, item_id), output_tokens);
    assert(output == output_items(answer));
    assert(notices.filter_map(items) =~= output);
    let texts = |items: Seq<JsonView>| items.map_values(|item: JsonView| as_text(Some(item))->0);
    if content.len() > 0 {
        lemma_text_part(content);
        lemma_message_item(item_id, "completed"@, seq![output_part(content)]);
        assert(output[0] == output_message(item_id, "completed"@, seq![output_part(content)]));
        assert(texts(notices.filter_map(said)) =~= seq![content]);
        assert(texts(notices.filter_map(said_again)) =~= seq![content]);
        seq![content].lemma_flatten_one_element();
        assert(notices.filter_map(parts) =~= seq![output_part(content)]);
    } else {
        assert(texts(notices.filter_map(said)) =~= Seq::<Seq<char>>::empty());
        assert(texts(notices.filter_map(said_again)) =~= Seq::<Seq<char>>::empty());
        assert(content =~= Seq::<char>::empty());
        assert(notices.filter_map(parts) =~= Seq::<JsonView>::empty());
    }
    let calls = output.skip(first as int);
    let arguments = calls.map_values(|item: JsonView| field(item, "arguments"@)->0);
    assert forall|i: int| 0 <= i < n implies #[trigger] arguments[i] == JsonView::Text(
        done[i].arguments,
    ) by {
        lemma_call_item(done[i], "completed"@, done[i].arguments);
        assert(calls[i] == whole(done[i]));
    }
    assert forall|i: int| #![trigger done[i]] 0 <= i < n implies is_call_item(
        calls[i],
        "completed"@,
        done[i].item_id,
        done[i].call_id,
        done[i].name,
        done[i].arguments,
    ) by {
        lemma_call_item(done[i], "completed"@, done[i].arguments);
        assert(calls[i] == whole(done[i]));
    }
    assert(done.map_values(only) =~= arguments);
    assert(notices.filter_map(given) =~= arguments);
    assert(notices.filter_map(given_again) =~= arguments);
}

/// The end of an answer says what was asked, what it cost, and whether it is complete: it
/// is not where a reason has been met, or where it has as many tokens as it may have.
pub proof fn law_stream_end_describes_the_answer(
    context: ContextView,
    content: Seq<char>,
    item_id: Seq<char>,
    output_tokens: i32,
)
    ensures
        ({
            let notices = finish_notices(context, content, item_id, output_tokens);
            let response = last_response(notices);
            let incomplete = context.incomplete_reason is Some || output_tokens
                >= context.max_output_tokens;
            &&& text_field(response, "id"@) == Some(context.response_id)
            &&& text_field(response, "model"@) == Some(context.model)
            &&& field(response, "created_at"@) == Some(whole_number(context.created_at as int))
            &&& field(response, "max_output_tokens"@) == Some(
                whole_number(context.max_output_tokens as int),
            )
            &&& field(response, "error"@) == Some(JsonView::Null)
            &&& text_field(response, "status"@) == Some(
                if incomplete {
                    "incomplete"@
                } else {
                    "completed"@
                },
            )
            &&& notices.last().kind == "response."@ + text_field(response, "status"@)->0
            &&& if incomplete {
                field(response, "incomplete_details"@) matches Some(details) && text_field(
                    details,
                    "reason"@,
                ) == Some(
                    match context.incomplete_reason {
                        Some(reason) => reason,
                        None => "max_output_tokens"@,
                    },
                )
            } else {
                field(response, "incomplete_details"@) == Some(JsonView::Null)
            }
            &&& field(response, "usage"@) matches Some(cost) && {
                &&& field(cost, "input_tokens"@) == Some(whole_number(context.input_tokens as int))
                &&& field(cost, "output_tokens"@) == Some(whole_number(output_tokens as int))
                &&& field(cost, "total_tokens"@) == Some(
                    whole_number(context.input_tokens + output_tokens),
                )
            }
        }),
{
    broadcast use {lemma_lookup_pushed, lemma_lookup_nothing};

    lemma_response_names();
    reveal_strlit("response.");
    reveal_strlit("incomplete");
    reveal_strlit("completed");
    reveal_strlit("response.incomplete");
    reveal_strlit("response.completed");
    assert("response."@ + "incomplete"@ =~= "response.incomplete"@);
    assert("response."@ + "completed"@ =~= "response.completed"@);
}

/// Where a notice says that something stands in the output, and under which id.
pub open spec fn points_at(notice: NoticeView, index: int, id: Seq<char>) -> bool {
    &&& lookup(notice.data, "output_index"@) == Some(whole_number(index))
    &&& match lookup(notice.data, "item"@) {
        Some(item) => text_field(item, "id"@) == Some(id),
        None => as_text(lookup(notice.data, "item_id"@)) == Some(id),
    }
}

/// The notices on one call stand together, in the place of the call.
proof fn lemma_place_of_call(calls: Seq<CallView>, first: i64, n: nat, k: int, j: int)
    requires
        n <= calls.len(),
        0 <= k < n,
        0 <= j < 4,
    ensures
        calls_notices(calls, first, n).len() == 4 * n,
        calls_notices(calls, first, n)[4 * k + j] == call_notices(
            calls[k],
            (first + k) as i64,
        )[j],
    decreases n,
{
    let m = (n - 1) as nat;
    if m > 0 {
        lemma_place_of_call(calls, first, m, if k < m {
            k
        } else {
            0
        }, j);
    }
    let front = calls_notices(calls, first, m);
    assert(front.len() == 4 * m);
    if k < m {
        assert(calls_notices(calls, first, n)[4 * k + j] == front[4 * k + j]);
    }
}

/// A stream tells of its message first and of each call behind it, in order and one after
/// the other: that the item is there, what it holds piece by piece, and that it is done.
/// Every notice says where in the output its item stands, and under which id. An item that
/// is not done yet is in progress and holds nothing.
pub proof fn law_stream_tells_item_by_item(
    context: ContextView,
    content: Seq<char>,
    item_id: Seq<char>,
    output_tokens: i32,
    k: int,
)
    requires
        0 <= k < context.calls.done.len(),
        context.calls.done.len() < i64::MAX,
    ensures
        ({
            let notices = finish_notices(context, content, item_id, output_tokens);
            let before = if content.len() > 0 {
                6int
            } else {
                0int
            };
            let at = before + 4 * k;
            let place = k + if content.len() > 0 {
                1int
            } else {
                0int
            };
            let call = context.calls.done[k];
            &&& notices.len() == before + 4 * context.calls.done.len() + 1
            &&& notices[at].kind == "response.output_item.added"@
            &&& notices[at + 1].kind == "response.function_call_arguments.delta"@
            &&& notices[at + 2].kind == "response.function_call_arguments.done"@
            &&& notices[at + 3].kind == "response.output_item.done"@
            &&& forall|j: int|
                at <= j < at + 4 ==> points_at(#[trigger] notices[j], place, call.item_id)
            &&& lookup(notices[at].data, "item"@) matches Some(item) && is_call_item(
                item,
                "in_progress"@,
                call.item_id,
                call.call_id,
                call.name,
                Seq::empty(),
            )
        }),
{
    broadcast use {lemma_lookup_pushed, lemma_lookup_nothing};

    lemma_notice_names();
    reveal_strlit("");
    let notices = finish_notices(context, content, item_id, output_tokens);
    let done = context.calls.done;
    let n = done.len();
    let first = if content.len() > 0 {
        1i64
    } else {
        0i64
    };
    let before = if content.len() > 0 {
        6int
    } else {
        0int
    };
    let at = before + 4 * k;
    let calls = calls_notices(done, first, n);
    let own = call_notices(done[k], (first + k) as i64);
    lemma_place_of_call(done, first, n, k, 0);
    lemma_place_of_call(done, first, n, k, 1);
    lemma_place_of_call(done, first, n, k, 2);
    lemma_place_of_call(done, first, n, k, 3);
    assert(notices[at] == calls[4 * k] && notices[at] == own[0]);
    assert(notices[at + 1] == calls[4 * k + 1]);
    assert(notices[at + 2] == calls[4 * k + 2]);
    assert(notices[at + 3] == calls[4 * k + 3]);
    assert(""@ =~= Seq::<char>::empty());
    lemma_call_item(done[k], "in_progress"@, ""@);
    lemma_call_item(done[k], "completed"@, done[k].arguments);
    assert forall|j: int| at <= j < at + 4 implies points_at(
        #[trigger] notices[j],
        first + k,
        done[k].item_id,
    ) by {
        assert(notices[j] == own[j - at]);
    }
}

/// A stream tells of its message before it tells of any call: that it is there and empty,
/// that it has a part, what the part says, and that part and message are done.
pub proof fn law_stream_tells_the_message_first(
    context: ContextView,
    content: Seq<char>,
    item_id: Seq<char>,
    output_tokens: i32,
)
    requires
        content.len() > 0,
    ensures
        ({
            let notices = finish_notices(context, content, item_id, output_tokens);
            &&& notices.len() > 6
            &&& notices[0].kind == "response.output_item.added"@
            &&& notices[1].kind == "response.content_part.added"@
            &&& notices[2].kind == "response.output_text.delta"@
            &&& notices[3].kind == "response.output_text.done"@
            &&& notices[4].kind == "response.content_part.done"@
            &&& notices[5].kind == "response.output_item.done"@
            &&& forall|j: int| 0 <= j < 6 ==> points_at(#[trigger] notices[j], 0, item_id)
            &&& forall|j: int|
                1 <= j < 5 ==> lookup((#[trigger] notices[j]).data, "content_index"@) == Some(
                    whole_number(0),
                )
            &&& lookup(notices[0].data, "item"@) matches Some(item) && is_message_item(
                item,
                "in_progress"@,
                item_id,
            ) && field(item, "content"@) == Some(JsonView::Array(Seq::empty()))
            &&& lookup(notices[1].data, "part"@) matches Some(part) && is_text_part(
                part,
                Seq::empty(),
            )
        }),
{
    broadcast use {lemma_lookup_pushed, lemma_lookup_nothing};

    lemma_notice_names();
    reveal_strlit("");
    assert(""@ =~= Seq::<char>::empty());
    let notices = finish_notices(context, content, item_id, output_tokens);
    let own = text_notices(item_id, content, 0);
    lemma_message_item(item_id, "in_progress"@, Seq::empty());
    lemma_message_item(item_id, "completed"@, seq![output_part(content)]);
    lemma_text_part(""@);
    assert forall|j: int| 0 <= j < 6 implies #[trigger] notices[j] == own[j] by {}
    assert(own.len() == 6);
}

/// The response of an answer that is on its way, or has failed.
pub open spec fn is_unfinished_response(response: JsonView, context: ContextView) -> bool {
    &&& text_field(response, "object"@) == Some("response"@)
    &&& text_field(response, "id"@) == Some(context.response_id)
    &&& text_field(response, "model"@) == Some(context.model)
    &&& field(response, "created_at"@) == Some(whole_number(context.created_at as int))
    &&& field(response, "max_output_tokens"@) == Some(
        whole_number(context.max_output_tokens as int),
    )
    &&& field(response, "output"@) == Some(JsonView::Array(Seq::empty()))
    &&& field(response, "incomplete_details"@) == Some(JsonView::Null)
    &&& field(response, "background"@) == Some(JsonView::Bool(false))
    &&& field(response, "store"@) == Some(JsonView::Bool(false))
    &&& field(response, "parallel_tool_calls"@) == Some(JsonView::Bool(true))
    &&& field(response, "previous_response_id"@) == Some(JsonView::Null)
}

/// A stream opens with two notices on a response that is in progress and holds nothing.
pub proof fn law_stream_opens_in_progress(context: ContextView)
    ensures
        ({
            let notices = initial_notices(context);
            &&& notices.len() == 2
            &&& notices[0].kind == "response.created"@
            &&& notices[1].kind == "response.in_progress"@
            &&& forall|i: int|
                0 <= i < 2 ==> (lookup((#[trigger] notices[i]).data, "response"@) matches Some(
                    response,
                ) && is_unfinished_response(response, context) && text_field(
                    response,
                    "status"@,
                ) == Some("in_progress"@) && field(response, "error"@) == Some(JsonView::Null))
        }),
{
    broadcast use {lemma_lookup_pushed, lemma_lookup_nothing};

    lemma_response_names();
}

/// A stream that fails ends with one notice, on a failed response that says why.
pub proof fn law_failed_stream_says_why(context: ContextView, message: Seq<char>)
    ensures
        ({
            let notices = failed_notices(context, message);
            &&& notices.len() == 1
            &&& notices[0].kind == "response.failed"@
            &&& lookup(notices[0].data, "response"@) matches Some(response) && {
                &&& is_unfinished_response(response, context)
                &&& text_field(response, "status"@) == Some("failed"@)
                &&& field(response, "error"@) matches Some(error) && text_field(error, "message"@)
                    == Some(message) && text_field(error, "code"@) == Some("upstream_error"@)
            }
        }),
{
    broadcast use {lemma_lookup_pushed, lemma_lookup_nothing};

    lemma_response_names();
}

/// A piece of a tool call goes to the call of its id and to no other: the arguments of the
/// call are those that it had with those of the piece behind them, and its name is that of
/// its first piece. The last piece makes the call a part of the answer, behind the calls
/// before it, under the name that the client has given the tool.
pub proof fn law_piece_goes_to_its_call(
    calls: CallsView,
    names: Map<Seq<char>, String>,
    tool: ToolUseEvent,
    item_id: Seq<char>,
    other: Seq<char>,
)
    ensures
        ({
            let id = tool.tool_use_id@;
            let after = tool_processed(calls, names, tool, item_id);
            let known = calls.open.dom().contains(id);
            let name = if known {
                calls.open[id].0
            } else {
                tool.name@
            };
            let arguments = if known {
                calls.open[id].1 + tool.input@
            } else {
                tool.input@
            };
            &&& other != id ==> (after.open.dom().contains(other) <==> calls.open.dom().contains(
                other,
            )) && (calls.open.dom().contains(other) ==> after.open[other] == calls.open[other])
            &&& after.open.dom().contains(id) <==> !tool.stop
            &&& !tool.stop ==> after.open[id].0 == name && after.open[id].1 == arguments
                && after.done == calls.done
            &&& tool.stop ==> {
                &&& after.done.len() == calls.done.len() + 1
                &&& forall|i: int|
                    0 <= i < calls.done.len() ==> #[trigger] after.done[i] == calls.done[i]
                &&& after.done.last().call_id == id
                &&& after.done.last().item_id == item_id
                &&& after.done.last().arguments == arguments
                &&& after.done.last().name == if names.dom().contains(name) {
                    names[name]@
                } else {
                    name
                }
            }
        }),
{
}

/// Picks what a frame says.
pub open spec fn said_by() -> spec_fn(Frame) -> Option<Seq<char>> {
    |received: Frame|
        match received {
            Frame::Event(Event::AssistantResponse { content }) => Some(content@),
            _ => None,
        }
}

/// Picks the id of the call that a frame completes.
pub open spec fn completed_by() -> spec_fn(Frame) -> Option<Seq<char>> {
    |received: Frame|
        match received {
            Frame::Event(Event::ToolUse(tool)) => if tool.stop {
                Some(tool.tool_use_id@)
            } else {
                None
            },
            _ => None,
        }
}

/// A frame by which an answer fails.
pub open spec fn is_fatal(received: Frame) -> bool {
    match received {
        Frame::DecodeFailed(_) => true,
        Frame::Invalid(_) => true,
        Frame::Event(Event::Error { .. }) => true,
        Frame::Event(Event::Exception { exception_type, .. }) => exception_type@
            != "ContentLengthExceededException"@,
        Frame::Event(_) => false,
    }
}

/// An answer is gathered from all frames, in their order: its text is all that they say,
/// one behind the other, and its calls are those that they complete. It fails exactly
/// where one of them is fatal. What the answer is an answer to does not change.
pub proof fn law_answer_is_gathered_from_all_frames(
    context: ContextView,
    received: Seq<Frame>,
    item_ids: Seq<Seq<char>>,
    n: nat,
)
    requires
        n <= received.len(),
    ensures
        ({
            let (after, failure) = frames_processed(context, received, item_ids, n);
            &&& failure is None <==> forall|i: int| 0 <= i < n ==> !is_fatal(#[trigger] received[i])
            &&& failure is None ==> {
                &&& after.text == context.text + received.take(n as int).filter_map(
                    said_by(),
                ).flatten()
                &&& after.calls.done.map_values(|call: CallView| call.call_id)
                    == context.calls.done.map_values(|call: CallView| call.call_id)
                    + received.take(n as int).filter_map(completed_by())
            }
            &&& after.response_id == context.response_id
            &&& after.model == context.model
            &&& after.max_output_tokens == context.max_output_tokens
            &&& after.thinking_enabled == context.thinking_enabled
            &&& after.tool_name_map == context.tool_name_map
            &&& after.created_at == context.created_at
            &&& after.sequence_number == context.sequence_number
        }),
    decreases n,
{
    let ids = |call: CallView| call.call_id;
    if n == 0 {
        assert(received.take(0).filter_map(said_by()) =~= Seq::<Seq<char>>::empty());
        assert(received.take(0).filter_map(completed_by()) =~= Seq::<Seq<char>>::empty());
        assert(context.text + Seq::<char>::empty() =~= context.text);
        assert(context.calls.done.map_values(ids) + Seq::<Seq<char>>::empty()
            =~= context.calls.done.map_values(ids));
    } else {
        let m = (n - 1) as nat;
        law_answer_is_gathered_from_all_frames(context, received, item_ids, m);
        let (before, failed) = frames_processed(context, received, item_ids, m);
        let (after, failure) = frames_processed(context, received, item_ids, n);
        let front = received.take(m as int);
        let next = received[m as int];
        assert(received.take(n as int) =~= front.push(next));
        lemma_picked_push(front, next, said_by());
        lemma_picked_push(front, next, completed_by());
        let said = front.filter_map(said_by());
        if failed is Some {
            let i = choose|i: int| 0 <= i < m && is_fatal(#[trigger] received[i]);
            assert(is_fatal(received[i]));
        } else {
            assert(failure is Some <==> is_fatal(next));
            if failure is None {
                if said_by()(next) is Some {
                    let content = said_by()(next)->0;
                    said.lemma_flatten_push(content);
                    assert(before.text + content =~= context.text + said.push(content).flatten());
                }
                if completed_by()(next) is Some {
                    let done = completed_by()(next)->0;
                    assert(after.calls.done.map_values(ids) =~= before.calls.done.map_values(
                        ids,
                    ).push(done));
                    assert(after.calls.done.map_values(ids) =~= context.calls.done.map_values(ids)
                        + front.filter_map(completed_by()).push(done));
                } else {
                    assert(after.calls.done == before.calls.done);
                }
            }
        }
    }
}

/// The use of the context window decides on the input tokens and, from a hundred percent on,
/// makes the answer incomplete; so does an exception that says it is too long. A failure is
/// passed on in its own words. Nothing else has such an effect.
pub proof fn law_event_has_its_effect(context: ContextView, event: Event, item_id: Seq<char>)
    ensures
        match event {
            Event::ContextUsage { percentage, input_tokens } => processed(
                context,
                event,
                item_id,
            ) matches Ok(after) && {
                &&& after.input_tokens == input_tokens
                &&& percentage.is_at_least(Amount { bits: HUNDRED_BITS })
                    ==> after.incomplete_reason == Some("context_window_exceeded"@)
                &&& !percentage.is_at_least(Amount { bits: HUNDRED_BITS })
                    ==> after.incomplete_reason == context.incomplete_reason
                &&& after.text == context.text
                &&& after.calls == context.calls
            },
            Event::Exception { exception_type, message } => match processed(
                context,
                event,
                item_id,
            ) {
                Ok(after) => {
                    &&& exception_type@ == "ContentLengthExceededException"@
                    &&& after.incomplete_reason == Some("max_output_tokens"@)
                    &&& after.text == context.text
                    &&& after.calls == context.calls
                    &&& after.input_tokens == context.input_tokens
                },
                Err(error) => error == "Upstream exception "@ + exception_type@ + ": "@ + message@,
            },
            Event::Error { error_code, error_message } => processed(context, event, item_id)
                == Err::<ContextView, Seq<char>>(
                "Upstream error "@ + error_code@ + ": "@ + error_message@,
            ),
            Event::AssistantResponse { content } => processed(context, event, item_id) matches Ok(
                after,
            ) && after.text == context.text + content@ && after.calls == context.calls
                && after.input_tokens == context.input_tokens && after.incomplete_reason
                == context.incomplete_reason,
            Event::ToolUse(_) => processed(context, event, item_id) matches Ok(after) && after.text
                == context.text && after.input_tokens == context.input_tokens
                && after.incomplete_reason == context.incomplete_reason,
            Event::Other => processed(context, event, item_id) == Ok::<ContextView, Seq<char>>(
                context,
            ),
        },
{
}

/// An answer is counted by its text, where it has any, and by what the arguments of each of
/// its calls encode; arguments that encode nothing are counted as the text that they are.
pub proof fn law_all_of_an_answer_is_counted(content: Seq<char>, calls: Seq<CallView>)
    ensures
        ({
            let blocks = token_blocks(content, calls);
            let first = if content.len() > 0 {
                1int
            } else {
                0int
            };
            &&& blocks.len() == first + calls.len()
            &&& content.len() > 0 ==> text_field(blocks[0], "type"@) == Some("text"@)
                && text_field(blocks[0], "text"@) == Some(content)
            &&& forall|i: int|
                #![trigger calls[i]]
                0 <= i < calls.len() ==> text_field(blocks[first + i], "type"@) == Some(
                    "tool_use"@,
                ) && field(blocks[first + i], "input"@) == Some(
                    match json_parse(calls[i].arguments) {
                        Ok(input) => input,
                        Err(_) => JsonView::Text(calls[i].arguments),
                    },
                )
        }),
{
    broadcast use {lemma_lookup_pushed, lemma_lookup_nothing};

    lemma_item_names();
    let blocks = token_blocks(content, calls);
    let first = if content.len() > 0 {
        1int
    } else {
        0int
    };
    assert forall|i: int| #![trigger calls[i]] 0 <= i < calls.len() implies blocks[first + i]
        == call_block(calls[i].arguments, json_parse(calls[i].arguments)) by {}
}

/// An answer is complete where no call is open; one that is not says which are, each by its
/// id.
pub proof fn law_open_calls_are_named(context: ContextView, open: Seq<Seq<char>>, id: Seq<char>)
    requires
        context.calls.open.dom() == open.to_set(),
    ensures
        calls_complete(context) <==> open.len() == 0,
        open.contains(id) ==> occurs_in(unfinished_message(context), id),
{
    let lt = text_order();
    let row = listing(open.to_set(), lt);
    lemma_text_order();
    lemma_listing_exists(open, lt);
    if open.len() > 0 {
        assert(open.contains(open[0]));
        assert(context.calls.open.dom().contains(open[0]));
    } else {
        assert(open.to_set() =~= Set::<Seq<char>>::empty());
    }
    if open.contains(id) {
        assert(open.to_set().contains(id));
        assert(row.contains(id));
        let k = choose|k: int| 0 <= k < row.len() && row[k] == id;
        lemma_stands_in_the_row(row, ", "@, k);
        let list = joined(row, ", "@);
        let at = choose|at: int| occurs_at(list, id, at);
        let head = "Upstream stream ended before tool call(s) completed: "@;
        let all = unfinished_message(context);
        assert(all.subrange(head.len() + at, head.len() + at + id.len()) =~= list.subrange(
            at,
            at + id.len(),
        ));
        assert(occurs_at(all, id, head.len() + at));
    }
}

/// Each of a row of texts stands in the text that they are joined to.
proof fn lemma_stands_in_the_row(parts: Seq<Seq<char>>, sep: Seq<char>, k: int)
    requires
        0 <= k < parts.len(),
    ensures
        occurs_in(joined(parts, sep), parts[k]),
    decreases parts.len(),
{
    let all = joined(parts, sep);
    let part = parts[k];
    if parts.len() == 1 {
        assert(all.subrange(0, part.len() as int) =~= part);
        assert(occurs_at(all, part, 0));
    } else {
        let front = joined(parts.drop_last(), sep);
        if k == parts.len() - 1 {
            let at = (front.len() + sep.len()) as int;
            assert(all.subrange(at, at + part.len()) =~= part);
            assert(occurs_at(all, part, at));
        } else {
            lemma_stands_in_the_row(parts.drop_last(), sep, k);
            let at = choose|at: int| occurs_at(front, part, at);
            assert(all.subrange(at, at + part.len()) =~= front.subrange(at, at + part.len()));
            assert(occurs_at(all, part, at));
        }
    }
}

/// What is said in an answer is its text; where the model thinks, it is what of the text has
/// nothing left to extract.
pub proof fn law_what_is_said<F: Fn(&str) -> (Option<String>, String)>(
    extract: F,
    context: ContextView,
    content: Seq<char>,
)
    requires
        spoken(extract, context, content),
    ensures
        !context.thinking_enabled ==> content == context.text,
        context.thinking_enabled ==> leaves(extract, content, content),
{
}

/// An answer that cannot be read, or a frame that is none, fails in the words of the error.
pub proof fn law_unreadable_answer_says_why(
    context: ContextView,
    answer: Answer,
    received: Frame,
    item_ids: Seq<Seq<char>>,
    item_id: Seq<char>,
)
    ensures
        answer matches Answer::Unreadable(error) ==> (answer_gathered(
            context,
            answer,
            item_ids,
        ) matches Err(told) && error@.is_suffix_of(told)),
        received matches Frame::DecodeFailed(error) ==> (frame_processed(
            context,
            received,
            item_id,
        ) matches Err(told) && error@.is_suffix_of(told)),
        received matches Frame::Invalid(error) ==> (frame_processed(
            context,
            received,
            item_id,
        ) matches Err(told) && error@.is_suffix_of(told)),
{
    if let Answer::Unreadable(error) = answer {
        lemma_ends_in("Failed to decode upstream response: "@, error@);
    }
    if let Frame::DecodeFailed(error) = received {
        lemma_ends_in("Failed to decode upstream event: "@, error@);
    }
    if let Frame::Invalid(error) = received {
        lemma_ends_in("Invalid upstream event: "@, error@);
    }
}

proof fn lemma_ends_in(front: Seq<char>, end: Seq<char>)
    ensures
        end.is_suffix_of(front + end),
{
    let all = front + end;
    assert(all.subrange(all.len() - end.len(), all.len() as int) =~= end);
}

/// A frame is a line that names its kind, a line that holds its data, and an empty line. The
/// first frame behind others has the next number, and a row of notices has one frame each.
pub proof fn law_form_of_a_frame(
    last: u64,
    notices: Seq<NoticeView>,
    notice: NoticeView,
    data: Seq<char>,
)
    requires
        last < u64::MAX,
    ensures
        frame_text(notice.kind, Ok(data)) == "event: "@ + notice.kind + "\n"@ + "data: "@ + data
            + "\n"@ + "\n"@,
        frames(last, notices).len() == notices.len(),
        notices.len() > 0 ==> frames(last, notices)[0] == frame((last + 1) as u64, notices[0]),
        json_text(arranged(numbered(last, notice))) == Ok::<Seq<char>, Seq<char>>(data) ==> frame(
            last,
            notice,
        ) == frame_text(notice.kind, Ok(data)),
{
    reveal_strlit("\n");
    reveal_strlit("data: ");
    reveal_strlit("\ndata: ");
    reveal_strlit("\n\n");
    assert("\n"@ + "data: "@ =~= "\ndata: "@);
    assert("\n"@ + "\n"@ =~= "\n\n"@);
    assert(frame_text(notice.kind, Ok(data)) =~= "event: "@ + notice.kind + "\n"@ + "data: "@ + data
        + "\n"@ + "\n"@);
}

/// A collected answer is what was gathered: what was said, the calls that were completed, and
/// what was counted of both and of the input. It has a message where something was said.
pub proof fn law_collected_answer_is_what_was_gathered<
    F: Fn(&str) -> (Option<String>, String),
    G: Fn(&Vec<Json>) -> i32,
>(
    context: ContextView,
    extract: F,
    estimate: G,
    collected: CollectedResponse,
    item_id: Seq<char>,
)
    requires
        collects(context, extract, estimate, collected@, item_id),
    ensures
        spoken(extract, context, collected.text@),
        calls_view(collected.calls@) == context.calls.done,
        collected.input_tokens == context.input_tokens,
        collected.max_output_tokens == context.max_output_tokens,
        counted(
            estimate,
            token_blocks(collected.text@, context.calls.done),
            collected.output_tokens,
        ),
        collected.text_item_id is Some <==> collected.text@.len() > 0,
        collected.text_item_id matches Some(id) ==> is_item_id(id@, "msg_"@),
        collected.incomplete_reason is Some <==> context.incomplete_reason is Some
            || collected.output_tokens >= context.max_output_tokens,
        context.incomplete_reason is Some ==> maybe_text(collected.incomplete_reason)
            == context.incomplete_reason,
{
    assert(maybe_text(collected.text_item_id) == message_id(collected.text@, item_id));
    assert(maybe_text(collected.incomplete_reason) is Some <==> collected.incomplete_reason is Some);
}

/// A stream ends with the notices on what was said and counted, and with no others.
pub proof fn law_stream_ends_with_what_was_gathered<
    F: Fn(&str) -> (Option<String>, String),
    G: Fn(&Vec<Json>) -> i32,
>(
    context: ContextView,
    extract: F,
    estimate: G,
    sent: Seq<Seq<char>>,
    content: Seq<char>,
    item_id: Seq<char>,
    output_tokens: i32,
    i: int,
)
    requires
        ends_with(context, extract, estimate, sent, content, item_id, output_tokens),
    ensures
        spoken(extract, context, content),
        content.len() > 0 ==> is_item_id(item_id, "msg_"@),
        counted(estimate, token_blocks(content, context.calls.done), output_tokens),
        ({
            let notices = finish_notices(context, content, item_id, output_tokens);
            &&& sent.len() == notices.len()
            &&& 0 <= i < sent.len() ==> sent[i] == frame(
                (context.sequence_number + 1 + i) as u64,
                notices[i],
            )
        }),
{
}

/// While an answer comes in nothing is sent. Where it fails, one frame is sent, on the failure
/// of what had come in before, and the stream is over.
pub proof fn law_piece_is_silent_unless_it_fails(
    context: ContextView,
    received: Seq<Frame>,
    item_ids: Seq<Seq<char>>,
)
    ensures
        ({
            let (before, failure) = frames_processed(context, received, item_ids, received.len());
            let (after, sent, finished) = piece_outcome(context, received, item_ids);
            match failure {
                None => after == before && sent.len() == 0 && !finished,
                Some(message) => {
                    &&& finished
                    &&& sent.len() == 1
                    &&& sent[0] == frame(
                        (before.sequence_number + 1) as u64,
                        failed_notices(before, message)[0],
                    )
                    &&& after.sequence_number == (before.sequence_number + 1) as u64
                    &&& after.text == before.text
                    &&& after.calls == before.calls
                },
            }
        }),
{
}

/// An answer as a whole is gathered from all of its frames; it fails where one of them is
/// fatal, and where a call is not complete.
pub proof fn law_whole_answer_is_gathered(
    context: ContextView,
    received: Vec<Frame>,
    item_ids: Seq<Seq<char>>,
)
    ensures
        ({
            let (after, failure) = frames_processed(
                context,
                received@,
                item_ids,
                received@.len(),
            );
            let fatal = exists|i: int| 0 <= i < received@.len() && is_fatal(#[trigger] received@[i]);
            match answer_gathered(context, Answer::Frames(received), item_ids) {
                Ok(gathered) => gathered == after && !fatal && calls_complete(after),
                Err(error) => if fatal {
                    failure == Some(error)
                } else {
                    !calls_complete(after) && error == unfinished_message(after)
                },
            }
        }),
{
    law_answer_is_gathered_from_all_frames(context, received@, item_ids, received@.len());
}

/// An answer begins with nothing in it: no text, no calls, no reason to be incomplete, and no
/// frame sent.
pub proof fn law_answer_begins_empty(
    response_id: Seq<char>,
    model: Seq<char>,
    max_output_tokens: i32,
    thinking_enabled: bool,
    tool_name_map: Map<Seq<char>, String>,
    input_tokens: i32,
    created_at: i64,
)
    ensures
        ({
            let context = new_context(
                response_id,
                model,
                max_output_tokens,
                thinking_enabled,
                tool_name_map,
                input_tokens,
                created_at,
            );
            &&& context.text.len() == 0
            &&& context.calls.done.len() == 0
            &&& calls_complete(context)
            &&& context.incomplete_reason is None
            &&& context.sequence_number == 0
            &&& context.response_id == response_id
            &&& context.model == model
            &&& context.max_output_tokens == max_output_tokens
            &&& context.thinking_enabled == thinking_enabled
            &&& context.tool_name_map == tool_name_map
            &&& context.input_tokens == input_tokens
            &&& context.created_at == created_at
        }),
{
    assert(Map::<Seq<char>, (Seq<char>, Seq<char>)>::empty().dom() =~= Set::<Seq<char>>::empty());
}

/// The ids that calls are completed under are of their own kind, and so is that of a message.
pub proof fn law_ids_say_what_they_are_of(
    item_ids: Seq<Seq<char>>,
    received: Seq<Frame>,
    i: int,
    tool: ToolUseEvent,
    id: Seq<char>,
    prefix: Seq<char>,
)
    requires
        are_call_ids(item_ids, received),
        0 <= i < received.len(),
        received[i] == Frame::Event(Event::ToolUse(tool)),
        tool.stop,
        is_item_id(id, prefix),
    ensures
        item_ids.len() == received.len(),
        "fc_"@.is_prefix_of(item_ids[i]) && item_ids[i].len() == 35,
        prefix.is_prefix_of(id) && id.len() == prefix.len() + 32,
{
    reveal_strlit("fc_");
    assert(completes_call(received[i]));
    assert(item_ids[i].skip(3).len() == 32);
    assert(id.skip(prefix.len() as int).len() == 32);
}

} // verus!
