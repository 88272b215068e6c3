//! The stream of events that answers a request: what is announced, in which order, and
//! under which number.

use vstd::prelude::*;

use crate::amount::{Amount, HUNDRED_BITS};
use crate::anthropic::collected::{
    calls_view, count, empty_array, make_output_call, make_output_message, make_output_part,
    or_null, output_call, output_items, output_message, output_part, response_object, token_blocks,
    total_fits, CallView, CollectedCall, CollectedView,
};
use crate::anthropic::events::{
    open_calls, tool_processed, CallsView, Event, Frame, OpenCall,
};
use crate::anthropic::thinking::stripped;
use crate::ids::{fresh_simple_uuid, is_simple_uuid};
use crate::json::{
    array_of_one, arranged, items_view, json_text, law_set_then_get, lookup, no_fields, signed,
    text, uint_number, with_entry, Fields, Json, JsonView,
};
use crate::order::{listing, text_order};
use crate::rows::seen;
use crate::table::Table;
use crate::text::{join2, joined, maybe_text};

verus! {

/// What is announced to the client: its kind, and its data.
#[derive(Debug)]
pub struct Notice {
    pub kind: String,
    pub data: Fields,
}

/// A notice as plain values.
pub struct NoticeView {
    pub kind: Seq<char>,
    pub data: Seq<(Seq<char>, JsonView)>,
}

impl View for Notice {
    type V = NoticeView;

    open spec fn view(&self) -> NoticeView {
        NoticeView { kind: self.kind@, data: self.data@ }
    }
}

/// The notices of a row, as plain values.
pub open spec fn notices_view(notices: Seq<Notice>) -> Seq<NoticeView> {
    notices.map_values(|notice: Notice| notice@)
}

/// The object that is written for a notice: its data, with its kind and its number.
pub open spec fn numbered(number: u64, notice: NoticeView) -> JsonView {
    JsonView::Object(
        with_entry(
            with_entry(notice.data, "type"@, JsonView::Text(notice.kind)),
            "sequence_number"@,
            JsonView::Number(uint_number(number)),
        ),
    )
}

/// The text of a frame, its data as they were written.
pub open spec fn frame_text(kind: Seq<char>, written: Result<Seq<char>, Seq<char>>) -> Seq<char> {
    "event: "@ + kind + "\ndata: "@ + (match written {
        Ok(data) => data,
        Err(_) => "{}"@,
    }) + "\n\n"@
}

/// The text of the frame for a notice under a number.
pub open spec fn frame(number: u64, notice: NoticeView) -> Seq<char> {
    frame_text(notice.kind, json_text(arranged(numbered(number, notice))))
}

/// The frames for a row of notices, numbered from behind `last` on.
pub open spec fn frames(last: u64, notices: Seq<NoticeView>) -> Seq<Seq<char>> {
    Seq::new(notices.len(), |i: int| frame((last + i + 1) as u64, notices[i]))
}

/// Two rows of notices, one sent behind the other, are numbered as one row.
pub proof fn law_numbering_goes_on(last: u64, first: Seq<NoticeView>, second: Seq<NoticeView>)
    requires
        last + first.len() + second.len() <= u64::MAX,
    ensures
        frames(last, first) + frames((last + first.len()) as u64, second) == frames(
            last,
            first + second,
        ),
{
    assert(frames(last, first) + frames((last + first.len()) as u64, second) =~= frames(
        last,
        first + second,
    ));
}

/// A frame says which kind it is of and which number it has, and holds the other data of
/// its notice as they are.
pub proof fn law_frame_says_kind_and_number(number: u64, notice: NoticeView, name: Seq<char>)
    ensures
        ({
            let entries = numbered(number, notice)->Object_0;
            &&& lookup(entries, "type"@) == Some(JsonView::Text(notice.kind))
            &&& lookup(entries, "sequence_number"@) == Some(
                JsonView::Number(uint_number(number)),
            )
            &&& name != "type"@ && name != "sequence_number"@ ==> lookup(entries, name) == lookup(
                notice.data,
                name,
            )
        }),
{
    reveal_strlit("type");
    reveal_strlit("sequence_number");
    assert("type"@.len() != "sequence_number"@.len());
    let kind = JsonView::Text(notice.kind);
    let numbering = JsonView::Number(uint_number(number));
    let typed = with_entry(notice.data, "type"@, kind);
    law_set_then_get(notice.data, "type"@, kind, name);
    law_set_then_get(typed, "sequence_number"@, numbering, "type"@);
    law_set_then_get(typed, "sequence_number"@, numbering, name);
}

/// The state of an answer that is being sent: what it answers, what has been gathered of
/// it, and the number of the last frame.
#[derive(Debug)]
pub struct ResponseStreamContext {
    pub response_id: String,
    pub model: String,
    pub max_output_tokens: i32,
    pub thinking_enabled: bool,
    pub tool_name_map: Table<String>,
    pub text: String,
    pub calls: Vec<CollectedCall>,
    pub call_buffers: Table<OpenCall>,
    pub input_tokens: i32,
    pub incomplete_reason: Option<String>,
    pub created_at: i64,
    pub sequence_number: u64,
}

/// The state of an answer as plain values.
pub struct ContextView {
    pub response_id: Seq<char>,
    pub model: Seq<char>,
    pub max_output_tokens: i32,
    pub thinking_enabled: bool,
    pub tool_name_map: Map<Seq<char>, String>,
    pub text: Seq<char>,
    pub calls: CallsView,
    pub input_tokens: i32,
    pub incomplete_reason: Option<Seq<char>>,
    pub created_at: i64,
    pub sequence_number: u64,
}

impl View for ResponseStreamContext {
    type V = ContextView;

    open spec fn view(&self) -> ContextView {
        ContextView {
            response_id: self.response_id@,
            model: self.model@,
            max_output_tokens: self.max_output_tokens,
            thinking_enabled: self.thinking_enabled,
            tool_name_map: self.tool_name_map@,
            text: self.text@,
            calls: CallsView {
                open: open_calls(self.call_buffers@),
                done: calls_view(self.calls@),
            },
            input_tokens: self.input_tokens,
            incomplete_reason: maybe_text(self.incomplete_reason),
            created_at: self.created_at,
            sequence_number: self.sequence_number,
        }
    }
}

/// Every tool call that was begun is complete.
pub open spec fn calls_complete(context: ContextView) -> bool {
    context.calls.open.dom() == Set::<Seq<char>>::empty()
}

/// What an event does to the state of an answer, a call that it completes under
/// `item_id`; or why the answer fails.
pub open spec fn processed(context: ContextView, event: Event, item_id: Seq<char>) -> Result<
    ContextView,
    Seq<char>,
> {
    match event {
        Event::AssistantResponse { content } => Ok(
            ContextView { text: context.text + content@, ..context },
        ),
        Event::ToolUse(tool) => Ok(
            ContextView {
                calls: tool_processed(context.calls, context.tool_name_map, tool, item_id),
                ..context
            },
        ),
        Event::ContextUsage { percentage, input_tokens } => Ok(
            ContextView {
                input_tokens,
                incomplete_reason: if percentage.is_at_least(Amount { bits: HUNDRED_BITS }) {
                    Some("context_window_exceeded"@)
                } else {
                    context.incomplete_reason
                },
                ..context
            },
        ),
        Event::Exception { exception_type, message } => if exception_type@
            == "ContentLengthExceededException"@ {
            Ok(ContextView { incomplete_reason: Some("max_output_tokens"@), ..context })
        } else {
            Err("Upstream exception "@ + exception_type@ + ": "@ + message@)
        },
        Event::Error { error_code, error_message } => Err(
            "Upstream error "@ + error_code@ + ": "@ + error_message@,
        ),
        Event::Other => Ok(context),
    }
}

/// What a frame does to the state of an answer, or why the answer fails.
pub open spec fn frame_processed(context: ContextView, frame: Frame, item_id: Seq<char>) -> Result<
    ContextView,
    Seq<char>,
> {
    match frame {
        Frame::Event(event) => processed(context, event, item_id),
        Frame::DecodeFailed(error) => Err("Failed to decode upstream event: "@ + error@),
        Frame::Invalid(error) => Err("Invalid upstream event: "@ + error@),
    }
}

/// What the first `n` frames do to the state of an answer, one after the other, up to the
/// first by which the answer fails; and why it does.
pub open spec fn frames_processed(
    context: ContextView,
    received: Seq<Frame>,
    item_ids: Seq<Seq<char>>,
    n: nat,
) -> (ContextView, Option<Seq<char>>)
    decreases n,
{
    if n == 0 {
        (context, None)
    } else {
        let at = n - 1;
        let (before, failure) = frames_processed(context, received, item_ids, at as nat);
        if failure is Some {
            (before, failure)
        } else {
            match frame_processed(before, received[at], item_ids[at]) {
                Ok(after) => (after, None),
                Err(error) => (before, Some(error)),
            }
        }
    }
}

/// What the first frames of a row do does not depend on the frames behind them.
proof fn lemma_frames_behind(
    context: ContextView,
    first: Seq<Frame>,
    second: Seq<Frame>,
    first_ids: Seq<Seq<char>>,
    second_ids: Seq<Seq<char>>,
    n: nat,
)
    requires
        n <= first.len(),
        first.len() == first_ids.len(),
    ensures
        frames_processed(context, first + second, first_ids + second_ids, n) == frames_processed(
            context,
            first,
            first_ids,
            n,
        ),
    decreases n,
{
    if n > 0 {
        lemma_frames_behind(context, first, second, first_ids, second_ids, (n - 1) as nat);
        assert((first + second)[n - 1] == first[n - 1]);
        assert((first_ids + second_ids)[n - 1] == first_ids[n - 1]);
    }
}

/// What follows a failure changes nothing.
pub proof fn lemma_failure_stays(
    context: ContextView,
    received: Seq<Frame>,
    item_ids: Seq<Seq<char>>,
    n: nat,
    m: nat,
)
    requires
        n <= m,
        frames_processed(context, received, item_ids, n).1 is Some,
    ensures
        frames_processed(context, received, item_ids, m) == frames_processed(
            context,
            received,
            item_ids,
            n,
        ),
    decreases m,
{
    if n < m {
        lemma_failure_stays(context, received, item_ids, n, (m - 1) as nat);
    }
}

/// It does not matter where the stream of the backend is cut into pieces: what two pieces
/// do one after the other is what they do as one.
pub proof fn law_cuts_do_not_matter(
    context: ContextView,
    first: Seq<Frame>,
    second: Seq<Frame>,
    first_ids: Seq<Seq<char>>,
    second_ids: Seq<Seq<char>>,
)
    requires
        first.len() == first_ids.len(),
        second.len() == second_ids.len(),
    ensures
        ({
            let (between, failure) = frames_processed(context, first, first_ids, first.len());
            frames_processed(
                context,
                first + second,
                first_ids + second_ids,
                (first + second).len(),
            ) == if failure is Some {
                (between, failure)
            } else {
                frames_processed(between, second, second_ids, second.len())
            }
        }),
    decreases second.len(),
{
    let n = first.len();
    let (between, failure) = frames_processed(context, first, first_ids, n);
    let all = first + second;
    let ids = first_ids + second_ids;
    lemma_frames_behind(context, first, second, first_ids, second_ids, n);
    if failure is Some {
        lemma_failure_stays(context, all, ids, n, all.len());
    } else if second.len() > 0 {
        let rest = second.drop_last();
        let rest_ids = second_ids.drop_last();
        let last = seq![second.last()];
        let last_id = seq![second_ids.last()];
        law_cuts_do_not_matter(context, first, rest, first_ids, rest_ids);
        assert(first + rest + last =~= all);
        assert(first_ids + rest_ids + last_id =~= ids);
        lemma_frames_behind(
            context,
            first + rest,
            last,
            first_ids + rest_ids,
            last_id,
            (first + rest).len(),
        );
        assert(rest + last =~= second);
        assert(rest_ids + last_id =~= second_ids);
        lemma_frames_behind(between, rest, last, rest_ids, last_id, rest.len());
        assert(all[all.len() - 1] == second[second.len() - 1]);
        assert(ids[all.len() - 1] == second_ids[second.len() - 1]);
    }
}

/// Whether a frame completes a tool call.
pub open spec fn completes_call(frame: Frame) -> bool {
    frame matches Frame::Event(Event::ToolUse(tool)) && tool.stop
}

/// The id of an item of the output: a prefix, and a UUID that has not been given before.
pub open spec fn is_item_id(id: Seq<char>, prefix: Seq<char>) -> bool {
    prefix.is_prefix_of(id) && is_simple_uuid(id.skip(prefix.len() as int))
}

/// The ids for the calls that a row of frames completes.
pub open spec fn are_call_ids(item_ids: Seq<Seq<char>>, received: Seq<Frame>) -> bool {
    &&& item_ids.len() == received.len()
    &&& forall|i: int|
        0 <= i < received.len() && completes_call(#[trigger] received[i]) ==> is_item_id(
            item_ids[i],
            "fc_"@,
        )
}

/// The response object of an answer that is not complete, or has failed.
pub open spec fn progress_object(
    context: ContextView,
    output: Seq<JsonView>,
    error: Option<JsonView>,
) -> JsonView {
    JsonView::Object(
        no_fields().push(("id"@, JsonView::Text(context.response_id))).push(
            ("object"@, JsonView::Text("response"@)),
        ).push(("created_at"@, count(context.created_at))).push(
            (
                "status"@,
                JsonView::Text(
                    if error is Some {
                        "failed"@
                    } else {
                        "in_progress"@
                    },
                ),
            ),
        ).push(("background"@, JsonView::Bool(false))).push(("error"@, or_null(error))).push(
            ("incomplete_details"@, JsonView::Null),
        ).push(("max_output_tokens"@, count(context.max_output_tokens as i64))).push(
            ("model"@, JsonView::Text(context.model)),
        ).push(("output"@, JsonView::Array(output))).push(
            ("parallel_tool_calls"@, JsonView::Bool(true)),
        ).push(("previous_response_id"@, JsonView::Null)).push(("store"@, JsonView::Bool(false))),
    )
}

/// A notice whose data are a response object.
pub open spec fn response_notice(kind: Seq<char>, response: JsonView) -> NoticeView {
    NoticeView { kind, data: no_fields().push(("response"@, response)) }
}

/// The notices that open an answer.
pub open spec fn initial_notices(context: ContextView) -> Seq<NoticeView> {
    let response = progress_object(context, Seq::empty(), None);
    Seq::<NoticeView>::empty().push(response_notice("response.created"@, response)).push(
        response_notice("response.in_progress"@, response),
    )
}

/// What a failed answer is told to have failed with.
pub open spec fn failure_object(message: Seq<char>) -> JsonView {
    JsonView::Object(
        no_fields().push(("code"@, JsonView::Text("upstream_error"@))).push(
            ("message"@, JsonView::Text(message)),
        ),
    )
}

/// The notice that ends a failed answer.
pub open spec fn failed_notices(context: ContextView, message: Seq<char>) -> Seq<NoticeView> {
    Seq::<NoticeView>::empty().push(
        response_notice(
            "response.failed"@,
            progress_object(context, Seq::empty(), Some(failure_object(message))),
        ),
    )
}

/// A notice on an item of the output.
pub open spec fn item_notice(kind: Seq<char>, index: i64, item: JsonView) -> NoticeView {
    NoticeView { kind, data: no_fields().push(("output_index"@, count(index))).push(("item"@, item)) }
}

/// A notice on the first part of a message of the output.
pub open spec fn part_notice(
    kind: Seq<char>,
    id: Seq<char>,
    index: i64,
    field: Seq<char>,
    value: JsonView,
) -> NoticeView {
    NoticeView {
        kind,
        data: no_fields().push(("item_id"@, JsonView::Text(id))).push(
            ("output_index"@, count(index)),
        ).push(("content_index"@, count(0))).push((field, value)),
    }
}

/// The notices on the message of an answer, from its start to its end.
pub open spec fn text_notices(id: Seq<char>, content: Seq<char>, index: i64) -> Seq<NoticeView> {
    Seq::<NoticeView>::empty().push(
        item_notice(
            "response.output_item.added"@,
            index,
            output_message(id, "in_progress"@, Seq::empty()),
        ),
    ).push(
        part_notice("response.content_part.added"@, id, index, "part"@, output_part(""@)),
    ).push(
        part_notice("response.output_text.delta"@, id, index, "delta"@, JsonView::Text(content)),
    ).push(
        part_notice("response.output_text.done"@, id, index, "text"@, JsonView::Text(content)),
    ).push(
        part_notice("response.content_part.done"@, id, index, "part"@, output_part(content)),
    ).push(
        item_notice(
            "response.output_item.done"@,
            index,
            output_message(id, "completed"@, seq![output_part(content)]),
        ),
    )
}

/// A notice on the arguments of a tool call.
pub open spec fn arguments_notice(
    kind: Seq<char>,
    call: CallView,
    index: i64,
    field: Seq<char>,
) -> NoticeView {
    NoticeView {
        kind,
        data: no_fields().push(("item_id"@, JsonView::Text(call.item_id))).push(
            ("output_index"@, count(index)),
        ).push((field, JsonView::Text(call.arguments))),
    }
}

/// The notices on a tool call of an answer, from its start to its end.
pub open spec fn call_notices(call: CallView, index: i64) -> Seq<NoticeView> {
    Seq::<NoticeView>::empty().push(
        item_notice(
            "response.output_item.added"@,
            index,
            output_call(call, "in_progress"@, ""@),
        ),
    ).push(
        arguments_notice("response.function_call_arguments.delta"@, call, index, "delta"@),
    ).push(
        arguments_notice("response.function_call_arguments.done"@, call, index, "arguments"@),
    ).push(
        item_notice(
            "response.output_item.done"@,
            index,
            output_call(call, "completed"@, call.arguments),
        ),
    )
}

/// The notices on the first `n` tool calls of an answer, the first of which is the item
/// `first` of the output.
pub open spec fn calls_notices(calls: Seq<CallView>, first: i64, n: nat) -> Seq<NoticeView>
    decreases n,
{
    if n == 0 {
        Seq::empty()
    } else {
        calls_notices(calls, first, (n - 1) as nat) + call_notices(
            calls[n - 1],
            (first + n - 1) as i64,
        )
    }
}

/// The answer that has been gathered, its text without what was thought, and its cost.
pub open spec fn gathered(
    context: ContextView,
    content: Seq<char>,
    item_id: Option<Seq<char>>,
    output_tokens: i32,
) -> CollectedView {
    CollectedView {
        text: content,
        text_item_id: item_id,
        calls: context.calls.done,
        input_tokens: context.input_tokens,
        output_tokens,
        max_output_tokens: context.max_output_tokens,
        incomplete_reason: if context.incomplete_reason is Some {
            context.incomplete_reason
        } else if output_tokens >= context.max_output_tokens {
            Some("max_output_tokens"@)
        } else {
            None
        },
        created_at: context.created_at,
    }
}

/// The id of the message of an answer: none where there is no text.
pub open spec fn message_id(content: Seq<char>, item_id: Seq<char>) -> Option<Seq<char>> {
    if content.len() > 0 {
        Some(item_id)
    } else {
        None
    }
}

/// The notices that end an answer: on its message where there is one, on its calls, and
/// on the answer as a whole.
pub open spec fn finish_notices(
    context: ContextView,
    content: Seq<char>,
    item_id: Seq<char>,
    output_tokens: i32,
) -> Seq<NoticeView> {
    let id = message_id(content, item_id);
    let answer = gathered(context, content, id, output_tokens);
    let (message, first) = match id {
        Some(id) => (text_notices(id, content, 0), 1i64),
        None => (Seq::empty(), 0i64),
    };
    (message + calls_notices(context.calls.done, first, context.calls.done.len())).push(
        response_notice(
            if answer.incomplete_reason is Some {
                "response.incomplete"@
            } else {
                "response.completed"@
            },
            response_object(
                context.response_id,
                context.model,
                answer,
                output_items(answer),
                None,
            ),
        ),
    )
}

/// Why an answer fails whose tool calls are not all complete.
pub open spec fn unfinished_message(context: ContextView) -> Seq<char> {
    "Upstream stream ended before tool call(s) completed: "@ + joined(
        listing(context.calls.open.dom(), text_order()),
        ", "@,
    )
}

/// The kinds of notices by which an answer ends.
pub open spec fn is_terminal(kind: Seq<char>) -> bool {
    kind == "response.completed"@ || kind == "response.incomplete"@ || kind == "response.failed"@
}

/// The last notice of an answer, and no other, says that it has ended: as incomplete
/// where there is a reason, else as completed.
pub proof fn law_answer_ends_once(
    context: ContextView,
    content: Seq<char>,
    item_id: Seq<char>,
    output_tokens: i32,
)
    ensures
        ({
            let notices = finish_notices(context, content, item_id, output_tokens);
            let reason = gathered(context, content, None, output_tokens).incomplete_reason;
            &&& notices.len() > 0
            &&& notices.last().kind == if reason is Some {
                "response.incomplete"@
            } else {
                "response.completed"@
            }
            &&& forall|i: int|
                0 <= i < notices.len() - 1 ==> !is_terminal((#[trigger] notices[i]).kind)
        }),
{
    let notices = finish_notices(context, content, item_id, output_tokens);
    let id = message_id(content, item_id);
    let first = if id is Some {
        1i64
    } else {
        0i64
    };
    let message = if id is Some {
        text_notices(id->0, content, 0)
    } else {
        Seq::empty()
    };
    let calls = context.calls.done;
    lemma_kinds_differ();
    lemma_calls_go_on(calls, first, calls.len());
    assert forall|i: int| 0 <= i < notices.len() - 1 implies !is_terminal(
        (#[trigger] notices[i]).kind,
    ) by {
        if i >= message.len() {
            assert(notices[i] == calls_notices(calls, first, calls.len())[i - message.len()]);
        } else {
            assert(notices[i] == message[i]);
        }
    }
}

/// No notice on a tool call ends an answer.
proof fn lemma_calls_go_on(calls: Seq<CallView>, first: i64, n: nat)
    ensures
        forall|i: int|
            0 <= i < calls_notices(calls, first, n).len() ==> !is_terminal(
                (#[trigger] calls_notices(calls, first, n)[i]).kind,
            ),
    decreases n,
{
    lemma_kinds_differ();
    if n > 0 {
        let front = calls_notices(calls, first, (n - 1) as nat);
        let back = call_notices(calls[n - 1], (first + n - 1) as i64);
        lemma_calls_go_on(calls, first, (n - 1) as nat);
        assert forall|i: int| 0 <= i < calls_notices(calls, first, n).len() implies !is_terminal(
            (#[trigger] calls_notices(calls, first, n)[i]).kind,
        ) by {
            if i < front.len() {
                assert(calls_notices(calls, first, n)[i] == front[i]);
            } else {
                assert(calls_notices(calls, first, n)[i] == back[i - front.len()]);
            }
        }
    }
}

/// The kinds of notices that go before the end are not those of the end.
proof fn lemma_kinds_differ()
    ensures
        !is_terminal("response.output_item.added"@),
        !is_terminal("response.content_part.added"@),
        !is_terminal("response.output_text.delta"@),
        !is_terminal("response.output_text.done"@),
        !is_terminal("response.content_part.done"@),
        !is_terminal("response.output_item.done"@),
        !is_terminal("response.function_call_arguments.delta"@),
        !is_terminal("response.function_call_arguments.done"@),
{
    reveal_strlit("response.completed");
    reveal_strlit("response.incomplete");
    reveal_strlit("response.failed");
    reveal_strlit("response.output_item.added");
    reveal_strlit("response.content_part.added");
    reveal_strlit("response.output_text.delta");
    reveal_strlit("response.output_text.done");
    reveal_strlit("response.content_part.done");
    reveal_strlit("response.output_item.done");
    reveal_strlit("response.function_call_arguments.delta");
    reveal_strlit("response.function_call_arguments.done");
    assert("response.output_item.added"@.len() == 26);
    assert("response.content_part.added"@.len() == 27);
    assert("response.output_text.delta"@.len() == 26);
    assert("response.output_text.done"@.len() == 25);
    assert("response.content_part.done"@.len() == 26);
    assert("response.output_item.done"@.len() == 25);
    assert("response.completed"@.len() == 18);
    assert("response.incomplete"@.len() == 19);
    assert("response.failed"@.len() == 15);
}

/// The state of an answer of which nothing has been gathered.
pub open spec fn new_context(
    response_id: Seq<char>,
    model: Seq<char>,
    max_output_tokens: i32,
    thinking_enabled: bool,
    tool_name_map: Map<Seq<char>, String>,
    input_tokens: i32,
    created_at: i64,
) -> ContextView {
    ContextView {
        response_id,
        model,
        max_output_tokens,
        thinking_enabled,
        tool_name_map,
        text: Seq::empty(),
        calls: CallsView { open: Map::empty(), done: Seq::empty() },
        input_tokens,
        incomplete_reason: None,
        created_at,
        sequence_number: 0,
    }
}

/// A token count may come out of blocks.
pub open spec fn counted<G: Fn(&Vec<Json>) -> i32>(
    estimate: G,
    blocks: Seq<JsonView>,
    tokens: i32,
) -> bool {
    exists|counted: &Vec<Json>| #[trigger]
        call_ensures(estimate, (counted,), tokens) && items_view(counted@) == blocks
}

/// A token count takes every row of blocks, and what comes out fits beside the tokens of
/// the input.
pub open spec fn estimates<G: Fn(&Vec<Json>) -> i32>(estimate: G, input_tokens: i32) -> bool {
    &&& forall|blocks: &Vec<Json>| call_requires(estimate, (blocks,))
    &&& forall|blocks: &Vec<Json>, tokens: i32|
        call_ensures(estimate, (blocks,), tokens) ==> total_fits(input_tokens, tokens)
}

/// What a token count comes to depends on what the blocks hold alone.
pub open spec fn estimates_by_content<G: Fn(&Vec<Json>) -> i32>(estimate: G) -> bool {
    forall|a: &Vec<Json>, b: &Vec<Json>, m: i32, n: i32|
        #[trigger] call_ensures(estimate, (a,), m) && #[trigger] call_ensures(estimate, (b,), n)
            && items_view(a@) == items_view(b@) ==> m == n
}

/// The text of an answer: without what was thought, where thinking is enabled.
pub open spec fn spoken<F: Fn(&str) -> (Option<String>, String)>(
    extract: F,
    context: ContextView,
    content: Seq<char>,
) -> bool {
    if context.thinking_enabled {
        stripped(extract, context.text, content)
    } else {
        content == context.text
    }
}

/// An answer whose calls are complete ends with these frames.
pub open spec fn ends_with<F: Fn(&str) -> (Option<String>, String), G: Fn(&Vec<Json>) -> i32>(
    context: ContextView,
    extract: F,
    estimate: G,
    sent: Seq<Seq<char>>,
    content: Seq<char>,
    item_id: Seq<char>,
    output_tokens: i32,
) -> bool {
    &&& spoken(extract, context, content)
    &&& content.len() > 0 ==> is_item_id(item_id, "msg_"@)
    &&& counted(estimate, token_blocks(content, context.calls.done), output_tokens)
    &&& sent == frames(
        context.sequence_number,
        finish_notices(context, content, item_id, output_tokens),
    )
}

/// How many notices a row of calls takes.
proof fn lemma_calls_notices_len(calls: Seq<CallView>, first: i64, n: nat)
    ensures
        calls_notices(calls, first, n).len() == 4 * n,
    decreases n,
{
    if n > 0 {
        lemma_calls_notices_len(calls, first, (n - 1) as nat);
    }
}

/// How many notices the end of an answer takes.
pub proof fn lemma_finish_notices_len(
    context: ContextView,
    content: Seq<char>,
    item_id: Seq<char>,
    output_tokens: i32,
)
    ensures
        finish_notices(context, content, item_id, output_tokens).len() <= 4
            * context.calls.done.len() + 7,
{
    let first = if content.len() > 0 {
        1i64
    } else {
        0i64
    };
    lemma_calls_notices_len(context.calls.done, first, context.calls.done.len());
}

/// The text of a frame, its data as they were written.
pub fn make_frame(kind: &str, written: Result<String, String>) -> (r: String)
    ensures
        r@ == frame_text(kind@, seen(written)),
{
    let mut r = join2("event: ", kind);
    r.append("\ndata: ");
    match written {
        Ok(data) => r.append(data.as_str()),
        Err(_) => r.append("{}"),
    }
    r.append("\n\n");
    r
}

/// The id of an item of the output.
pub(crate) fn fresh_item_id(prefix: &str) -> (r: String)
    ensures
        is_item_id(r@, prefix@),
{
    let id = fresh_simple_uuid();
    let r = join2(prefix, id.as_str());
    assert(r@.skip(prefix@.len() as int) =~= id@);
    r
}

/// The id of a response.
pub fn fresh_response_id() -> (r: String)
    ensures
        is_item_id(r@, "resp_"@),
{
    fresh_item_id("resp_")
}

/// The comment that keeps a stream open.
pub fn keep_alive_comment() -> (r: String)
    ensures
        r@ == ": keep-alive\n\n"@,
{
    ": keep-alive\n\n".to_owned()
}

/// A notice.
pub(crate) fn notice(kind: &str, data: Fields) -> (r: Notice)
    ensures
        r@ == (NoticeView { kind: kind@, data: data@ }),
{
    Notice { kind: kind.to_owned(), data }
}

/// A notice whose data are a response object.
pub(crate) fn make_response_notice(kind: &str, response: Json) -> (r: Notice)
    ensures
        r@ == response_notice(kind@, response@),
{
    notice(kind, Fields::new().with("response", response))
}

/// A notice on an item of the output.
pub(crate) fn make_item_notice(kind: &str, index: i64, item: Json) -> (r: Notice)
    ensures
        r@ == item_notice(kind@, index, item@),
{
    notice(kind, Fields::new().with("output_index", signed(index)).with("item", item))
}

/// A notice on the first part of a message of the output.
pub(crate) fn make_part_notice(kind: &str, id: &str, index: i64, field: &str, value: Json) -> (r: Notice)
    ensures
        r@ == part_notice(kind@, id@, index, field@, value@),
{
    notice(
        kind,
        Fields::new().with("item_id", text(id)).with("output_index", signed(index)).with(
            "content_index",
            signed(0),
        ).with(field, value),
    )
}

/// A notice on the arguments of a tool call.
pub(crate) fn make_arguments_notice(kind: &str, call: &CollectedCall, index: i64, field: &str) -> (r: Notice)
    ensures
        r@ == arguments_notice(kind@, call@, index, field@),
{
    notice(
        kind,
        Fields::new().with("item_id", text(call.item_id.as_str())).with(
            "output_index",
            signed(index),
        ).with(field, text(call.arguments.as_str())),
    )
}

/// Puts a notice behind others.
pub(crate) fn put(notices: &mut Vec<Notice>, next: Notice)
    ensures
        notices_view(final(notices)@) == notices_view(old(notices)@).push(next@),
{
    let ghost before = notices@;
    notices.push(next);
    assert(notices_view(notices@) =~= notices_view(before).push(next@));
}

/// No notices.
pub(crate) fn no_notices() -> (r: Vec<Notice>)
    ensures
        notices_view(r@) == Seq::<NoticeView>::empty(),
{
    let r: Vec<Notice> = Vec::new();
    assert(notices_view(r@) =~= Seq::<NoticeView>::empty());
    r
}

/// The notices on the message of an answer.
pub(crate) fn make_text_notices(id: &str, content: &str, index: i64) -> (r: Vec<Notice>)
    ensures
        notices_view(r@) == text_notices(id@, content@, index),
{
    let mut r = no_notices();
    let started = make_output_message(id, "in_progress", empty_array());
    put(&mut r, make_item_notice("response.output_item.added", index, started));
    put(
        &mut r,
        make_part_notice("response.content_part.added", id, index, "part", make_output_part("")),
    );
    put(
        &mut r,
        make_part_notice("response.output_text.delta", id, index, "delta", text(content)),
    );
    put(
        &mut r,
        make_part_notice("response.output_text.done", id, index, "text", text(content)),
    );
    put(
        &mut r,
        make_part_notice(
            "response.content_part.done",
            id,
            index,
            "part",
            make_output_part(content),
        ),
    );
    let done = make_output_message(id, "completed", array_of_one(make_output_part(content)));
    put(&mut r, make_item_notice("response.output_item.done", index, done));
    r
}

/// The notices on a tool call of an answer.
pub(crate) fn make_call_notices(call: &CollectedCall, index: i64) -> (r: Vec<Notice>)
    ensures
        notices_view(r@) == call_notices(call@, index),
{
    let mut r = no_notices();
    let started = make_output_call(call, "in_progress", "");
    put(&mut r, make_item_notice("response.output_item.added", index, started));
    put(
        &mut r,
        make_arguments_notice("response.function_call_arguments.delta", call, index, "delta"),
    );
    put(
        &mut r,
        make_arguments_notice("response.function_call_arguments.done", call, index, "arguments"),
    );
    let done = make_output_call(call, "completed", call.arguments.as_str());
    put(&mut r, make_item_notice("response.output_item.done", index, done));
    r
}

} // verus!
