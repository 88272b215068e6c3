//! What calls on requests and answers bring about.

use vstd::prelude::*;

use crate::anthropic::answer_laws::{
    carried, completed_by, is_call_item, is_fatal, is_message_item, is_unfinished_response,
    last_response, law_all_of_an_answer_is_counted, law_answer_is_gathered_from_all_frames,
    law_collected_answer_is_what_was_gathered, law_event_has_its_effect, law_failed_stream_says_why,
    law_piece_goes_to_its_call, law_piece_is_silent_unless_it_fails,
    law_response_describes_the_answer, law_response_holds_the_answer, law_stream_adds_up,
    law_stream_opens_in_progress, law_whole_answer_is_gathered, output_of, said_by, says,
    whole_number,
};
use crate::anthropic::collected::{
    build_response_body, calls_view, make_token_blocks, token_blocks, CallView, CollectedCall,
    CollectedResponse,
};
use crate::anthropic::content::{
    content_part, content_to_system_text, law_data_url_is_read_back, map_message_content,
    parse_data_url,
};
use crate::anthropic::events::{Event, Frame};
use crate::anthropic::exchange::{
    answer_gathered, are_answer_ids, collect_response, collects, piece_outcome, take, Answer,
    Arrival, Step,
};
use crate::anthropic::input::{input_item, map_input, Input};
use crate::anthropic::reasoning::{effort_view, map_reasoning_for, thinking_view};
use crate::anthropic::reply::{accept, api_error, error_response, map_provider_error, ErrorReply};
use crate::anthropic::request_laws::{
    brings, can_be_passed_on, instructs, is_image_block, is_image_part_of, is_text_block,
    is_text_part_of, is_tool_of, law_backend_refusal, law_block_is_its_part,
    law_choice_is_passed_on, law_every_function_is_passed_on, law_every_item_counts,
    law_every_part_becomes_a_block, law_image_is_what_the_url_says,
    law_instruction_is_all_of_its_lines, law_model_thinks_as_asked, law_reply_tells_the_error,
    law_reply_tells_the_fault, law_request_is_admitted, law_request_is_passed_on,
    law_state_is_refused, law_user_speaks_last, message_of,
};
use crate::anthropic::responses::{map_request, MappedRequest, ResponsesRequest};
use crate::anthropic::stream::{
    are_call_ids, calls_complete, counted, ends_with, failed_notices, finish_notices, frame, frames,
    initial_notices, new_context, spoken, unfinished_message, Notice, NoticeView,
    ResponseStreamContext,
};
use crate::anthropic::tools::{
    definitions_view, law_first_bad_tool_is_reported, map_tool_choice, map_tools, mapped_tools,
    DefinitionView, ResponseTool,
};
use crate::anthropic::types::{
    messages_view, system_view, tools_view, ErrorView, OutputConfig, RequestError, SystemMessage,
    Thinking, Tool,
};
use crate::clock::LAST_SECOND;
use crate::json::{field, items_view, json_parse, lookup, maybe_json, text_field, Json, JsonView};
use crate::table::Table;
use crate::text::{lower_case, maybe_text, occurs_in, texts};

verus! {

/// The response that is built for an answer holds the answer: its text, and each of its calls
/// with its name and arguments, in order.
pub proof fn law_built_response_holds_the_answer(
    id: &str,
    model: &str,
    answer: &CollectedResponse,
    body: Json,
    i: int,
)
    requires
        call_ensures(build_response_body, (id, model, answer), body),
    ensures
        ({
            let output = output_of(body@);
            let first = if answer.text_item_id is Some {
                1int
            } else {
                0int
            };
            &&& text_field(body@, "id"@) == Some(id@)
            &&& text_field(body@, "model"@) == Some(model@)
            &&& text_field(body@, "status"@) == Some(
                if answer.incomplete_reason is Some {
                    "incomplete"@
                } else {
                    "completed"@
                },
            )
            &&& field(body@, "usage"@) matches Some(cost) && field(cost, "total_tokens"@) == Some(
                whole_number(answer.input_tokens + answer.output_tokens),
            )
            &&& output.len() == first + answer.calls@.len()
            &&& answer.text_item_id is Some ==> says(output[0], answer.text@)
            &&& 0 <= i < answer.calls@.len() ==> is_call_item(
                output[first + i],
                "completed"@,
                answer.calls@[i].item_id@,
                answer.calls@[i].call_id@,
                answer.calls@[i].name@,
                answer.calls@[i].arguments@,
            )
        }),
{
    law_response_holds_the_answer(id@, model@, *answer, body);
    law_response_describes_the_answer(id@, model@, *answer, body);
    if 0 <= i < answer.calls@.len() {
        assert(answer.calls@[i] == answer.calls@[i]);
    }
}

/// The content of a message that is accepted has a block for each part: the text of a text,
/// and the image of an image.
pub proof fn law_mapped_content_has_every_part(
    content: &Json,
    role: &str,
    index: usize,
    r: Result<Json, RequestError>,
    i: int,
    said: Seq<char>,
    media_type: Seq<char>,
    data: Seq<char>,
)
    requires
        call_ensures(map_message_content, (content, role, index), r),
    ensures
        match (content@, r) {
            (JsonView::Text(text), Ok(kept)) => kept@ == content@ && text.len() > 0,
            (JsonView::Text(text), Err(_)) => text.len() == 0,
            (JsonView::Array(parts), Ok(kept)) => kept@ matches JsonView::Array(blocks) && {
                &&& blocks.len() == parts.len()
                &&& 0 <= i < parts.len() && is_text_part_of(parts[i], said) ==> is_text_block(
                    blocks[i],
                    said,
                )
                &&& 0 <= i < parts.len() && is_image_part_of(parts[i], media_type, data)
                    ==> is_image_block(blocks[i], media_type, data)
            },
            (JsonView::Array(parts), Err(_)) => parts.len() == 0 || exists|j: int|
                0 <= j < parts.len() && content_part(
                    #[trigger] parts[j],
                    role@,
                    index as nat,
                    j as nat,
                ) is Err,
            (_, Ok(_)) => false,
            (_, Err(_)) => true,
        },
{
    law_every_part_becomes_a_block(content@, role@, index as nat);
    if let JsonView::Array(parts) = content@ {
        if 0 <= i < parts.len() && r is Ok {
            let blocks = r->Ok_0@->Array_0;
            assert(content_part(parts[i], role@, index as nat, i as nat) == Ok::<
                JsonView,
                ErrorView,
            >(blocks[i]));
            law_block_is_its_part(parts[i], role@, index as nat, i as nat);
            lemma_kinds_of_parts();
            if is_image_part_of(parts[i], media_type, data) {
                law_data_url_is_read_back(media_type, data);
                let (m, d) = choose|m: Seq<char>, d: Seq<char>|
                    #[trigger] is_image_part_of(parts[i], m, d) && is_image_block(blocks[i], m, d);
                law_data_url_is_read_back(m, d);
            }
        }
    }
}

proof fn lemma_kinds_of_parts()
    ensures
        "text"@ != "input_image"@,
        "input_text"@ != "input_image"@,
        "output_text"@ != "input_image"@,
{
    reveal_strlit("text");
    reveal_strlit("input_text");
    reveal_strlit("output_text");
    reveal_strlit("input_image");
    assert("text"@.len() == 4 && "input_text"@.len() == 10 && "input_image"@.len() == 11);
    assert("output_text"@[0] == 'o' && "input_image"@[0] == 'i');
}

/// A URL that reads as an image is the head of its media type and its data.
pub proof fn law_read_image_is_what_the_url_says(url: &str, r: Option<(String, String)>)
    requires
        call_ensures(parse_data_url, (url,), r),
    ensures
        r matches Some((media_type, data)) ==> url@ == "data:"@ + media_type@ + ";base64,"@ + data@,
{
    law_image_is_what_the_url_says(url@);
}

/// A request that is accepted is passed on as it was made.
pub proof fn law_accepted_request_is_passed_on(
    request: ResponsesRequest,
    r: Result<MappedRequest, RequestError>,
)
    requires
        call_ensures(map_request, (request,), r),
    ensures
        r matches Ok(mapped) ==> {
            &&& mapped.messages.model@ == request.model@
            &&& mapped.messages.stream == request.stream
            &&& mapped.messages.max_tokens == mapped.max_output_tokens
            &&& mapped.max_output_tokens == if request.max_output_tokens is Some {
                request.max_output_tokens->0
            } else {
                4096i32
            }
            &&& mapped.max_output_tokens > 0
            &&& messages_view(mapped.messages.messages@).len() > 0
            &&& messages_view(mapped.messages.messages@).last().role == "user"@
            &&& request.input@ is Text ==> messages_view(mapped.messages.messages@).len() == 1
                && messages_view(mapped.messages.messages@)[0].content == request.input@
        },
        request.previous_response_id@ != JsonView::Null ==> (r matches Err(error) && maybe_text(
            error.param,
        ) == Some("previous_response_id"@)),
        request.store == Some(true) ==> r is Err,
        request.background ==> r is Err,
        request.conversation@ != JsonView::Null ==> r is Err,
{
    law_state_is_refused(request@, lower_case(request.model@));
    if let Ok(mapped) = r {
        law_request_is_passed_on(request, mapped);
        law_user_speaks_last(messages_view(mapped.messages.messages@));
    }
}

/// The functions of a request are passed on as they are defined: a request of functions alone
/// has each of them passed on in its place.
pub proof fn law_mapped_tools_are_the_functions(
    tools: &Vec<ResponseTool>,
    r: Result<Vec<Tool>, RequestError>,
)
    requires
        forall|i: int| 0 <= i < tools@.len() ==> (#[trigger] tools@[i]).tool_type@ == "function"@,
        call_ensures(map_tools, (tools,), r),
    ensures
        match r {
            Ok(mapped) => mapped@.len() == tools@.len() && forall|i: int|
                0 <= i < tools@.len() ==> is_tool_of(mapped@[i]@, #[trigger] tools@[i]@),
            Err(_) => exists|i: int|
                0 <= i < tools@.len() && !can_be_passed_on(#[trigger] tools@[i]@),
        },
{
    let views = definitions_view(tools@);
    assert forall|i: int| 0 <= i < views.len() implies (#[trigger] views[i]).tool_type
        == "function"@ by {
        assert(views[i] == tools@[i]@);
    }
    lemma_functions_are_passed_on(views);
    match r {
        Ok(mapped) => {
            assert forall|i: int| 0 <= i < tools@.len() implies is_tool_of(
                mapped@[i]@,
                #[trigger] tools@[i]@,
            ) by {
                assert(tools_view(mapped@)[i] == mapped@[i]@);
                assert(views[i] == tools@[i]@);
            }
            assert(tools_view(mapped@).len() == mapped@.len());
        },
        Err(_) => {
            let i = choose|i: int| 0 <= i < views.len() && !can_be_passed_on(#[trigger] views[i]);
            assert(views[i] == tools@[i]@);
        },
    }
}

proof fn lemma_functions_are_passed_on(tools: Seq<DefinitionView>)
    requires
        forall|i: int| 0 <= i < tools.len() ==> (#[trigger] tools[i]).tool_type == "function"@,
    ensures
        match mapped_tools(tools) {
            Ok(mapped) => mapped.len() == tools.len() && forall|i: int|
                0 <= i < tools.len() ==> is_tool_of(mapped[i], #[trigger] tools[i]),
            Err(_) => exists|i: int|
                0 <= i < tools.len() && !can_be_passed_on(#[trigger] tools[i]),
        },
    decreases tools.len(),
{
    if tools.len() == 0 {
        law_every_function_is_passed_on(tools, arbitrary());
        assert(tools =~= Seq::empty());
    } else {
        let front = tools.drop_last();
        let last = tools.last();
        assert(tools[tools.len() - 1] == last);
        assert forall|i: int| 0 <= i < front.len() implies (#[trigger] front[i]).tool_type
            == "function"@ by {
            assert(front[i] == tools[i]);
        }
        lemma_functions_are_passed_on(front);
        law_every_function_is_passed_on(front, last);
        assert(front.push(last) =~= tools);
        if mapped_tools(front) is Err {
            law_first_bad_tool_is_reported(front, seq![last]);
            assert(front + seq![last] =~= tools);
            let i = choose|i: int| 0 <= i < front.len() && !can_be_passed_on(#[trigger] front[i]);
            assert(!can_be_passed_on(tools[i]));
        } else {
            assert(brings(last) =~= seq![last]);
            assert(brings(last)[0] == last);
        }
    }
}

/// A refusal tells the client what is wrong: the error of the request, or the fault of the
/// service.
pub proof fn law_refusals_say_what_is_wrong(
    status: u16,
    error: RequestError,
    refused: ErrorReply,
    message: &str,
    failed: ErrorReply,
    backend: ErrorReply,
)
    requires
        call_ensures(error_response, (status, error), refused),
        call_ensures(api_error, (status, message), failed),
        call_ensures(map_provider_error, (message,), backend),
    ensures
        refused.status == status,
        refused.error.message@ == error.message@,
        maybe_text(refused.error.param) == maybe_text(error.param),
        maybe_text(refused.error.code) == maybe_text(error.code),
        refused.error.error_type@ == "invalid_request_error"@,
        failed.status == status,
        failed.error.message@ == message@,
        failed.error.error_type@ == "api_error"@,
        backend.status == if occurs_in(message@, "CONTENT_LENGTH_EXCEEDS_THRESHOLD"@) || occurs_in(
            message@,
            "Input is too long"@,
        ) {
            400u16
        } else {
            502u16
        },
{
    law_reply_tells_the_error(status, error, refused);
    law_reply_tells_the_fault(status, message@, failed);
    law_backend_refusal(message@, backend);
}

/// A stream ends with as many frames as there are notices, numbered on from the last; and
/// what they tell piece by piece is what the last of them tells as a whole.
pub proof fn law_sent_stream_adds_up(
    context: &mut ResponseStreamContext,
    content: String,
    item_id: &str,
    output_tokens: i32,
    sent: Vec<String>,
)
    requires
        call_ensures(
            ResponseStreamContext::finish_events_with,
            (context, content, item_id, output_tokens),
            sent,
        ),
    ensures
        exists|notices: Seq<NoticeView>|
            #![trigger frames(old(context).sequence_number, notices)]
            {
                let output = output_of(last_response(notices));
                &&& texts(sent@) == frames(old(context).sequence_number, notices)
                &&& notices.filter_map(carried("response.output_item.done"@, "item"@)) == output
                &&& output.len() == old(context).calls@.len() + if content@.len() > 0 {
                    1int
                } else {
                    0int
                }
                &&& content@.len() > 0 ==> is_message_item(output[0], "completed"@, item_id@)
                    && says(output[0], content@)
                &&& notices.filter_map(
                    carried("response.function_call_arguments.delta"@, "delta"@),
                ) == old(context).calls@.map_values(
                    |call: CollectedCall| JsonView::Text(call.arguments@),
                )
            },
{
    let view = old(context)@;
    let notices = finish_notices(view, content@, item_id@, output_tokens);
    law_stream_adds_up(view, content@, item_id@, output_tokens);
    let output = output_of(last_response(notices));
    let calls = output.skip(
        if content@.len() > 0 {
            1
        } else {
            0
        },
    );
    let given = notices.filter_map(carried("response.function_call_arguments.delta"@, "delta"@));
    let expected = old(context).calls@.map_values(
        |call: CollectedCall| JsonView::Text(call.arguments@),
    );
    assert(given.len() == calls.len());
    assert forall|i: int| 0 <= i < expected.len() implies given[i] == expected[i] by {
        let call = view.calls.done[i];
        assert(call == old(context).calls@[i]@);
        assert(text_field(calls[i], "arguments"@) == Some(call.arguments));
    }
    assert(given =~= expected);
    assert(texts(sent@) == frames(old(context).sequence_number, notices));
}

/// An event of the backend has its effect: what is said is put behind the text, a failure
/// changes nothing and is passed on.
pub proof fn law_processed_event_has_its_effect(
    context: &mut ResponseStreamContext,
    event: &Event,
    item_id: &str,
    r: Result<(), String>,
)
    requires
        call_ensures(
            ResponseStreamContext::process_event_with,
            (context, event, item_id),
            r,
        ),
    ensures
        r is Err ==> *final(context) == *old(context),
        *event matches Event::AssistantResponse { content } ==> r is Ok && final(context).text@
            == old(context).text@ + content@ && final(context).input_tokens
            == old(context).input_tokens,
        *event matches Event::ContextUsage { percentage, input_tokens } ==> r is Ok && final(
            context).input_tokens == input_tokens && final(context).text@ == old(context).text@,
        *event matches Event::ToolUse(tool) ==> r is Ok && final(context).text@ == old(context).text@
            && final(context).calls@.len() == old(context).calls@.len() + if tool.stop {
            1int
        } else {
            0int
        },
        *event matches Event::ToolUse(tool) ==> (tool.stop ==> final(context).calls@.last().call_id@
            == tool.tool_use_id@ && final(context).calls@.last().item_id@ == item_id@),
        *event is Error ==> r is Err,
        final(context).model@ == old(context).model@,
        final(context).response_id@ == old(context).response_id@,
        final(context).sequence_number == old(context).sequence_number,
{
    law_event_has_its_effect(old(context)@, *event, item_id@);
    let a = old(context)@;
    let b = final(context)@;
    assert(a.text == old(context).text@ && b.text == final(context).text@);
    assert(a.calls.done.len() == old(context).calls@.len());
    assert(b.calls.done.len() == final(context).calls@.len());
    if let Event::ToolUse(tool) = *event {
        law_piece_goes_to_its_call(a.calls, a.tool_name_map, tool, item_id@, tool.tool_use_id@);
        if tool.stop {
            assert(b.calls.done.last() == final(context).calls@.last()@);
        }
    }
}

/// A stream opens with a response in progress, and fails with the message that it is given.
pub proof fn law_sent_opening_and_failure(
    opening: &mut ResponseStreamContext,
    opened: Vec<String>,
    failing: &mut ResponseStreamContext,
    message: &str,
    failed: Vec<String>,
)
    requires
        call_ensures(ResponseStreamContext::initial_events, (opening,), opened),
        call_ensures(ResponseStreamContext::failed_events, (failing, message), failed),
    ensures
        exists|notices: Seq<NoticeView>|
            #![trigger frames(old(opening).sequence_number, notices)]
            {
                &&& texts(opened@) == frames(old(opening).sequence_number, notices)
                &&& notices.len() == 2
                &&& notices[0].kind == "response.created"@
                &&& notices[1].kind == "response.in_progress"@
                &&& forall|i: int|
                    0 <= i < 2 ==> (lookup((#[trigger] notices[i]).data, "response"@) matches Some(
                        response,
                    ) && is_unfinished_response(response, old(opening)@) && text_field(
                        response,
                        "status"@,
                    ) == Some("in_progress"@))
            },
        final(opening).sequence_number == (old(opening).sequence_number + 2) as u64,
        exists|notices: Seq<NoticeView>|
            #![trigger frames(old(failing).sequence_number, notices)]
            {
                &&& texts(failed@) == frames(old(failing).sequence_number, notices)
                &&& notices.len() == 1
                &&& notices[0].kind == "response.failed"@
                &&& lookup(notices[0].data, "response"@) matches Some(response) && {
                    &&& is_unfinished_response(response, old(failing)@)
                    &&& text_field(response, "status"@) == Some("failed"@)
                    &&& field(response, "error"@) matches Some(error) && text_field(
                        error,
                        "message"@,
                    ) == Some(message@)
                }
            },
{
    law_stream_opens_in_progress(old(opening)@);
    law_failed_stream_says_why(old(failing)@, message@);
    let first = initial_notices(old(opening)@);
    let second = failed_notices(old(failing)@, message@);
    assert(texts(opened@) == frames(old(opening).sequence_number, first));
    assert(texts(failed@) == frames(old(failing).sequence_number, second));
}

/// Each notice gets the next number, and its frame says its kind and its data.
pub proof fn law_sent_notice_gets_the_next_number(
    context: &mut ResponseStreamContext,
    notice: Notice,
    sent: String,
)
    requires
        call_ensures(ResponseStreamContext::event, (context, notice), sent),
    ensures
        final(context).sequence_number == (old(context).sequence_number + 1) as u64,
        sent@ == frame((old(context).sequence_number + 1) as u64, notice@),
        final(context).text == old(context).text,
        final(context).calls == old(context).calls,
{
}

/// The answer that has been gathered holds the text that it is given, all completed calls, and
/// what was counted.
pub proof fn law_gathered_answer_holds_all(
    context: &ResponseStreamContext,
    content: String,
    item_id: Option<String>,
    output_tokens: i32,
    r: CollectedResponse,
)
    requires
        call_ensures(
            ResponseStreamContext::collected_with,
            (context, content, item_id, output_tokens),
            r,
        ),
    ensures
        r.text@ == content@,
        maybe_text(r.text_item_id) == maybe_text(item_id),
        calls_view(r.calls@) == calls_view(context.calls@),
        r.input_tokens == context.input_tokens,
        r.output_tokens == output_tokens,
        r.max_output_tokens == context.max_output_tokens,
        r.created_at == context.created_at,
        r.incomplete_reason is Some <==> context.incomplete_reason is Some || output_tokens
            >= context.max_output_tokens,
{
    assert(maybe_text(r.incomplete_reason) is Some <==> r.incomplete_reason is Some);
    assert(maybe_text(context.incomplete_reason) is Some <==> context.incomplete_reason is Some);
}

/// What instructs the model is the text of an instruction as it is, or the lines of its parts.
pub proof fn law_instruction_is_what_it_says(
    content: &Json,
    index: usize,
    r: Result<String, RequestError>,
    part: JsonView,
    said: Seq<char>,
)
    requires
        call_ensures(content_to_system_text, (content, index), r),
        instructs(part, said),
    ensures
        content@ == JsonView::Text(said) && said.len() > 0 ==> r is Ok && r->Ok_0@ == said,
        content@ == JsonView::Array(Seq::<JsonView>::empty().push(part)) ==> r is Ok && r->Ok_0@
            == said,
{
    law_instruction_is_all_of_its_lines(Seq::empty(), part, said, index as nat);
}

/// The choice among the tools is passed on, and only a function that there is can be named.
pub proof fn law_passed_choice(
    choice: &Option<Json>,
    tools: &Vec<Tool>,
    r: Result<Option<Json>, RequestError>,
)
    requires
        call_ensures(map_tool_choice, (choice, tools), r),
    ensures
        choice is None ==> (r matches Ok(passed) && passed is None),
        r matches Ok(Some(passed)) ==> (maybe_json(*choice) matches Some(asked) && match asked {
            JsonView::Text(word) => text_field(passed@, "type"@) == Some(
                if word == "required"@ {
                    "any"@
                } else {
                    word
                },
            ),
            _ => text_field(passed@, "type"@) == Some("tool"@) && text_field(passed@, "name"@)
                == text_field(asked, "name"@),
        }),
{
    law_choice_is_passed_on(maybe_json(*choice), tools_view(tools@));
}

/// A model thinks as its name and the effort ask for.
pub proof fn law_passed_reasoning(
    lower: &str,
    effort: Option<String>,
    r: Result<(Option<Thinking>, Option<OutputConfig>), RequestError>,
)
    requires
        call_ensures(map_reasoning_for, (lower, effort), r),
    ensures
        r matches Ok(found) ==> {
            let by_name = occurs_in(lower@, "thinking"@);
            let by_effort = effort matches Some(asked) && asked@ != "none"@;
            &&& found.0 is Some <==> by_name || by_effort
            &&& found.0 matches Some(thinking) ==> thinking.budget_tokens == 20_000 && (
            thinking.thinking_type@ == "adaptive"@ || thinking.thinking_type@ == "enabled"@)
            &&& found.1 matches Some(config) ==> found.0 is Some && match effort {
                Some(asked) => config.effort@ == asked@,
                None => config.effort@ == "high"@,
            }
        },
{
    law_model_thinks_as_asked(lower@, maybe_text(effort));
    if let Ok(found) = r {
        assert(thinking_view(found.0) is Some <==> found.0 is Some);
        assert(effort_view(found.1) is Some <==> found.1 is Some);
    }
}

/// A request is accepted where it can be read, there is a backend, and it can be mapped; else
/// it is refused with the status that says whose fault it is.
pub proof fn law_accepted_or_refused(
    request: Result<ResponsesRequest, String>,
    configured: bool,
    r: Result<MappedRequest, ErrorReply>,
)
    requires
        call_ensures(accept, (request, configured), r),
    ensures
        request is Err ==> (r matches Err(reply) && reply.status == 400),
        request is Ok && !configured ==> (r matches Err(reply) && reply.status == 503),
        request is Ok && configured && r is Err ==> r->Err_0.status == 400,
        r matches Ok(mapped) ==> request is Ok && configured && mapped.messages.model@
            == request->Ok_0.model@,
{
    law_request_is_admitted(request, configured);
    if let Ok(mapped) = r {
        law_request_is_passed_on(request->Ok_0, mapped);
    }
}

/// The input of a request is all of its items; a text is one message of the user.
pub proof fn law_mapped_input_is_all_of_it(
    input: &Json,
    system: Option<Vec<SystemMessage>>,
    r: Result<Input, RequestError>,
)
    requires
        call_ensures(map_input, (input, system), r),
    ensures
        match (input@, r) {
            (JsonView::Text(said), Ok(mapped)) => {
                &&& mapped.messages@.len() == 1
                &&& mapped.messages@[0].role@ == "user"@
                &&& mapped.messages@[0].content@ == input@
                &&& system_view(mapped.system) == system_view(system)
            },
            (JsonView::Text(said), Err(_)) => said.len() == 0,
            (JsonView::Array(items), Ok(mapped)) => {
                let found = Seq::new(
                    items.len(),
                    |i: int| input_item(items[i], i as nat)->Ok_0,
                );
                messages_view(mapped.messages@) == found.filter_map(message_of())
            },
            _ => true,
        },
{
    law_every_item_counts(input@, system_view(system));
    if let Ok(mapped) = r {
        assert(messages_view(mapped.messages@).len() == mapped.messages@.len());
        if mapped.messages@.len() > 0 {
            assert(messages_view(mapped.messages@)[0] == mapped.messages@[0]@);
        }
    }
}

/// An answer is counted by its text and by what the arguments of its calls encode.
pub proof fn law_counted_blocks(
    content: &str,
    calls: &Vec<CollectedCall>,
    blocks: Vec<Json>,
    i: int,
)
    requires
        call_ensures(make_token_blocks, (content, calls), blocks),
    ensures
        ({
            let first = if content@.len() > 0 {
                1int
            } else {
                0int
            };
            &&& blocks@.len() == first + calls@.len()
            &&& content@.len() > 0 ==> text_field(blocks@[0]@, "text"@) == Some(content@)
            &&& 0 <= i < calls@.len() ==> field(blocks@[first + i]@, "input"@) == Some(
                match json_parse(calls@[i].arguments@) {
                    Ok(input) => input,
                    Err(_) => JsonView::Text(calls@[i].arguments@),
                },
            )
        }),
{
    let views = calls_view(calls@);
    law_all_of_an_answer_is_counted(content@, views);
    assert(items_view(blocks@).len() == blocks@.len());
    if content@.len() > 0 {
        assert(items_view(blocks@)[0] == blocks@[0]@);
    }
    let first = if content@.len() > 0 {
        1int
    } else {
        0int
    };
    if 0 <= i < calls@.len() {
        assert(views[i] == calls@[i]@);
        assert(items_view(blocks@)[first + i] == blocks@[first + i]@);
    }
}

/// An answer ends as a whole where all of its calls are complete, and fails, naming those that
/// are not, where they are not. Its end tells what was said and what was called.
pub proof fn law_finished_stream<F: Fn(&str) -> (Option<String>, String), G: Fn(&Vec<Json>) -> i32>(
    context: &mut ResponseStreamContext,
    extract: &F,
    estimate: &G,
    sent: Vec<String>,
)
    requires
        call_ensures(
            ResponseStreamContext::finish_events::<F, G>,
            (context, extract, estimate),
            sent,
        ),
    ensures
        calls_complete(old(context)@) ==> exists|
            content: Seq<char>,
            item_id: Seq<char>,
            output_tokens: i32,
        |
            #![trigger finish_notices(old(context)@, content, item_id, output_tokens)]
            {
                &&& texts(sent@) == frames(
                    old(context).sequence_number,
                    finish_notices(old(context)@, content, item_id, output_tokens),
                )
                &&& spoken(*extract, old(context)@, content)
                &&& counted(
                    *estimate,
                    token_blocks(content, old(context)@.calls.done),
                    output_tokens,
                )
            },
        !calls_complete(old(context)@) ==> texts(sent@) == frames(
            old(context).sequence_number,
            failed_notices(old(context)@, unfinished_message(old(context)@)),
        ),
        final(context).sequence_number == (old(context).sequence_number + sent@.len()) as u64,
{
    if calls_complete(old(context)@) {
        let (content, item_id, output_tokens) = choose|
            content: Seq<char>,
            item_id: Seq<char>,
            output_tokens: i32,
        | #[trigger]
            ends_with(
                old(context)@,
                *extract,
                *estimate,
                texts(sent@),
                content,
                item_id,
                output_tokens,
            );
        assert(texts(sent@) == frames(
            old(context).sequence_number,
            finish_notices(old(context)@, content, item_id, output_tokens),
        ));
    }
}

/// While an answer is passed on, silence is broken by a comment, a piece is taken in without a
/// word unless it fails, an error of reading ends the stream as failed, and so does the end
/// where a call is not complete.
pub proof fn law_arrival_is_answered<
    F: Fn(&str) -> (Option<String>, String),
    G: Fn(&Vec<Json>) -> i32,
>(
    context: &mut ResponseStreamContext,
    arrival: &Arrival,
    extract: &F,
    estimate: &G,
    step: Step,
)
    requires
        call_ensures(take::<F, G>, (context, arrival, extract, estimate), step),
    ensures
        *arrival is Silence ==> step.output@.len() == 1 && step.output@[0]@ == ": keep-alive\n\n"@
            && !step.finished && *final(context) == *old(context),
        *arrival matches Arrival::Piece(received) ==> {
            let fatal = exists|i: int|
                0 <= i < received@.len() && is_fatal(#[trigger] received@[i]);
            &&& step.finished <==> fatal
            &&& step.output@.len() == if fatal {
                1nat
            } else {
                0nat
            }
            &&& !fatal ==> final(context).text@ == old(context).text@ + received@.take(
                received@.len() as int,
            ).filter_map(said_by()).flatten()
        },
        *arrival matches Arrival::ReadError(error) ==> step.finished && texts(step.output@) == frames(
            old(context).sequence_number,
            failed_notices(old(context)@, "Failed to read upstream response: "@ + error@),
        ),
        *arrival is End ==> step.finished,
        *arrival is End && !calls_complete(old(context)@) ==> texts(step.output@) == frames(
            old(context).sequence_number,
            failed_notices(old(context)@, unfinished_message(old(context)@)),
        ),
{
    match *arrival {
        Arrival::Silence => {
            let said = seq![": keep-alive\n\n"@];
            assert(texts(step.output@).len() == said.len());
            assert(texts(step.output@)[0] == said[0]);
        },
        Arrival::Piece(received) => {
            let item_ids = choose|item_ids: Seq<Seq<char>>|
                are_call_ids(item_ids, received@) && (
                    final(context)@,
                    texts(step.output@),
                    step.finished,
                ) == #[trigger] piece_outcome(old(context)@, received@, item_ids);
            law_piece_is_silent_unless_it_fails(old(context)@, received@, item_ids);
            law_answer_is_gathered_from_all_frames(
                old(context)@,
                received@,
                item_ids,
                received@.len(),
            );
            assert(texts(step.output@).len() == step.output@.len());
            assert(final(context)@.text == final(context).text@);
        },
        _ => {},
    }
}

/// An answer that is collected holds all that the backend said, where nothing is thought, and
/// every call that was completed; it fails where a frame is fatal.
pub proof fn law_collected_from_all_frames<
    F: Fn(&str) -> (Option<String>, String),
    G: Fn(&Vec<Json>) -> i32,
>(
    received: Vec<Frame>,
    answer: &Answer,
    model: &str,
    input_tokens: i32,
    max_output_tokens: i32,
    thinking_enabled: bool,
    names: Table<String>,
    extract: &F,
    estimate: &G,
    r: Result<CollectedResponse, String>,
)
    requires
        *answer == Answer::Frames(received),
        call_ensures(
            collect_response::<F, G>,
            (
                answer,
                model,
                input_tokens,
                max_output_tokens,
                thinking_enabled,
                names,
                extract,
                estimate,
            ),
            r,
        ),
    ensures
        (exists|i: int| 0 <= i < received@.len() && is_fatal(#[trigger] received@[i])) ==> r is Err,
        r matches Ok(collected) ==> {
            let all = received@.take(received@.len() as int);
            &&& !thinking_enabled ==> collected.text@ == all.filter_map(said_by()).flatten()
            &&& collected.calls@.map_values(|call: CollectedCall| call.call_id@)
                == all.filter_map(completed_by())
            &&& collected.max_output_tokens == max_output_tokens
            &&& collected.text_item_id is Some <==> collected.text@.len() > 0
        },
{
    let begun = new_context(
        ""@,
        model@,
        max_output_tokens,
        thinking_enabled,
        names@,
        input_tokens,
        0,
    );
    let item_ids = choose|item_ids: Seq<Seq<char>>|
        are_answer_ids(item_ids, *answer) && match #[trigger] answer_gathered(
            begun,
            *answer,
            item_ids,
        ) {
            Ok(context) => r matches Ok(collected) && 0 <= collected.created_at <= LAST_SECOND
                && exists|item_id: Seq<char>| #[trigger]
                collects(context, *extract, *estimate, collected@, item_id),
            Err(error) => r matches Err(found) && found@ == error,
        };
    law_whole_answer_is_gathered(begun, received, item_ids);
    law_answer_is_gathered_from_all_frames(begun, received@, item_ids, received@.len());
    if let Ok(collected) = r {
        let context = answer_gathered(begun, *answer, item_ids)->Ok_0;
        let item_id = choose|item_id: Seq<char>| #[trigger]
            collects(context, *extract, *estimate, collected@, item_id);
        law_collected_answer_is_what_was_gathered(context, *extract, *estimate, collected, item_id);
        let all = received@.take(received@.len() as int);
        let said = all.filter_map(said_by()).flatten();
        let done = all.filter_map(completed_by());
        assert(begun.text + said =~= said);
        assert(begun.calls.done.map_values(|call: CallView| call.call_id) + done =~= done);
        assert(collected.calls@.map_values(|call: CollectedCall| call.call_id@)
            =~= context.calls.done.map_values(|call: CallView| call.call_id));
    }
}

} // verus!
