//! One exchange with the backend: its answer collected as a whole, or passed on piece by
//! piece.

use vstd::prelude::*;

use crate::anthropic::collected::{
    make_token_blocks, output_items, response_object, token_blocks, CallView, CollectedResponse,
    CollectedView,
};
use crate::anthropic::context::call_ids_for;
use crate::anthropic::events::{CallsView, Frame};
use crate::anthropic::stream::{
    are_call_ids, calls_complete, counted, ends_with, estimates, estimates_by_content,
    failed_notices, frame, frame_processed, frames, frames_processed, fresh_item_id, gathered,
    is_item_id, keep_alive_comment, message_id, new_context, response_notice, spoken,
    unfinished_message, ContextView, ResponseStreamContext,
};
use crate::anthropic::thinking::{
    extracts, extracts_by_text, lemma_stripped_is_one, remove_complete_thinking_blocks,
};
use crate::clock::{now, LAST_SECOND};
use crate::json::Json;
use crate::table::Table;
use crate::text::{join2, maybe_text, texts};

verus! {

/// The answer of the backend as a whole: its frames, or why they could not be read.
#[derive(Debug)]
pub enum Answer {
    Frames(Vec<Frame>),
    Unreadable(String),
}

/// What is gathered from the answer of the backend as a whole, or why it fails.
pub open spec fn answer_gathered(
    context: ContextView,
    answer: Answer,
    item_ids: Seq<Seq<char>>,
) -> Result<ContextView, Seq<char>> {
    match answer {
        Answer::Unreadable(error) => Err("Failed to decode upstream response: "@ + error@),
        Answer::Frames(received) => {
            let (after, failure) = frames_processed(
                context,
                received@,
                item_ids,
                received@.len(),
            );
            if failure is Some {
                Err(failure->0)
            } else if !calls_complete(after) {
                Err(unfinished_message(after))
            } else {
                Ok(after)
            }
        },
    }
}

/// The ids for the calls that an answer completes.
pub open spec fn are_answer_ids(item_ids: Seq<Seq<char>>, answer: Answer) -> bool {
    answer matches Answer::Frames(received) ==> are_call_ids(item_ids, received@)
}

/// The answer that was collected: its text is freed of what was thought, where thinking is
/// enabled, and counted.
pub open spec fn collects<F: Fn(&str) -> (Option<String>, String), G: Fn(&Vec<Json>) -> i32>(
    context: ContextView,
    extract: F,
    estimate: G,
    collected: CollectedView,
    item_id: Seq<char>,
) -> bool {
    &&& spoken(extract, context, collected.text)
    &&& collected.text.len() > 0 ==> is_item_id(item_id, "msg_"@)
    &&& counted(
        estimate,
        token_blocks(collected.text, context.calls.done),
        collected.output_tokens,
    )
    &&& collected == gathered(
        ContextView { created_at: collected.created_at, ..context },
        collected.text,
        message_id(collected.text, item_id),
        collected.output_tokens,
    )
}

/// Gathers the answer of the backend as a whole, the calls that it completes under
/// `item_ids`; or says why it fails.
pub fn gather_with(
    context: &mut ResponseStreamContext,
    answer: &Answer,
    item_ids: &Vec<String>,
) -> (r: Result<(), String>)
    requires
        answer matches Answer::Frames(received) ==> item_ids@.len() == received@.len(),
    ensures
        match answer_gathered(old(context)@, *answer, texts(item_ids@)) {
            Ok(after) => r is Ok && final(context)@ == after,
            Err(error) => r matches Err(found) && found@ == error,
        },
{
    let received = match answer {
        Answer::Frames(received) => received,
        Answer::Unreadable(error) => {
            return Err(join2("Failed to decode upstream response: ", error.as_str()));
        },
    };
    if let Err(error) = context.process_frames_with(received, item_ids) {
        return Err(error);
    }
    match context.unfinished() {
        Some(message) => Err(message),
        None => Ok(()),
    }
}

/// Collects the answer of the backend as a whole, or says why it fails.
pub fn collect_response<F: Fn(&str) -> (Option<String>, String), G: Fn(&Vec<Json>) -> i32>(
    answer: &Answer,
    model: &str,
    estimated_input_tokens: i32,
    max_output_tokens: i32,
    thinking_enabled: bool,
    tool_name_map: Table<String>,
    extract: &F,
    estimate: &G,
) -> (r: Result<CollectedResponse, String>)
    requires
        extracts(*extract),
        forall|blocks: &Vec<Json>| call_requires(*estimate, (blocks,)),
    ensures
        exists|item_ids: Seq<Seq<char>>|
            are_answer_ids(item_ids, *answer) && match #[trigger] answer_gathered(
                new_context(
                    ""@,
                    model@,
                    max_output_tokens,
                    thinking_enabled,
                    tool_name_map@,
                    estimated_input_tokens,
                    0,
                ),
                *answer,
                item_ids,
            ) {
                Ok(context) => r matches Ok(collected) && 0 <= collected.created_at <= LAST_SECOND
                    && exists|item_id: Seq<char>| #[trigger]
                    collects(context, *extract, *estimate, collected@, item_id),
                Err(error) => r matches Err(found) && found@ == error,
            },
{
    let mut context = ResponseStreamContext::new_at(
        "".to_owned(),
        model.to_owned(),
        max_output_tokens,
        thinking_enabled,
        tool_name_map,
        estimated_input_tokens,
        0,
    );
    let item_ids = match answer {
        Answer::Frames(received) => call_ids_for(received),
        Answer::Unreadable(_) => Vec::new(),
    };
    if let Err(error) = gather_with(&mut context, answer, &item_ids) {
        return Err(error);
    }
    let ghost after = context@;
    let content = if context.thinking_enabled {
        remove_complete_thinking_blocks(context.text.clone(), extract)
    } else {
        context.text.clone()
    };
    let blocks = make_token_blocks(content.as_str(), &context.calls);
    let output_tokens: i32 = estimate(&blocks);
    let ghost mut id: Seq<char> = Seq::empty();
    let text_item_id = if content.as_str().is_empty() {
        None
    } else {
        let item_id = fresh_item_id("msg_");
        proof {
            id = item_id@;
        }
        Some(item_id)
    };
    context.created_at = now().secs;
    let collected = context.collected_with(content, text_item_id, output_tokens);
    assert(maybe_text(collected.text_item_id) == message_id(collected.text@, id));
    assert(collects(after, *extract, *estimate, collected@, id));
    Ok(collected)
}

/// Two rows of calls that differ in the ids of their items alone.
pub open spec fn same_calls(a: Seq<CallView>, b: Seq<CallView>) -> bool {
    &&& a.len() == b.len()
    &&& forall|i: int|
        0 <= i < a.len() ==> #[trigger] a[i] == (CallView { item_id: a[i].item_id, ..b[i] })
}

/// Two states of an answer that differ in ids, time and numbering alone.
pub open spec fn same_progress(a: ContextView, b: ContextView) -> bool {
    &&& same_calls(a.calls.done, b.calls.done)
    &&& a == ContextView {
        response_id: a.response_id,
        created_at: a.created_at,
        sequence_number: a.sequence_number,
        calls: CallsView { open: b.calls.open, done: a.calls.done },
        ..b
    }
}

/// The same frame brings two such states to two such states, or both to the same failure.
proof fn lemma_frame_does_the_same(
    a: ContextView,
    b: ContextView,
    received: Frame,
    a_id: Seq<char>,
    b_id: Seq<char>,
)
    requires
        same_progress(a, b),
    ensures
        match (frame_processed(a, received, a_id), frame_processed(b, received, b_id)) {
            (Ok(x), Ok(y)) => same_progress(x, y),
            (Err(x), Err(y)) => x == y,
            _ => false,
        },
{
}

/// The same frames bring two such states to two such states, with the same failure if any.
proof fn lemma_frames_do_the_same(
    a: ContextView,
    b: ContextView,
    received: Seq<Frame>,
    a_ids: Seq<Seq<char>>,
    b_ids: Seq<Seq<char>>,
    n: nat,
)
    requires
        same_progress(a, b),
    ensures
        ({
            let (x, x_failure) = frames_processed(a, received, a_ids, n);
            let (y, y_failure) = frames_processed(b, received, b_ids, n);
            same_progress(x, y) && x_failure == y_failure
        }),
    decreases n,
{
    if n > 0 {
        let m = (n - 1) as nat;
        lemma_frames_do_the_same(a, b, received, a_ids, b_ids, m);
        let (x, _) = frames_processed(a, received, a_ids, m);
        let (y, _) = frames_processed(b, received, b_ids, m);
        lemma_frame_does_the_same(x, y, received[m as int], a_ids[m as int], b_ids[m as int]);
    }
}

/// Frames leave what an answer answers, and its numbering, as they are.
proof fn lemma_frames_keep(
    context: ContextView,
    received: Seq<Frame>,
    item_ids: Seq<Seq<char>>,
    n: nat,
)
    ensures
        ({
            let (after, _) = frames_processed(context, received, item_ids, n);
            &&& after.response_id == context.response_id
            &&& after.model == context.model
            &&& after.thinking_enabled == context.thinking_enabled
            &&& after.created_at == context.created_at
            &&& after.sequence_number == context.sequence_number
        }),
    decreases n,
{
    if n > 0 {
        lemma_frames_keep(context, received, item_ids, (n - 1) as nat);
    }
}

/// A stream and a collected answer fail alike: from the same request and the same frames,
/// under whatever ids, at whatever time and from whatever number on, both fail or neither
/// does, and with the same message. The stream fails by a frame, or at its end where a
/// call is not complete.
pub proof fn law_stream_fails_as_collection_does(
    received: Vec<Frame>,
    model: Seq<char>,
    max_output_tokens: i32,
    thinking_enabled: bool,
    tool_name_map: Map<Seq<char>, String>,
    input_tokens: i32,
    response_id: Seq<char>,
    created_at: i64,
    sequence_number: u64,
    stream_ids: Seq<Seq<char>>,
    collected_ids: Seq<Seq<char>>,
)
    ensures
        ({
            let request = new_context(
                ""@,
                model,
                max_output_tokens,
                thinking_enabled,
                tool_name_map,
                input_tokens,
                0,
            );
            let opened = ContextView { response_id, created_at, sequence_number, ..request };
            let (after, failure) = frames_processed(
                opened,
                received@,
                stream_ids,
                received@.len(),
            );
            match answer_gathered(request, Answer::Frames(received), collected_ids) {
                Ok(context) => failure is None && calls_complete(after) && same_progress(
                    after,
                    context,
                ),
                Err(error) => failure == Some(error) || (failure is None && !calls_complete(after)
                    && unfinished_message(after) == error),
            }
        }),
{
    let request = new_context(
        ""@,
        model,
        max_output_tokens,
        thinking_enabled,
        tool_name_map,
        input_tokens,
        0,
    );
    let opened = ContextView { response_id, created_at, sequence_number, ..request };
    lemma_frames_do_the_same(
        opened,
        request,
        received@,
        stream_ids,
        collected_ids,
        received@.len(),
    );
}

/// An answer under other ids for its items, and of another time.
pub open spec fn under_ids(
    answer: CollectedView,
    message_id: Seq<char>,
    call_ids: Seq<Seq<char>>,
    created_at: i64,
) -> CollectedView {
    CollectedView {
        text_item_id: match answer.text_item_id {
            Some(_) => Some(message_id),
            None => None,
        },
        calls: Seq::new(
            answer.calls.len(),
            |i: int| CallView { item_id: call_ids[i], ..answer.calls[i] },
        ),
        created_at,
        ..answer
    }
}

/// A stream ends with the answer that would have been collected: from the same request and
/// the same frames, the last frame of a stream that does not fail holds the response
/// object of the collected answer, under the ids and of the time of the stream. What is
/// extracted from a text, and what blocks are counted as, is taken to depend on the text
/// and on the blocks alone.
pub proof fn law_stream_ends_with_collected_answer<
    F: Fn(&str) -> (Option<String>, String),
    G: Fn(&Vec<Json>) -> i32,
>(
    received: Vec<Frame>,
    model: Seq<char>,
    max_output_tokens: i32,
    thinking_enabled: bool,
    tool_name_map: Map<Seq<char>, String>,
    input_tokens: i32,
    response_id: Seq<char>,
    created_at: i64,
    sequence_number: u64,
    stream_ids: Seq<Seq<char>>,
    collected_ids: Seq<Seq<char>>,
    extract: F,
    estimate: G,
    after: ContextView,
    sent: Seq<Seq<char>>,
    content: Seq<char>,
    item_id: Seq<char>,
    output_tokens: i32,
    context: ContextView,
    collected: CollectedView,
    collected_item_id: Seq<char>,
)
    requires
        extracts_by_text(extract),
        estimates_by_content(estimate),
        ({
            let request = new_context(
                ""@,
                model,
                max_output_tokens,
                thinking_enabled,
                tool_name_map,
                input_tokens,
                0,
            );
            let opened = ContextView { response_id, created_at, sequence_number, ..request };
            &&& (after, None::<Seq<char>>) == frames_processed(
                opened,
                received@,
                stream_ids,
                received@.len(),
            )
            &&& ends_with(after, extract, estimate, sent, content, item_id, output_tokens)
            &&& answer_gathered(request, Answer::Frames(received), collected_ids) == Ok::<
                ContextView,
                Seq<char>,
            >(context)
            &&& collects(context, extract, estimate, collected, collected_item_id)
        }),
    ensures
        after.calls.done.len() == collected.calls.len(),
        sent.len() > 0,
        ({
            let answer = under_ids(
                collected,
                item_id,
                after.calls.done.map_values(|call: CallView| call.item_id),
                created_at,
            );
            sent.last() == frame(
                (sequence_number + sent.len()) as u64,
                response_notice(
                    if collected.incomplete_reason is Some {
                        "response.incomplete"@
                    } else {
                        "response.completed"@
                    },
                    response_object(response_id, model, answer, output_items(answer), None),
                ),
            )
        }),
{
    law_stream_fails_as_collection_does(
        received,
        model,
        max_output_tokens,
        thinking_enabled,
        tool_name_map,
        input_tokens,
        response_id,
        created_at,
        sequence_number,
        stream_ids,
        collected_ids,
    );
    let request = new_context(
        ""@,
        model,
        max_output_tokens,
        thinking_enabled,
        tool_name_map,
        input_tokens,
        0,
    );
    let opened = ContextView { response_id, created_at, sequence_number, ..request };
    lemma_frames_keep(opened, received@, stream_ids, received@.len());
    if thinking_enabled {
        lemma_stripped_is_one(extract, after.text, content, collected.text);
    }
    assert(token_blocks(content, after.calls.done) =~= token_blocks(
        collected.text,
        context.calls.done,
    ));
    assert(output_tokens == collected.output_tokens);
    let answer = under_ids(
        collected,
        item_id,
        after.calls.done.map_values(|call: CallView| call.item_id),
        created_at,
    );
    assert(answer.calls =~= after.calls.done);
    assert(answer == gathered(after, content, message_id(content, item_id), output_tokens));
}

/// What comes while an answer is passed on.
#[derive(Debug)]
pub enum Arrival {
    /// Nothing, for long enough that the client has to be told.
    Silence,
    /// A piece of the backend's stream, and the frames in it.
    Piece(Vec<Frame>),
    /// The stream could not be read on.
    ReadError(String),
    /// The stream has ended.
    End,
}

/// What is sent on, and whether that was all.
#[derive(Debug)]
pub struct Step {
    pub output: Vec<String>,
    pub finished: bool,
}

/// What a piece of the backend's stream leads to: nothing is sent before the end, unless
/// the answer fails.
pub open spec fn piece_outcome(
    context: ContextView,
    received: Seq<Frame>,
    item_ids: Seq<Seq<char>>,
) -> (ContextView, Seq<Seq<char>>, bool) {
    let (after, failure) = frames_processed(context, received, item_ids, received.len());
    match failure {
        None => (after, Seq::empty(), false),
        Some(message) => (
            ContextView { sequence_number: (after.sequence_number + 1) as u64, ..after },
            frames(after.sequence_number, failed_notices(after, message)),
            true,
        ),
    }
}

/// Takes a piece of the backend's stream, the calls that it completes under `item_ids`.
pub fn take_piece_with(
    context: &mut ResponseStreamContext,
    received: &Vec<Frame>,
    item_ids: &Vec<String>,
) -> (r: Step)
    requires
        old(context).sequence_number < u64::MAX,
        item_ids@.len() == received@.len(),
    ensures
        (final(context)@, texts(r.output@), r.finished) == piece_outcome(
            old(context)@,
            received@,
            texts(item_ids@),
        ),
{
    match context.process_frames_with(received, item_ids) {
        Ok(_) => {
            let output: Vec<String> = Vec::new();
            assert(texts(output@) =~= Seq::<Seq<char>>::empty());
            Step { output, finished: false }
        },
        Err(error) => {
            let output = context.failed_events(error.as_str());
            Step { output, finished: true }
        },
    }
}

/// Takes what comes while an answer is passed on.
pub fn take<F: Fn(&str) -> (Option<String>, String), G: Fn(&Vec<Json>) -> i32>(
    context: &mut ResponseStreamContext,
    arrival: &Arrival,
    extract: &F,
    estimate: &G,
) -> (r: Step)
    requires
        old(context).numbers_last(),
        extracts(*extract),
        estimates(*estimate, old(context).input_tokens),
    ensures
        match *arrival {
            Arrival::Silence => {
                &&& texts(r.output@) == seq![": keep-alive\n\n"@]
                &&& !r.finished
                &&& *final(context) == *old(context)
            },
            Arrival::Piece(received) => exists|item_ids: Seq<Seq<char>>|
                are_call_ids(item_ids, received@) && (
                    final(context)@,
                    texts(r.output@),
                    r.finished,
                ) == #[trigger] piece_outcome(old(context)@, received@, item_ids),
            Arrival::ReadError(error) => {
                &&& texts(r.output@) == frames(
                    old(context).sequence_number,
                    failed_notices(
                        old(context)@,
                        "Failed to read upstream response: "@ + error@,
                    ),
                )
                &&& r.finished
                &&& *final(context) == (ResponseStreamContext {
                    sequence_number: (old(context).sequence_number + 1) as u64,
                    ..*old(context)
                })
            },
            Arrival::End => {
                &&& r.finished
                &&& final(context)@ == (ContextView {
                    text: if calls_complete(old(context)@) {
                        Seq::empty()
                    } else {
                        old(context)@.text
                    },
                    sequence_number: (old(context).sequence_number + r.output@.len()) as u64,
                    ..old(context)@
                })
                &&& !calls_complete(old(context)@) ==> texts(r.output@) == frames(
                    old(context).sequence_number,
                    failed_notices(old(context)@, unfinished_message(old(context)@)),
                )
                &&& calls_complete(old(context)@) ==> exists|
                    content: Seq<char>,
                    item_id: Seq<char>,
                    output_tokens: i32,
                | #[trigger]
                    ends_with(
                        old(context)@,
                        *extract,
                        *estimate,
                        texts(r.output@),
                        content,
                        item_id,
                        output_tokens,
                    )
            },
        },
{
    match arrival {
        Arrival::Silence => {
            let output = vec![keep_alive_comment()];
            assert(texts(output@) =~= seq![": keep-alive\n\n"@]);
            Step { output, finished: false }
        },
        Arrival::Piece(received) => {
            let item_ids = call_ids_for(received);
            take_piece_with(context, received, &item_ids)
        },
        Arrival::ReadError(error) => {
            let message = join2("Failed to read upstream response: ", error.as_str());
            Step { output: context.failed_events(message.as_str()), finished: true }
        },
        Arrival::End => {
            let output = context.finish_events(extract, estimate);
            Step { output, finished: true }
        },
    }
}

} // verus!
