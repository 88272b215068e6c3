//! How an answer is gathered and sent.

use vstd::prelude::*;

use crate::amount::Amount;
use crate::anthropic::collected::{
    build_response_body, calls_view, make_token_blocks, total_fits, CallView, CollectedCall,
    CollectedResponse,
};
use crate::anthropic::events::{
    process_piece, Event, Frame, ToolUseEvent,
};
use crate::anthropic::stream::{
    are_call_ids, calls_complete, calls_notices, completes_call, ends_with, estimates, failed_notices,
    finish_notices, frame, frame_processed, frames, frames_processed, fresh_item_id, gathered,
    initial_notices, is_item_id, lemma_failure_stays, lemma_finish_notices_len, make_call_notices, make_frame,
    make_response_notice, make_text_notices, message_id, new_context, no_notices, notices_view,
    processed, progress_object, put, unfinished_message, ContextView, Notice,
    ResponseStreamContext,
};
use crate::anthropic::thinking::{extracts, remove_complete_thinking_blocks};
use crate::clock::{now, LAST_SECOND};
use crate::json::{
    array, items_view, maybe_json, signed, text, to_text, unsigned, Fields, Json, JsonView,
};
use crate::order::ascending_texts;
use crate::table::Table;
use crate::text::{join, join2, join3, maybe_text, same, texts};

verus! {

impl ResponseStreamContext {
    /// The numbers of frames last until the answer has ended.
    pub open spec fn numbers_last(self) -> bool {
        self.sequence_number + 4 * self.calls@.len() + 8 <= u64::MAX
    }

    /// The state of an answer of which nothing has been gathered, made at a moment.
    pub fn new_at(
        response_id: String,
        model: String,
        max_output_tokens: i32,
        thinking_enabled: bool,
        tool_name_map: Table<String>,
        input_tokens: i32,
        created_at: i64,
    ) -> (r: ResponseStreamContext)
        ensures
            r@ == new_context(
                response_id@,
                model@,
                max_output_tokens,
                thinking_enabled,
                tool_name_map@,
                input_tokens,
                created_at,
            ),
    {
        let r = ResponseStreamContext {
            response_id,
            model,
            max_output_tokens,
            thinking_enabled,
            tool_name_map,
            text: String::new(),
            calls: Vec::new(),
            call_buffers: Table::new(),
            input_tokens,
            incomplete_reason: None,
            created_at,
            sequence_number: 0,
        };
        assert(r@.calls.open =~= Map::empty());
        assert(r@.calls.done =~= Seq::<CallView>::empty());
        assert(r@.text =~= Seq::<char>::empty());
        r
    }

    /// The state of an answer of which nothing has been gathered, made now.
    pub fn new(
        response_id: String,
        model: String,
        max_output_tokens: i32,
        thinking_enabled: bool,
        tool_name_map: Table<String>,
        input_tokens: i32,
    ) -> (r: ResponseStreamContext)
        ensures
            0 <= r.created_at <= LAST_SECOND,
            r@ == new_context(
                response_id@,
                model@,
                max_output_tokens,
                thinking_enabled,
                tool_name_map@,
                input_tokens,
                r.created_at,
            ),
    {
        Self::new_at(
            response_id,
            model,
            max_output_tokens,
            thinking_enabled,
            tool_name_map,
            input_tokens,
            now().secs,
        )
    }

    /// The frame for a notice, under the next number.
    pub fn event(&mut self, announced: Notice) -> (r: String)
        requires
            old(self).sequence_number < u64::MAX,
        ensures
            r@ == frame((old(self).sequence_number + 1) as u64, announced@),
            *final(self) == (ResponseStreamContext {
                sequence_number: (old(self).sequence_number + 1) as u64,
                ..*old(self)
            }),
    {
        self.sequence_number = self.sequence_number + 1;
        let data = announced.data.set("type", text(announced.kind.as_str())).set(
            "sequence_number",
            unsigned(self.sequence_number),
        ).into_object();
        make_frame(announced.kind.as_str(), to_text(&data))
    }

    /// The frames for a row of notices, under the next numbers.
    fn send(&mut self, announced: Vec<Notice>) -> (r: Vec<String>)
        requires
            old(self).sequence_number + announced@.len() <= u64::MAX,
        ensures
            texts(r@) == frames(old(self).sequence_number, notices_view(announced@)),
            *final(self) == (ResponseStreamContext {
                sequence_number: (old(self).sequence_number + announced@.len()) as u64,
                ..*old(self)
            }),
    {
        let ghost start = *self;
        let ghost all = notices_view(announced@);
        let mut sent: Vec<String> = Vec::new();
        assert(texts(sent@) =~= frames(start.sequence_number, all.take(0)));
        for next in it: announced
            invariant
                all == notices_view(it.seq()),
                start.sequence_number + all.len() <= u64::MAX,
                *self == (ResponseStreamContext {
                    sequence_number: (start.sequence_number + it.index()) as u64,
                    ..start
                }),
                texts(sent@) == frames(start.sequence_number, all.take(it.index() as int)),
        {
            let ghost i = it.index() as int;
            let ghost before = texts(sent@);
            assert(next@ == all[i]);
            let sent_next = self.event(next);
            sent.push(sent_next);
            assert(texts(sent@) =~= before.push(sent_next@));
            assert(frames(start.sequence_number, all.take(i + 1)) =~= frames(
                start.sequence_number,
                all.take(i),
            ).push(frame((start.sequence_number + i + 1) as u64, all[i])));
        }
        assert(all.take(all.len() as int) =~= all);
        sent
    }

    /// The response object of an answer that is not complete, or has failed.
    pub fn snapshot(&self, output: Vec<Json>, error: Option<Json>) -> (r: Json)
        ensures
            r@ == progress_object(self@, items_view(output@), maybe_json(error)),
    {
        let status = if error.is_some() {
            "failed"
        } else {
            "in_progress"
        };
        let error = match error {
            Some(error) => error,
            None => Json::Null,
        };
        Fields::new().with("id", text(self.response_id.as_str())).with(
            "object",
            text("response"),
        ).with("created_at", signed(self.created_at)).with("status", text(status)).with(
            "background",
            Json::Bool(false),
        ).with("error", error).with("incomplete_details", Json::Null).with(
            "max_output_tokens",
            signed(self.max_output_tokens as i64),
        ).with("model", text(self.model.as_str())).with("output", array(output)).with(
            "parallel_tool_calls",
            Json::Bool(true),
        ).with("previous_response_id", Json::Null).with("store", Json::Bool(false)).into_object()
    }

    /// The frames that open an answer.
    pub fn initial_events(&mut self) -> (r: Vec<String>)
        requires
            old(self).sequence_number + 2 <= u64::MAX,
        ensures
            texts(r@) == frames(old(self).sequence_number, initial_notices(old(self)@)),
            *final(self) == (ResponseStreamContext {
                sequence_number: (old(self).sequence_number + 2) as u64,
                ..*old(self)
            }),
    {
        let nothing: Vec<Json> = Vec::new();
        assert(items_view(nothing@) =~= Seq::<JsonView>::empty());
        let first = self.snapshot(nothing, None);
        let second = first.duplicate();
        let mut opening = no_notices();
        put(&mut opening, make_response_notice("response.created", first));
        put(&mut opening, make_response_notice("response.in_progress", second));
        assert(opening@.len() == notices_view(opening@).len());
        self.send(opening)
    }

    /// The frame that ends a failed answer.
    pub fn failed_events(&mut self, message: &str) -> (r: Vec<String>)
        requires
            old(self).sequence_number < u64::MAX,
        ensures
            texts(r@) == frames(old(self).sequence_number, failed_notices(old(self)@, message@)),
            *final(self) == (ResponseStreamContext {
                sequence_number: (old(self).sequence_number + 1) as u64,
                ..*old(self)
            }),
    {
        let error = Fields::new().with("code", text("upstream_error")).with(
            "message",
            text(message),
        ).into_object();
        let nothing: Vec<Json> = Vec::new();
        assert(items_view(nothing@) =~= Seq::<JsonView>::empty());
        let response = self.snapshot(nothing, Some(error));
        let mut end = no_notices();
        put(&mut end, make_response_notice("response.failed", response));
        assert(end@.len() == notices_view(end@).len());
        self.send(end)
    }

    /// Puts a piece of a tool call behind the call's arguments; the last piece completes
    /// the call under `item_id`.
    fn process_tool(&mut self, tool: &ToolUseEvent, item_id: &str)
        ensures
            processed(old(self)@, Event::ToolUse(*tool), item_id@) == Ok::<ContextView, Seq<char>>(
                final(self)@,
            ),
    {
        process_piece(
            &mut self.call_buffers,
            &mut self.calls,
            &self.tool_name_map,
            tool,
            item_id,
        );
    }

    /// Gathers an event, a call that it completes under `item_id`; or says why the answer
    /// fails.
    pub fn process_event_with(&mut self, event: &Event, item_id: &str) -> (r: Result<(), String>)
        ensures
            match processed(old(self)@, *event, item_id@) {
                Ok(after) => r is Ok && final(self)@ == after,
                Err(error) => r matches Err(found) && found@ == error && *final(self) == *old(
                    self,
                ),
            },
    {
        match event {
            Event::AssistantResponse { content } => {
                self.text.append(content.as_str());
            },
            Event::ToolUse(tool) => {
                self.process_tool(tool, item_id);
            },
            Event::ContextUsage { percentage, input_tokens } => {
                self.input_tokens = *input_tokens;
                if percentage.at_least(Amount::hundred()) {
                    self.incomplete_reason = Some("context_window_exceeded".to_owned());
                }
            },
            Event::Exception { exception_type, message } => {
                if same(exception_type.as_str(), "ContentLengthExceededException") {
                    self.incomplete_reason = Some("max_output_tokens".to_owned());
                } else {
                    let mut error = join3("Upstream exception ", exception_type.as_str(), ": ");
                    error.append(message.as_str());
                    return Err(error);
                }
            },
            Event::Error { error_code, error_message } => {
                let mut error = join3("Upstream error ", error_code.as_str(), ": ");
                error.append(error_message.as_str());
                return Err(error);
            },
            Event::Other => {},
        }
        Ok(())
    }

    /// Gathers an event; or says why the answer fails.
    pub fn process_event(&mut self, event: &Event) -> (r: Result<(), String>)
        ensures
            exists|item_id: Seq<char>|
                (completes_call(Frame::Event(*event)) ==> is_item_id(item_id, "fc_"@)) && match #[trigger] processed(
                    old(self)@,
                    *event,
                    item_id,
                ) {
                    Ok(after) => r is Ok && final(self)@ == after,
                    Err(error) => r matches Err(found) && found@ == error && *final(self) == *old(
                        self,
                    ),
                },
    {
        let item_id = call_id_for(event);
        self.process_event_with(event, item_id.as_str())
    }

    /// Gathers a frame; or says why the answer fails.
    fn process_frame_with(&mut self, received: &Frame, item_id: &str) -> (r: Result<(), String>)
        ensures
            match frame_processed(old(self)@, *received, item_id@) {
                Ok(after) => r is Ok && final(self)@ == after,
                Err(error) => r matches Err(found) && found@ == error && *final(self) == *old(
                    self,
                ),
            },
    {
        match received {
            Frame::Event(event) => self.process_event_with(event, item_id),
            Frame::DecodeFailed(error) => Err(
                join2("Failed to decode upstream event: ", error.as_str()),
            ),
            Frame::Invalid(error) => Err(join2("Invalid upstream event: ", error.as_str())),
        }
    }

    /// Gathers a row of frames, the calls that they complete under `item_ids`, up to the
    /// first by which the answer fails; and says why it does.
    pub fn process_frames_with(&mut self, received: &Vec<Frame>, item_ids: &Vec<String>) -> (r:
        Result<(), String>)
        requires
            item_ids@.len() == received@.len(),
        ensures
            (final(self)@, failure_of(r)) == frames_processed(
                old(self)@,
                received@,
                texts(item_ids@),
                received@.len(),
            ),
            final(self).sequence_number == old(self).sequence_number,
    {
        let ghost start = self@;
        let ghost ids = texts(item_ids@);
        for i in 0..received.len()
            invariant
                item_ids@.len() == received@.len(),
                ids == texts(item_ids@),
                start == old(self)@,
                (self@, None::<Seq<char>>) == frames_processed(start, received@, ids, i as nat),
                self.sequence_number == old(self).sequence_number,
        {
            assert(ids[i as int] == item_ids@[i as int]@);
            if let Err(error) = self.process_frame_with(&received[i], item_ids[i].as_str()) {
                proof {
                    lemma_failure_stays(
                        start,
                        received@,
                        ids,
                        (i + 1) as nat,
                        received@.len(),
                    );
                }
                return Err(error);
            }
        }
        Ok(())
    }

    /// The answer that has been gathered, its text without what was thought, and its cost.
    pub fn collected_with(
        &self,
        content: String,
        text_item_id: Option<String>,
        output_tokens: i32,
    ) -> (r: CollectedResponse)
        ensures
            r@ == gathered(self@, content@, maybe_text(text_item_id), output_tokens),
    {
        let incomplete_reason = match &self.incomplete_reason {
            Some(reason) => Some(reason.clone()),
            None => if output_tokens >= self.max_output_tokens {
                Some("max_output_tokens".to_owned())
            } else {
                None
            },
        };
        let calls = copy_calls(&self.calls);
        CollectedResponse {
            text: content,
            text_item_id,
            calls,
            input_tokens: self.input_tokens,
            output_tokens,
            max_output_tokens: self.max_output_tokens,
            incomplete_reason,
            created_at: self.created_at,
        }
    }

    /// Why the answer fails whose tool calls are not all complete, where it does.
    pub fn unfinished(&self) -> (r: Option<String>)
        ensures
            r is Some == !calls_complete(self@),
            r matches Some(message) ==> message@ == unfinished_message(self@),
    {
        assert(self@.calls.open.dom() =~= self.call_buffers@.dom());
        if self.call_buffers.is_empty() {
            return None;
        }
        let ids = ascending_texts(&self.call_buffers.names());
        Some(
            join2(
                "Upstream stream ended before tool call(s) completed: ",
                join(&ids, ", ").as_str(),
            ),
        )
    }

    /// The frames that end an answer whose calls are complete: its text without what was
    /// thought, its message under `item_id`, and its cost are given.
    pub fn finish_events_with(&mut self, content: String, item_id: &str, output_tokens: i32) -> (r:
        Vec<String>)
        requires
            old(self).numbers_last(),
            total_fits(old(self).input_tokens, output_tokens),
        ensures
            texts(r@) == frames(
                old(self).sequence_number,
                finish_notices(old(self)@, content@, item_id@, output_tokens),
            ),
            final(self)@ == (ContextView {
                text: Seq::empty(),
                sequence_number: (old(self).sequence_number + r@.len()) as u64,
                ..old(self)@
            }),
    {
        let ghost start = self@;
        let ghost done = self@.calls.done;
        let mut ending = no_notices();
        let mut index: i64 = 0;
        let text_item_id = if content.as_str().is_empty() {
            None
        } else {
            ending = make_text_notices(item_id, content.as_str(), 0);
            index = 1;
            Some(item_id.to_owned())
        };
        let ghost first = index;
        let ghost message = notices_view(ending@);
        assert(message + calls_notices(done, first, 0) =~= message);
        for i in 0..self.calls.len()
            invariant
                0 <= first <= 1,
                index == first + i,
                done == calls_view(self.calls@),
                self.numbers_last(),
                notices_view(ending@) == message + calls_notices(done, first, i as nat),
        {
            let ghost before = ending@;
            let mut next = make_call_notices(&self.calls[i], index);
            let ghost added = next@;
            ending.append(&mut next);
            assert(done[i as int] == self.calls@[i as int]@);
            assert(notices_view(ending@) =~= notices_view(before) + notices_view(added));
            assert(notices_view(ending@) =~= message + calls_notices(done, first, (i + 1) as nat));
            index = index + 1;
        }
        let ghost content_view = content@;
        let answer = self.collected_with(content, text_item_id, output_tokens);
        let response = build_response_body(self.response_id.as_str(), self.model.as_str(), &answer);
        let terminal = if answer.incomplete_reason.is_some() {
            "response.incomplete"
        } else {
            "response.completed"
        };
        put(&mut ending, make_response_notice(terminal, response));
        proof {
            lemma_finish_notices_len(start, content_view, item_id@, output_tokens);
            assert(maybe_text(answer.text_item_id) == message_id(content_view, item_id@));
            assert(notices_view(ending@) == finish_notices(
                start,
                content_view,
                item_id@,
                output_tokens,
            ));
            assert(ending@.len() == notices_view(ending@).len());
            assert(done.len() == self.calls@.len());
        }
        self.text = String::new();
        let sent = self.send(ending);
        assert(sent@.len() == texts(sent@).len());
        sent
    }

    /// The frames that end an answer: as failed where a call is not complete; else its
    /// text is freed of what was thought, where thinking is enabled, and counted.
    pub fn finish_events<
        F: Fn(&str) -> (Option<String>, String),
        G: Fn(&Vec<Json>) -> i32,
    >(&mut self, extract: &F, estimate: &G) -> (r: Vec<String>)
        requires
            old(self).numbers_last(),
            extracts(*extract),
            estimates(*estimate, old(self).input_tokens),
        ensures
            !calls_complete(old(self)@) ==> texts(r@) == frames(
                old(self).sequence_number,
                failed_notices(old(self)@, unfinished_message(old(self)@)),
            ),
            calls_complete(old(self)@) ==> exists|
                content: Seq<char>,
                item_id: Seq<char>,
                output_tokens: i32,
            | #[trigger]
                ends_with(
                    old(self)@,
                    *extract,
                    *estimate,
                    texts(r@),
                    content,
                    item_id,
                    output_tokens,
                ),
            final(self)@ == (ContextView {
                text: if calls_complete(old(self)@) {
                    Seq::empty()
                } else {
                    old(self)@.text
                },
                sequence_number: (old(self).sequence_number + r@.len()) as u64,
                ..old(self)@
            }),
    {
        if let Some(message) = self.unfinished() {
            let sent = self.failed_events(message.as_str());
            assert(sent@.len() == texts(sent@).len());
            return sent;
        }
        let content = if self.thinking_enabled {
            remove_complete_thinking_blocks(self.text.clone(), extract)
        } else {
            self.text.clone()
        };
        let item_id = if content.as_str().is_empty() {
            String::new()
        } else {
            fresh_item_id("msg_")
        };
        let blocks = make_token_blocks(content.as_str(), &self.calls);
        let output_tokens: i32 = estimate(&blocks);
        let ghost spoken = content@;
        let sent = self.finish_events_with(content, item_id.as_str(), output_tokens);
        assert(ends_with(
            old(self)@,
            *extract,
            *estimate,
            texts(sent@),
            spoken,
            item_id@,
            output_tokens,
        ));
        sent
    }
}

/// The reason of a failure, where there is one.
pub open spec fn failure_of(r: Result<(), String>) -> Option<Seq<char>> {
    match r {
        Ok(_) => None,
        Err(error) => Some(error@),
    }
}

/// An id for the call that an event completes, where it completes one.
fn call_id_for(event: &Event) -> (r: String)
    ensures
        completes_call(Frame::Event(*event)) ==> is_item_id(r@, "fc_"@),
{
    match event {
        Event::ToolUse(tool) => if tool.stop {
            fresh_item_id("fc_")
        } else {
            String::new()
        },
        _ => String::new(),
    }
}

/// Ids for the calls that a row of frames completes.
pub(crate) fn call_ids_for(received: &Vec<Frame>) -> (r: Vec<String>)
    ensures
        r@.len() == received@.len(),
        are_call_ids(texts(r@), received@),
{
    let mut ids: Vec<String> = Vec::new();
    for i in 0..received.len()
        invariant
            ids@.len() == i,
            forall|j: int|
                0 <= j < i && completes_call(#[trigger] received@[j]) ==> is_item_id(
                    ids@[j]@,
                    "fc_"@,
                ),
    {
        let id = match &received[i] {
            Frame::Event(event) => call_id_for(event),
            _ => String::new(),
        };
        ids.push(id);
    }
    ids
}

/// A copy of a row of calls.
fn copy_calls(calls: &Vec<CollectedCall>) -> (r: Vec<CollectedCall>)
    ensures
        r@ == calls@,
{
    let mut r: Vec<CollectedCall> = Vec::new();
    for i in 0..calls.len()
        invariant
            r@ == calls@.take(i as int),
    {
        r.push(calls[i].clone());
        assert(r@ =~= calls@.take(i + 1));
    }
    assert(calls@.take(calls@.len() as int) =~= calls@);
    r
}

} // verus!
