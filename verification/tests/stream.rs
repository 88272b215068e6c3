use kiro_relay::amount::Amount;
use kiro_relay::anthropic::collected::{
    build_response_body, make_call_block, make_token_blocks, CollectedCall, CollectedResponse,
};
use kiro_relay::anthropic::events::{Event, Frame, ToolUseEvent};
use kiro_relay::anthropic::exchange::{
    collect_response, gather_with, take, take_piece_with, Answer, Arrival,
};
use kiro_relay::anthropic::stream::{
    fresh_response_id, keep_alive_comment, make_frame, ResponseStreamContext,
};
use kiro_relay::anthropic::thinking::remove_complete_thinking_blocks;
use kiro_relay::json::{from_value, parse, to_text, to_value, Json};
use kiro_relay::table::Table;
use serde_json::Value;

fn sample_collected() -> CollectedResponse {
    CollectedResponse {
        text: "answer".to_string(),
        text_item_id: Some("msg_1".to_string()),
        calls: vec![call("fc_1", "call_1", "lookup", "{\"q\":\"x\"}")],
        input_tokens: 12,
        output_tokens: 7,
        max_output_tokens: 4096,
        incomplete_reason: None,
        created_at: 1_700_000_000,
    }
}

fn call(item_id: &str, call_id: &str, name: &str, arguments: &str) -> CollectedCall {
    CollectedCall {
        item_id: item_id.to_string(),
        call_id: call_id.to_string(),
        name: name.to_string(),
        arguments: arguments.to_string(),
    }
}

#[test]
fn builds_non_stream_response_body() {
    let body = to_value(&build_response_body("resp_1", "opus-4-8", &sample_collected()));
    assert_eq!(body["object"], "response");
    assert_eq!(body["status"], "completed");
    assert_eq!(body["output"][0]["type"], "message");
    assert_eq!(body["output"][0]["content"][0]["text"], "answer");
    assert_eq!(body["output"][1]["type"], "function_call");
    assert_eq!(body["output"][1]["call_id"], "call_1");
    assert_eq!(body["usage"]["total_tokens"], 19);
}

#[test]
fn response_body_is_exact() {
    let mut answer = sample_collected();
    answer.calls.clear();
    answer.incomplete_reason = Some("max_output_tokens".to_string());
    let body = to_value(&build_response_body("resp_1", "m", &answer));
    let expected: Value = serde_json::from_str(
        r#"{
            "id": "resp_1", "object": "response", "created_at": 1700000000,
            "status": "incomplete", "background": false, "error": null,
            "incomplete_details": {"reason": "max_output_tokens"}, "instructions": null,
            "max_output_tokens": 4096, "model": "m",
            "output": [{"id": "msg_1", "type": "message", "status": "completed", "role": "assistant",
                "content": [{"type": "output_text", "text": "answer", "annotations": [], "logprobs": []}]}],
            "parallel_tool_calls": true, "previous_response_id": null, "store": false,
            "usage": {"input_tokens": 12, "input_tokens_details": {"cached_tokens": 0},
                "output_tokens": 7, "output_tokens_details": {"reasoning_tokens": 0},
                "total_tokens": 19}
        }"#,
    )
    .unwrap();
    assert_eq!(body, expected);
}

fn context_with(thinking: bool, names: Table<String>) -> ResponseStreamContext {
    ResponseStreamContext::new(
        "resp_1".to_string(),
        "opus-4-8".to_string(),
        4096,
        thinking,
        names,
        10,
    )
}

fn context() -> ResponseStreamContext {
    context_with(false, Table::new())
}

fn whole(text: &str) -> (Option<String>, String) {
    (None, text.to_string())
}

/// Takes the first `<t>..</t>` out of a text.
fn cut(text: &str) -> (Option<String>, String) {
    match (text.find("<t>"), text.find("</t>")) {
        (Some(a), Some(b)) if a < b => (
            Some(text[a + 3..b].to_string()),
            format!("{}{}", &text[..a], &text[b + 4..]),
        ),
        _ => (None, text.to_string()),
    }
}

fn few(_: &Vec<Json>) -> i32 {
    5
}

fn event_types(chunks: &[String]) -> Vec<String> {
    chunks
        .iter()
        .map(|text| {
            text.lines()
                .find_map(|line| line.strip_prefix("event: "))
                .unwrap_or_default()
                .to_string()
        })
        .collect()
}

fn data(chunk: &str) -> Value {
    let line = chunk.lines().find_map(|line| line.strip_prefix("data: ")).unwrap();
    serde_json::from_str(line).unwrap()
}

#[test]
fn stream_emits_ordered_events_with_sequence() {
    let mut ctx = context();
    let mut chunks = ctx.initial_events();
    ctx.text.push_str("hi there");
    chunks.extend(ctx.finish_events(&whole, &few));

    assert_eq!(
        event_types(&chunks),
        vec![
            "response.created",
            "response.in_progress",
            "response.output_item.added",
            "response.content_part.added",
            "response.output_text.delta",
            "response.output_text.done",
            "response.content_part.done",
            "response.output_item.done",
            "response.completed",
        ]
    );

    let mut previous = 0;
    for chunk in &chunks {
        let seq = data(chunk)["sequence_number"].as_u64().unwrap();
        assert_eq!(seq, previous + 1);
        previous = seq;
    }
    assert_eq!(data(&chunks[4])["delta"], "hi there");
    assert_eq!(data(&chunks[4])["type"], "response.output_text.delta");
    assert!(ctx.text.is_empty());
}

#[test]
fn stream_emits_function_call_events() {
    let mut ctx = context();
    let _ = ctx.initial_events();
    ctx.calls.push(call("fc_1", "call_1", "lookup", "{}"));
    let chunks = ctx.finish_events(&whole, &few);
    let types = event_types(&chunks);
    assert!(types.contains(&"response.function_call_arguments.delta".to_string()));
    assert!(types.contains(&"response.function_call_arguments.done".to_string()));
    assert_eq!(types.last().unwrap(), "response.completed");
}

#[test]
fn stream_failure_emits_response_failed() {
    let mut ctx = context();
    let chunks = ctx.failed_events("boom");
    assert_eq!(event_types(&chunks), vec!["response.failed"]);
    let sent = data(&chunks[0]);
    assert_eq!(sent["response"]["status"], "failed");
    assert_eq!(sent["response"]["error"]["code"], "upstream_error");
    assert_eq!(sent["response"]["error"]["message"], "boom");
}

#[test]
fn incomplete_reason_switches_terminal_event() {
    let mut ctx = context();
    let _ = ctx.initial_events();
    ctx.incomplete_reason = Some("context_window_exceeded".to_string());
    ctx.text.push_str("partial");
    let chunks = ctx.finish_events(&whole, &few);
    assert_eq!(event_types(&chunks).last().unwrap(), "response.incomplete");
}

#[test]
fn too_many_tokens_make_an_answer_incomplete() {
    let mut ctx = context();
    ctx.text.push_str("x");
    let chunks = ctx.finish_events_with("x".to_string(), "msg_9", 4096);
    let last = data(chunks.last().unwrap());
    assert_eq!(last["type"], "response.incomplete");
    assert_eq!(last["response"]["incomplete_details"]["reason"], "max_output_tokens");
    assert_eq!(last["response"]["usage"]["total_tokens"], 4106);
}

#[test]
fn call_items_are_counted_behind_the_message() {
    let mut ctx = context();
    ctx.calls.push(call("fc_1", "c1", "a", "{\"k\":1}"));
    ctx.calls.push(call("fc_2", "c2", "b", ""));
    let chunks = ctx.finish_events_with("text".to_string(), "msg_1", 3);
    assert_eq!(chunks.len(), 15);
    let first = data(&chunks[6]);
    assert_eq!(first["output_index"], 1);
    assert_eq!(first["item"]["arguments"], "");
    assert_eq!(first["item"]["status"], "in_progress");
    assert_eq!(data(&chunks[7])["delta"], "{\"k\":1}");
    assert_eq!(data(&chunks[8])["arguments"], "{\"k\":1}");
    assert_eq!(data(&chunks[9])["item"]["status"], "completed");
    assert_eq!(data(&chunks[10])["output_index"], 2);
    assert_eq!(data(&chunks[10])["item"]["id"], "fc_2");
    let mut ctx = context();
    ctx.calls.push(call("fc_1", "c1", "a", "{}"));
    let chunks = ctx.finish_events_with(String::new(), "unused", 3);
    assert_eq!(chunks.len(), 5);
    assert_eq!(data(&chunks[0])["output_index"], 0);
    assert_eq!(data(&chunks[4])["response"]["output"].as_array().unwrap().len(), 1);
}

fn piece(id: &str, name: &str, input: &str, stop: bool) -> Event {
    Event::ToolUse(ToolUseEvent {
        name: name.to_string(),
        tool_use_id: id.to_string(),
        input: input.to_string(),
        stop,
    })
}

fn said(text: &str) -> Event {
    Event::AssistantResponse { content: text.to_string() }
}

fn usage(percentage: f64, input_tokens: i32) -> Event {
    Event::ContextUsage { percentage: Amount { bits: percentage.to_bits() }, input_tokens }
}

#[test]
fn pieces_of_calls_are_put_together() {
    let mut names = Table::new();
    names.insert("short".to_string(), "a_very_long_name".to_string());
    let mut ctx = context_with(false, names);
    for event in [
        piece("t1", "short", "{\"a\"", false),
        piece("t2", "other", "{}", true),
        piece("t1", "ignored", ":1}", false),
        said("one "),
        piece("t1", "ignored", "", true),
        said("two"),
        Event::Other,
    ] {
        ctx.process_event(&event).unwrap();
    }
    assert_eq!(ctx.text, "one two");
    assert_eq!(ctx.calls.len(), 2);
    assert_eq!((ctx.calls[0].call_id.as_str(), ctx.calls[0].name.as_str()), ("t2", "other"));
    assert_eq!(ctx.calls[1].call_id, "t1");
    assert_eq!(ctx.calls[1].name, "a_very_long_name");
    assert_eq!(ctx.calls[1].arguments, "{\"a\":1}");
    assert!(ctx.calls[0].item_id.starts_with("fc_"));
    assert_eq!(ctx.calls[0].item_id.len(), 35);
    assert_ne!(ctx.calls[0].item_id, ctx.calls[1].item_id);
    assert!(ctx.call_buffers.is_empty());
}

#[test]
fn a_call_in_pieces_is_the_call_in_one() {
    let mut a = context();
    a.process_event_with(&piece("t", "n", "ab", false), "fc_1").unwrap();
    a.process_event_with(&piece("t", "x", "cd", true), "fc_1").unwrap();
    let mut b = context();
    b.process_event_with(&piece("t", "n", "abcd", true), "fc_1").unwrap();
    assert_eq!(format!("{:?}", a.calls), format!("{:?}", b.calls));
}

#[test]
fn context_usage_is_taken_over() {
    let mut ctx = context();
    ctx.process_event(&usage(99.9, 123)).unwrap();
    assert_eq!((ctx.input_tokens, ctx.incomplete_reason.clone()), (123, None));
    ctx.process_event(&usage(100.0, 200)).unwrap();
    assert_eq!(ctx.input_tokens, 200);
    assert_eq!(ctx.incomplete_reason.as_deref(), Some("context_window_exceeded"));
}

#[test]
fn exceptions_and_errors_fail_an_answer() {
    let mut ctx = context();
    let exception = |kind: &str| Event::Exception {
        exception_type: kind.to_string(),
        message: "m".to_string(),
    };
    ctx.process_event(&exception("ContentLengthExceededException")).unwrap();
    assert_eq!(ctx.incomplete_reason.as_deref(), Some("max_output_tokens"));
    assert_eq!(
        ctx.process_event(&exception("Throttled")).unwrap_err(),
        "Upstream exception Throttled: m"
    );
    let error = Event::Error { error_code: "E1".to_string(), error_message: "m".to_string() };
    assert_eq!(ctx.process_event(&error).unwrap_err(), "Upstream error E1: m");
}

#[test]
fn open_calls_fail_an_answer_in_order() {
    let mut ctx = context();
    for id in ["b", "a", "ab", "Z"] {
        ctx.process_event(&piece(id, "n", "", false)).unwrap();
    }
    ctx.text.push_str("kept");
    let chunks = ctx.finish_events(&whole, &few);
    assert_eq!(event_types(&chunks), vec!["response.failed"]);
    assert_eq!(
        data(&chunks[0])["response"]["error"]["message"],
        "Upstream stream ended before tool call(s) completed: Z, a, ab, b"
    );
    assert_eq!(ctx.text, "kept");
}

#[test]
fn thoughts_are_taken_out_until_none_is_left() {
    let text = "<t>1</t>a<t>2</t>b".to_string();
    assert_eq!(remove_complete_thinking_blocks(text, &cut), "ab");
    let mut ctx = context_with(true, Table::new());
    ctx.text.push_str("<t>x</t>said<t>y</t>");
    let chunks = ctx.finish_events(&cut, &few);
    assert_eq!(data(&chunks[2])["delta"], "said");
    let mut ctx = context_with(true, Table::new());
    ctx.text.push_str("<t>x</t>");
    assert_eq!(event_types(&ctx.finish_events(&cut, &few)), vec!["response.completed"]);
    let mut ctx = context();
    ctx.text.push_str("<t>x</t>");
    let chunks = ctx.finish_events(&cut, &few);
    assert_eq!(data(&chunks[2])["delta"], "<t>x</t>");
}

#[test]
fn tokens_are_counted_by_blocks() {
    let blocks = make_token_blocks("t", &vec![call("f", "c", "n", "{\"a\":1}"), call("f", "c", "n", "{")]);
    let shown: Vec<Value> = blocks.iter().map(to_value).collect();
    let expected: Vec<Value> = serde_json::from_str(
        r#"[{"type": "text", "text": "t"}, {"type": "tool_use", "input": {"a": 1}}, {"type": "tool_use", "input": "{"}]"#,
    )
    .unwrap();
    assert_eq!(shown, expected);
    assert!(make_token_blocks("", &vec![]).is_empty());
    let block = make_call_block("raw", Err("x".to_string()));
    assert_eq!(to_value(&block)["input"], "raw");
    let block = make_call_block("raw", Ok(parse("[2]").unwrap()));
    assert_eq!(to_value(&block)["input"][0], 2);
}

#[test]
fn frames_hold_what_was_written() {
    assert_eq!(make_frame("k", Ok("{1}".to_string())), "event: k\ndata: {1}\n\n");
    assert_eq!(make_frame("k", Err("no".to_string())), "event: k\ndata: {}\n\n");
    assert_eq!(keep_alive_comment(), ": keep-alive\n\n");
}

#[test]
fn response_ids_differ() {
    let (a, b) = (fresh_response_id(), fresh_response_id());
    assert!(a.starts_with("resp_") && a.len() == 37);
    assert_ne!(a, b);
    assert!(a[5..].chars().all(|c| c.is_ascii_hexdigit() && !c.is_ascii_uppercase()));
}

fn collect(answer: Answer, thinking: bool, tokens: i32) -> Result<CollectedResponse, String> {
    collect_response(&answer, "m", 11, 4096, thinking, Table::new(), &cut, &|_: &Vec<Json>| tokens)
}

#[test]
fn answers_are_collected() {
    let collected = collect(
        Answer::Frames(vec![
            Frame::Event(said("<t>h</t>he")),
            Frame::Event(piece("t", "n", "{}", true)),
            Frame::Event(said("llo")),
        ]),
        true,
        7,
    )
    .unwrap();
    assert_eq!(collected.text, "hello");
    assert!(collected.text_item_id.unwrap().starts_with("msg_"));
    assert_eq!(collected.calls.len(), 1);
    assert_eq!((collected.input_tokens, collected.output_tokens), (11, 7));
    assert_eq!(collected.max_output_tokens, 4096);
    assert_eq!(collected.incomplete_reason, None);
    assert!(collected.created_at > 1_600_000_000);
    let collected = collect(Answer::Frames(vec![]), true, 5000).unwrap();
    assert_eq!((collected.text.as_str(), collected.text_item_id), ("", None));
    assert_eq!(collected.incomplete_reason.as_deref(), Some("max_output_tokens"));
}

#[test]
fn answers_that_fail_say_why() {
    let failed = |answer: Answer| collect(answer, false, 1).unwrap_err();
    assert_eq!(
        failed(Answer::Unreadable("x".into())),
        "Failed to decode upstream response: x"
    );
    assert_eq!(
        failed(Answer::Frames(vec![Frame::DecodeFailed("x".into()), Frame::Invalid("y".into())])),
        "Failed to decode upstream event: x"
    );
    assert_eq!(
        failed(Answer::Frames(vec![Frame::Invalid("y".into())])),
        "Invalid upstream event: y"
    );
    assert_eq!(
        failed(Answer::Frames(vec![Frame::Event(piece("q", "n", "", false))])),
        "Upstream stream ended before tool call(s) completed: q"
    );
}

#[test]
fn gathering_with_given_ids() {
    let mut ctx = context();
    let answer = Answer::Frames(vec![
        Frame::Event(piece("a", "n", "", true)),
        Frame::Event(said("x")),
        Frame::Event(piece("b", "n", "", true)),
    ]);
    let ids = vec!["fc_1".to_string(), String::new(), "fc_3".to_string()];
    gather_with(&mut ctx, &answer, &ids).unwrap();
    let given: Vec<&str> = ctx.calls.iter().map(|c| c.item_id.as_str()).collect();
    assert_eq!(given, vec!["fc_1", "fc_3"]);
}

#[test]
fn what_comes_is_passed_on() {
    let mut ctx = context();
    let step = take(&mut ctx, &Arrival::Silence, &whole, &few);
    assert_eq!((step.output, step.finished), (vec![": keep-alive\n\n".to_string()], false));
    let step = take(&mut ctx, &Arrival::Piece(vec![Frame::Event(said("hi"))]), &whole, &few);
    assert!(step.output.is_empty() && !step.finished);
    assert_eq!(ctx.text, "hi");
    let step = take(&mut ctx, &Arrival::End, &whole, &few);
    assert!(step.finished);
    assert_eq!(event_types(&step.output).last().unwrap(), "response.completed");
}

#[test]
fn a_failure_ends_the_stream() {
    let mut ctx = context();
    let step = take_piece_with(
        &mut ctx,
        &vec![
            Frame::Event(said("a")),
            Frame::DecodeFailed("x".into()),
            Frame::Event(said("b")),
        ],
        &vec![String::new(), String::new(), String::new()],
    );
    assert!(step.finished);
    assert_eq!(ctx.text, "a");
    let sent = data(&step.output[0]);
    assert_eq!(sent["response"]["error"]["message"], "Failed to decode upstream event: x");
    assert_eq!(sent["sequence_number"], 1);
    let mut ctx = context();
    let step = take(&mut ctx, &Arrival::ReadError("gone".into()), &whole, &few);
    assert!(step.finished);
    assert_eq!(
        data(&step.output[0])["response"]["error"]["message"],
        "Failed to read upstream response: gone"
    );
}

#[test]
fn opening_objects_are_in_progress() {
    let mut ctx = context();
    ctx.created_at = 5;
    let chunks = ctx.initial_events();
    let expected: Value = serde_json::from_str(
        r#"{"type": "response.created", "sequence_number": 1, "response": {
            "id": "resp_1", "object": "response", "created_at": 5, "status": "in_progress",
            "background": false, "error": null, "incomplete_details": null,
            "max_output_tokens": 4096, "model": "opus-4-8", "output": [],
            "parallel_tool_calls": true, "previous_response_id": null, "store": false}}"#,
    )
    .unwrap();
    assert_eq!(data(&chunks[0]), expected);
    assert_eq!(data(&chunks[1])["type"], "response.in_progress");
    assert_eq!(ctx.sequence_number, 2);
}

#[test]
fn cuts_in_the_stream_do_not_matter() {
    let frames = || {
        vec![
            Frame::Event(said("a")),
            Frame::Event(piece("t", "n", "{", false)),
            Frame::Event(piece("t", "n", "}", true)),
            Frame::Event(said("b")),
        ]
    };
    let ids = vec![String::new(), String::new(), "fc_1".to_string(), String::new()];
    let mut whole = context();
    whole.created_at = 0;
    whole.process_frames_with(&frames(), &ids).unwrap();
    for cut in 0..=4 {
        let mut first = frames();
        let second = first.split_off(cut);
        let mut parts = context();
        parts.created_at = 0;
        parts.process_frames_with(&first, &ids[..cut].to_vec()).unwrap();
        parts.process_frames_with(&second, &ids[cut..].to_vec()).unwrap();
        assert_eq!(format!("{parts:?}"), format!("{whole:?}"));
    }
}

#[test]
fn frames_keep_the_data_of_their_notice() {
    let mut ctx = context();
    ctx.calls.push(call("fc_1", "c1", "a", "{}"));
    let chunks = ctx.finish_events_with(String::new(), "unused", 3);
    let sent = data(&chunks[1]);
    assert_eq!(sent["type"], "response.function_call_arguments.delta");
    assert_eq!(sent["sequence_number"], 2);
    assert_eq!(sent["item_id"], "fc_1");
    assert_eq!(sent["output_index"], 0);
    assert_eq!(sent.as_object().unwrap().len(), 5);
}

/// A response object without the ids of its items and without its time.
fn nameless(mut response: Value) -> Value {
    response["created_at"] = Value::Null;
    for item in response["output"].as_array_mut().unwrap() {
        item["id"] = Value::Null;
    }
    response
}

#[test]
fn a_stream_ends_with_the_collected_answer() {
    let received = || {
        vec![
            Frame::Event(said("<t>hm</t>hel")),
            Frame::Event(piece("b", "look", "{\"q\":", false)),
            Frame::Event(piece("a", "find", "{}", true)),
            Frame::Event(said("lo")),
            Frame::Event(piece("b", "look", "1}", true)),
            Frame::Event(usage(100.0, 20)),
        ]
    };
    let mut ctx = context_with(true, Table::new());
    ctx.initial_events();
    assert!(take(&mut ctx, &Arrival::Piece(received()), &cut, &few).output.is_empty());
    let sent = take(&mut ctx, &Arrival::End, &cut, &few).output;
    let last = data(sent.last().unwrap());
    assert_eq!(last["type"], "response.incomplete");
    assert_eq!(last["response"]["output"][0]["content"][0]["text"], "hello");

    let collected = collect_response(
        &Answer::Frames(received()),
        &ctx.model,
        10,
        4096,
        true,
        Table::new(),
        &cut,
        &few,
    )
    .unwrap();
    let body = to_value(&build_response_body("resp_1", &ctx.model, &collected));
    assert_eq!(nameless(last["response"].clone()), nameless(body));
}

#[test]
fn a_stream_fails_as_the_collected_answer_does() {
    let received = || {
        vec![
            Frame::Event(piece("b", "look", "{", false)),
            Frame::Event(piece("a", "find", "{", false)),
        ]
    };
    let mut ctx = context();
    take(&mut ctx, &Arrival::Piece(received()), &whole, &few);
    let sent = take(&mut ctx, &Arrival::End, &whole, &few).output;
    assert_eq!(event_types(&sent), vec!["response.failed"]);
    let error = collect(Answer::Frames(received()), false, 5).unwrap_err();
    assert_eq!(data(&sent[0])["response"]["error"]["message"], error.as_str());
}

#[test]
fn a_tree_that_was_read_keeps_its_order() {
    let value: Value = serde_json::from_str(r#"{"b": [{"z": 1, "y": 2}], "a": null}"#).unwrap();
    let tree = from_value(value.clone());
    assert_eq!(to_value(&tree), value);
    assert_eq!(from_value(to_value(&tree)), tree);
    assert_eq!(to_text(&tree).unwrap(), value.to_string());
}
