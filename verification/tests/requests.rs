use kiro_relay::anthropic::content::parse_data_url;
use kiro_relay::anthropic::input::{map_call_input, map_output_text};
use kiro_relay::anthropic::reasoning::{map_reasoning_for, ReasoningConfig};
use kiro_relay::anthropic::reply::{
    accept, api_error, error_response, map_conversion_error, map_provider_error, unreceived,
    unwritable, ConversionError,
};
use kiro_relay::anthropic::responses::{
    map_request, MappedRequest, ResponsesRequest, DEFAULT_MAX_OUTPUT_TOKENS,
};
use kiro_relay::anthropic::tools::{decode_tool, ResponseTool};
use kiro_relay::anthropic::types::RequestError;
use kiro_relay::json::{from_value, parse, to_text, to_value, Json};
use serde_json::Value;

fn json(text: &str) -> Json {
    parse(text).unwrap()
}

fn value(text: &str) -> Value {
    serde_json::from_str(text).unwrap()
}

/// A request with nothing but a model and an input.
fn request_for(model: &str, input: Json) -> ResponsesRequest {
    ResponsesRequest {
        model: model.to_string(),
        input,
        instructions: None,
        max_output_tokens: None,
        stream: false,
        tools: Vec::new(),
        tool_choice: None,
        reasoning: None,
        previous_response_id: Json::Null,
        conversation: Json::Null,
        background: false,
        store: None,
    }
}

fn request(input: &str) -> ResponsesRequest {
    request_for("opus-4-8", json(input))
}

fn tools(text: &str) -> Vec<ResponseTool> {
    match json(text) {
        Json::Array(items) => items.iter().map(|item| decode_tool(item).unwrap()).collect(),
        other => panic!("expected an array, found {other:?}"),
    }
}

fn map(request: ResponsesRequest) -> MappedRequest {
    map_request(request).unwrap()
}

fn refused(request: ResponsesRequest) -> (String, String, String) {
    let error = map_request(request).unwrap_err();
    (error.message, error.param.unwrap(), error.code.unwrap())
}

fn content(mapped: &MappedRequest, i: usize) -> Value {
    to_value(&mapped.messages.messages[i].content)
}

#[test]
fn maps_string_input_to_user_message() {
    let mapped = map(request("\"hello\""));
    assert_eq!(mapped.messages.messages.len(), 1);
    assert_eq!(mapped.messages.messages[0].role, "user");
    assert_eq!(content(&mapped, 0), value("\"hello\""));
    assert_eq!(mapped.max_output_tokens, DEFAULT_MAX_OUTPUT_TOKENS);
}

#[test]
fn maps_message_items_and_instructions() {
    let mut req = request(
        r#"[
            {"type": "message", "role": "system", "content": "be terse"},
            {"type": "message", "role": "user", "content": [
                {"type": "input_text", "text": "hi"}
            ]}
        ]"#,
    );
    req.instructions = Some("top instructions".to_string());
    let mapped = map(req);
    assert_eq!(content(&mapped, 0), value(r#"[{"type": "text", "text": "hi"}]"#));
    let system = mapped.messages.system.unwrap();
    assert_eq!(system.len(), 2);
    assert_eq!(system[0].text, "top instructions");
    assert_eq!(system[1].text, "be terse");
}

#[test]
fn maps_input_image_data_url() {
    let mapped = map(request(
        r#"[
            {"type": "message", "role": "user", "content": [
                {"type": "input_image", "image_url": "data:image/png;base64,AAAA"}
            ]}
        ]"#,
    ));
    assert_eq!(
        content(&mapped, 0),
        value(
            r#"[{"type": "image", "source": {"type": "base64", "media_type": "image/png", "data": "AAAA"}}]"#
        )
    );
}

#[test]
fn rejects_unsupported_image_url() {
    let error = map_request(request(
        r#"[
            {"type": "message", "role": "user", "content": [
                {"type": "input_image", "image_url": "https://example.com/a.png"}
            ]}
        ]"#,
    ))
    .unwrap_err();
    assert_eq!(error.param.as_deref(), Some("input[0].content[0].image_url"));
}

#[test]
fn maps_function_tool_and_call_roundtrip() {
    let mut req = request(
        r#"[
            {"type": "function_call", "call_id": "call_1", "name": "lookup", "arguments": "{\"q\":\"x\"}"},
            {"type": "function_call_output", "call_id": "call_1", "output": "done"}
        ]"#,
    );
    req.tools = tools(
        r#"[{"type": "function", "name": "lookup", "parameters": {"type": "object", "properties": {}}}]"#,
    );
    let mapped = map(req);
    assert_eq!(mapped.messages.messages[0].role, "assistant");
    assert_eq!(
        content(&mapped, 0),
        value(r#"[{"type": "tool_use", "id": "call_1", "name": "lookup", "input": {"q": "x"}}]"#)
    );
    assert_eq!(mapped.messages.messages[1].role, "user");
    assert_eq!(
        content(&mapped, 1),
        value(r#"[{"type": "tool_result", "tool_use_id": "call_1", "content": "done"}]"#)
    );
    let tools = mapped.messages.tools.unwrap();
    assert_eq!(tools[0].name, "lookup");
}

fn tool_names(mapped: MappedRequest) -> Vec<String> {
    mapped.messages.tools.unwrap().iter().map(|t| t.name.clone()).collect()
}

#[test]
fn flattens_namespace_tools_and_skips_builtins() {
    let mut req = request("\"hi\"");
    req.tools = tools(
        r#"[
            {"type": "function", "name": "shell_command", "parameters": {"type": "object", "properties": {}}},
            {"type": "namespace", "name": "mcp__node_repl", "description": "node repl", "tools": [
                {"type": "function", "name": "js", "parameters": {"type": "object", "properties": {}}},
                {"type": "function", "name": "js_reset", "parameters": {"type": "object", "properties": {}}}
            ]},
            {"type": "web_search", "external_web_access": true}
        ]"#,
    );
    assert_eq!(tool_names(map(req)), vec!["shell_command", "js", "js_reset"]);
}

#[test]
fn collects_tools_from_additional_tools_item() {
    let req = request(
        r#"[
            {"type": "additional_tools", "role": "developer", "tools": [
                {"type": "custom", "name": "exec", "description": "run js"},
                {"type": "function", "name": "wait", "parameters": {"type": "object", "properties": {}}},
                {"type": "namespace", "name": "collab", "description": "c", "tools": [
                    {"type": "function", "name": "spawn_agent", "parameters": {"type": "object", "properties": {}}}
                ]}
            ]},
            {"type": "message", "role": "user", "content": [{"type": "input_text", "text": "hi"}]}
        ]"#,
    );
    assert_eq!(tool_names(map(req)), vec!["wait", "spawn_agent"]);
}

#[test]
fn skips_unknown_replayed_input_items() {
    let mapped = map(request(
        r#"[
            {"type": "reasoning", "summary": [], "encrypted_content": "abc"},
            {"type": "web_search_call", "status": "completed"},
            {"type": "message", "role": "user", "content": [{"type": "input_text", "text": "hi"}]}
        ]"#,
    ));
    assert_eq!(mapped.messages.messages.len(), 1);
    assert_eq!(mapped.messages.messages[0].role, "user");
}

#[test]
fn unknown_items_behind_the_others_change_nothing() {
    let before = map(request(r#"[{"role": "user", "content": "x"}]"#));
    let after = map(request(
        r#"[{"role": "user", "content": "x"}, {"type": "reasoning", "summary": []}]"#,
    ));
    assert_eq!(format!("{before:?}"), format!("{after:?}"));
    let one = refused(request(r#"[{"role": "robot", "content": "x"}]"#));
    let two = refused(request(r#"[{"role": "robot", "content": "x"}, {"type": "reasoning"}]"#));
    assert_eq!(one, two);
}

#[test]
fn maps_custom_tool_call_roundtrip() {
    let mapped = map(request(
        r#"[
            {"type": "custom_tool_call", "call_id": "c1", "name": "exec", "input": "console.log(1)"},
            {"type": "custom_tool_call_output", "call_id": "c1", "output": "1"}
        ]"#,
    ));
    assert_eq!(
        content(&mapped, 0),
        value(
            r#"[{"type": "tool_use", "id": "c1", "name": "exec", "input": {"input": "console.log(1)"}}]"#
        )
    );
    assert_eq!(
        content(&mapped, 1),
        value(r#"[{"type": "tool_result", "tool_use_id": "c1", "content": "1"}]"#)
    );
}

#[test]
fn rejects_stateful_fields() {
    let mut req = request("\"hi\"");
    req.previous_response_id = json("\"resp_1\"");
    let error = map_request(req).unwrap_err();
    assert_eq!(error.param.as_deref(), Some("previous_response_id"));
    assert_eq!(error.code.as_deref(), Some("unsupported_parameter"));
}

#[test]
fn rejects_every_stateful_field() {
    let mut req = request("\"hi\"");
    req.conversation = json("{}");
    assert_eq!(
        refused(req),
        (
            "conversation is not supported because this service does not persist conversation state".to_string(),
            "conversation".to_string(),
            "unsupported_parameter".to_string()
        )
    );
    let mut req = request("\"hi\"");
    req.background = true;
    assert_eq!(refused(req).0, "background responses are not supported");
    let mut req = request("\"hi\"");
    req.store = Some(true);
    assert_eq!(refused(req).1, "store");
}

#[test]
fn accepts_include_field() {
    let body = json(
        r#"{
            "model": "opus-4-8",
            "input": "hi",
            "store": false,
            "include": ["reasoning.encrypted_content"]
        }"#,
    );
    let object = body.as_object().unwrap();
    let mut req = request_for(
        object.get_text("model").unwrap(),
        object.get("input").unwrap().duplicate(),
    );
    req.store = match object.get("store") {
        Some(Json::Bool(store)) => Some(*store),
        _ => None,
    };
    assert_eq!(req.store, Some(false));
    assert!(object.get("include").is_some());
    assert!(map_request(req).is_ok());
}

#[test]
fn rejects_when_no_user_message() {
    let error = map_request(request(
        r#"[{"type": "message", "role": "assistant", "content": "hi"}]"#,
    ))
    .unwrap_err();
    assert_eq!(error.param.as_deref(), Some("input"));
    assert_eq!(error.message, "input must contain a user message or function_call_output");
}

#[test]
fn thinking_suffix_enables_reasoning() {
    let mapped = map(request_for("opus-4-8-thinking", json("\"hi\"")));
    assert!(mapped.thinking_enabled);
    assert_eq!(mapped.messages.thinking.unwrap().thinking_type, "enabled");
}

#[test]
fn model_names_are_read_in_any_case() {
    let mapped = map(request_for("Opus-THINKING", json("\"hi\"")));
    assert!(mapped.thinking_enabled);
    assert_eq!(mapped.messages.model, "Opus-THINKING");
}

#[test]
fn reasoning_by_name_and_effort() {
    let of = |lower: &str, effort: Option<&str>| {
        map_reasoning_for(lower, effort.map(|s| s.to_string())).map(|(thinking, config)| {
            (
                thinking.map(|t| (t.thinking_type, t.budget_tokens)),
                config.map(|c| c.effort),
            )
        })
    };
    let plain = |kind: &str| Some((kind.to_string(), 20_000));
    assert_eq!(of("m", None).unwrap(), (None, None));
    assert_eq!(of("m", Some("none")).unwrap(), (None, None));
    assert_eq!(of("m", Some("low")).unwrap(), (plain("adaptive"), Some("low".into())));
    assert_eq!(of("m-thinking", None).unwrap(), (plain("enabled"), None));
    assert_eq!(of("m-thinking", Some("high")).unwrap(), (plain("enabled"), None));
    assert_eq!(
        of("opus-4-6-thinking", None).unwrap(),
        (plain("adaptive"), Some("high".into()))
    );
    assert_eq!(
        of("opus-4.6-thinking", Some("none")).unwrap(),
        (plain("adaptive"), Some("none".into()))
    );
    for effort in ["minimal", "medium", "high", "xhigh"] {
        assert_eq!(of("m", Some(effort)).unwrap().1.as_deref(), Some(effort));
    }
    let error = of("m", Some("huge")).unwrap_err();
    assert_eq!(error.param.as_deref(), Some("reasoning.effort"));
    let mut req = request("\"hi\"");
    req.reasoning = Some(ReasoningConfig { effort: Some("low".into()) });
    let mapped = map(req);
    assert!(mapped.thinking_enabled);
    assert_eq!(mapped.messages.output_config.unwrap().effort, "low");
}

#[test]
fn limits_and_models_are_checked() {
    assert_eq!(refused(request_for(" \t", json("\"hi\""))).1, "model");
    let mut req = request("\"hi\"");
    req.max_output_tokens = Some(0);
    assert_eq!(
        refused(req),
        (
            "max_output_tokens must be greater than 0".to_string(),
            "max_output_tokens".to_string(),
            "invalid_value".to_string()
        )
    );
    let mut req = request("\"hi\"");
    req.max_output_tokens = Some(7);
    req.stream = true;
    let mapped = map(req);
    assert_eq!((mapped.max_output_tokens, mapped.messages.max_tokens), (7, 7));
    assert!(mapped.messages.stream);
    assert!(mapped.messages.tools.is_none());
}

#[test]
fn empty_instructions_are_none() {
    let mut req = request("\"hi\"");
    req.instructions = Some(String::new());
    assert!(map(req).messages.system.is_none());
}

#[test]
fn what_is_wrong_with_an_input() {
    for (input, message, param) in [
        ("\"\"", "input must not be empty", "input"),
        ("[]", "input must not be empty", "input"),
        ("5", "input must be a string or an array", "input"),
        (r#"[{"type": "reasoning"}]"#, "input must contain a user or assistant item", "input"),
        ("[1]", "input items must be objects", "input[0]"),
        (r#"[{"content": "x"}]"#, "role is required and must be a non-empty string", "input[0].role"),
        (r#"[{"role": "", "content": "x"}]"#, "role is required and must be a non-empty string", "input[0].role"),
        (r#"[{"role": "user"}]"#, "message content is required", "input[0].content"),
        (r#"[{"role": "robot", "content": "x"}]"#, "Unsupported message role: robot", "input[0].role"),
        (r#"[{"role": "user", "content": ""}]"#, "message content must not be empty", "input[0].content"),
        (r#"[{"role": "user", "content": []}]"#, "message content must not be empty", "input[0].content"),
        (r#"[{"role": "user", "content": 1}]"#, "message content must be a string or content array", "input[0].content"),
        (r#"[{"role": "user", "content": [1]}]"#, "content parts must be objects", "input[0].content[0]"),
        (r#"[{"role": "user", "content": [{}]}]"#, "content part type is required", "input[0].content[0].type"),
        (r#"[{"role": "user", "content": [{"type": "text"}]}]"#, "text is required", "input[0].content[0].text"),
        (r#"[{"role": "user", "content": [{"type": "file"}]}]"#, "Unsupported content part type: file", "input[0].content[0].type"),
        (r#"[{"role": "user", "content": [{"type": "input_image"}]}]"#, "image_url is required", "input[0].content[0].image_url"),
        (r#"[{"role": "assistant", "content": [{"type": "input_image"}]}]"#, "input_image is only valid in user messages", "input[0].content[0]"),
        (r#"[{"role": "system", "content": ""}]"#, "message content must be a string or content array", "input[0].content"),
        (r#"[{"role": "system", "content": []}]"#, "message content must not be empty", "input[0].content"),
        (r#"[{"role": "developer", "content": [1]}]"#, "system content parts must be objects", "input[0].content[0]"),
        (r#"[{"role": "system", "content": [{"type": "input_image"}]}]"#, "system and developer messages only support text content", "input[0].content[0].type"),
        (r#"[{"role": "system", "content": [{}]}]"#, "text is required", "input[0].content[0].text"),
        (r#"[{"type": "function_call", "name": "n", "arguments": "{}"}]"#, "call_id is required and must be a non-empty string", "input[0].call_id"),
        (r#"[{"type": "function_call", "call_id": "c", "arguments": "{}"}]"#, "name is required and must be a non-empty string", "input[0].name"),
        (r#"[{"type": "function_call", "call_id": "c", "name": "n"}]"#, "input is required and must be a non-empty string", "input[0].input"),
        (r#"[{"type": "function_call", "call_id": "c", "name": "n", "arguments": "[]"}]"#, "function_call arguments must encode a JSON object", "input[0].arguments"),
        (r#"[{"type": "function_call_output", "call_id": "c"}]"#, "function_call_output output is required", "input[0].output"),
        (r#"[{"role": "user", "content": "x"}, {"role": "assistant", "content": "y"}]"#, "The final input item must be a user message or function_call_output", "input"),
        (r#"[{"role": "user", "content": "x"}, {"role": "user", "content": [{"type": "text", "text": "a"}, 2]}]"#, "content parts must be objects", "input[1].content[1]"),
    ] {
        assert_eq!(
            refused(request(input)),
            (message.to_string(), param.to_string(), "invalid_value".to_string()),
            "{input}"
        );
    }
    let (message, param, _) = refused(request(
        r#"[{"type": "function_call", "call_id": "c", "name": "n", "arguments": "{"}]"#,
    ));
    assert!(message.starts_with("function_call arguments must be valid JSON: EOF while parsing"));
    assert_eq!(param, "input[0].arguments");
}

#[test]
fn system_parts_become_lines() {
    let mapped = map(request(
        r#"[
            {"role": "developer", "content": [{"text": "a"}, {"type": "output_text", "text": "b"}]},
            {"role": "user", "content": "x"}
        ]"#,
    ));
    assert_eq!(mapped.messages.system.unwrap()[0].text, "a\nb");
}

#[test]
fn freeform_input_that_is_an_object_stays_one() {
    let mapped = map(request(
        r#"[
            {"type": "custom_tool_call", "call_id": "c", "name": "n", "input": "{\"a\": 1}"},
            {"type": "custom_tool_call_output", "call_id": "c", "output": {"b": [1, 2.5, null]}}
        ]"#,
    ));
    assert_eq!(content(&mapped, 0)[0]["input"], value(r#"{"a": 1}"#));
    assert_eq!(content(&mapped, 1)[0]["content"], r#"{"b":[1,2.5,null]}"#);
}

#[test]
fn call_inputs_for_every_outcome_of_parsing() {
    let parsed = || -> Result<Json, String> { Ok(json("[1]")) };
    let failed = || -> Result<Json, String> { Err("broken".to_string()) };
    assert_eq!(to_value(&map_call_input(true, "raw", parsed(), 3).unwrap()), value(r#"{"input": "raw"}"#));
    assert_eq!(to_value(&map_call_input(true, "raw", failed(), 3).unwrap()), value(r#"{"input": "raw"}"#));
    assert_eq!(
        to_value(&map_call_input(false, "raw", Ok(json(r#"{"k": 1}"#)), 3).unwrap()),
        value(r#"{"k": 1}"#)
    );
    let error = map_call_input(false, "raw", failed(), 3).unwrap_err();
    assert_eq!(error.message, "function_call arguments must be valid JSON: broken");
    assert_eq!(error.param.as_deref(), Some("input[3].arguments"));
    assert!(map_call_input(false, "raw", parsed(), 3).is_err());
}

#[test]
fn output_texts_for_every_outcome_of_writing() {
    assert_eq!(map_output_text(&json("\"t\""), Err("x".into()), 0).unwrap(), "t");
    assert_eq!(map_output_text(&json("1"), Ok("1".into()), 0).unwrap(), "1");
    let error = map_output_text(&json("1"), Err("x".into()), 4).unwrap_err();
    assert_eq!(error.message, "Invalid function output: x");
    assert_eq!(error.param.as_deref(), Some("input[4].output"));
}

#[test]
fn data_urls_are_read_back() {
    for media in ["image/jpeg", "image/png", "image/gif", "image/webp"] {
        assert_eq!(
            parse_data_url(&format!("data:{media};base64,A,B=")),
            Some((media.to_string(), "A,B=".to_string()))
        );
    }
    for url in [
        "data:image/png;base64,",
        "data:image/bmp;base64,AA",
        "data:image/png,AA",
        "image/png;base64,AA",
        "data:image/png;base64;base64,AA",
        "data:image/PNG;base64,AA",
        "",
    ] {
        assert_eq!(parse_data_url(url), None, "{url}");
    }
}

#[test]
fn tool_definitions_are_read() {
    let read = |text: &str| decode_tool(&json(text));
    let tool = read(r#"{"type": "function", "name": null, "parameters": null, "extra": 1}"#).unwrap();
    assert_eq!(tool.tool_type, "function");
    assert!(tool.name.is_none() && tool.description.is_none() && tool.parameters.is_none());
    assert!(tool.tools.is_empty());
    let tool = read(r#"["namespace", "n", "d", {"a": 1}, [["function", "m", null, null]]]"#).unwrap();
    assert_eq!(tool.name.as_deref(), Some("n"));
    assert_eq!(tool.description.as_deref(), Some("d"));
    assert_eq!(to_value(&tool.parameters.unwrap()), value(r#"{"a": 1}"#));
    assert_eq!(tool.tools[0].name.as_deref(), Some("m"));
    for text in [
        "{}",
        r#"{"type": 1}"#,
        r#"{"type": "function", "name": 1}"#,
        r#"{"type": "function", "description": []}"#,
        r#"{"type": "function", "tools": null}"#,
        r#"{"type": "function", "tools": [{}]}"#,
        r#"["function", "n", "d"]"#,
        r#"["function", "n", "d", null, [], 1]"#,
        "\"function\"",
        "null",
    ] {
        assert!(read(text).is_none(), "{text}");
    }
}

#[test]
fn bad_tools_are_reported_where_they_stand() {
    for (defined, message, param) in [
        (r#"[{"type": "function"}]"#, "function tool name is required", "tools[0].name"),
        (r#"[{"type": "function", "name": "a"}, {"type": "function", "name": ""}]"#, "function tool name is required", "tools[1].name"),
        (r#"[{"type": "function", "name": "a", "parameters": 5}]"#, "function tool parameters must be a JSON object", "tools[0].parameters"),
        (r#"[{"type": "namespace", "tools": [{"type": "x"}, {"type": "function"}]}, {"type": "function"}]"#, "function tool name is required", "tools[0].tools[1].name"),
    ] {
        let mut req = request("\"hi\"");
        req.tools = tools(defined);
        let (found, at, _) = refused(req);
        assert_eq!((found.as_str(), at.as_str()), (message, param), "{defined}");
    }
}

#[test]
fn tools_without_parameters_take_an_object() {
    let mut req = request("\"hi\"");
    req.tools = tools(r#"[{"type": "function", "name": "a", "description": "d"}]"#);
    let mapped = map(req);
    let tool = &mapped.messages.tools.as_ref().unwrap()[0];
    assert_eq!(tool.description, "d");
    assert_eq!(tool.input_schema.get_text("type"), Some("object"));
    assert!(tool.input_schema.get("properties").is_some());
    assert!(tool.tool_type.is_none() && tool.max_uses.is_none());
}

#[test]
fn choices_among_tools() {
    let choose = |choice: &str| {
        let mut req = request("\"hi\"");
        req.tools = tools(r#"[{"type": "function", "name": "a"}]"#);
        req.tool_choice = Some(json(choice));
        map_request(req)
            .map(|mapped| to_value(&mapped.messages.tool_choice.unwrap()))
            .map_err(|error| (error.message, error.param.unwrap()))
    };
    assert_eq!(choose("\"auto\"").unwrap(), value(r#"{"type": "auto"}"#));
    assert_eq!(choose("\"none\"").unwrap(), value(r#"{"type": "none"}"#));
    assert_eq!(choose("\"required\"").unwrap(), value(r#"{"type": "any"}"#));
    assert_eq!(
        choose(r#"{"type": "function", "name": "a"}"#).unwrap(),
        value(r#"{"type": "tool", "name": "a"}"#)
    );
    let problem = |message: &str, param: &str| Err((message.to_string(), param.to_string()));
    assert_eq!(
        choose(r#"{"type": "function", "name": "b"}"#),
        problem("tool_choice names an undefined function", "tool_choice.name")
    );
    assert_eq!(
        choose(r#"{"type": "function", "name": ""}"#),
        problem("tool_choice function name is required", "tool_choice.name")
    );
    for bad in ["\"some\"", "5", r#"{"type": "web"}"#, "[]"] {
        assert_eq!(choose(bad), problem("Invalid tool_choice", "tool_choice"), "{bad}");
    }
    assert!(map(request("\"hi\"")).messages.tool_choice.is_none());
}

#[test]
fn refusals_by_the_backend() {
    let reply = map_provider_error("x CONTENT_LENGTH_EXCEEDS_THRESHOLD y");
    assert_eq!(reply.status, 400);
    assert_eq!(reply.error.message, "Context window is full. Reduce the input size.");
    assert_eq!(reply.error.error_type, "invalid_request_error");
    assert_eq!(reply.error.param.as_deref(), Some("input"));
    assert_eq!(reply.error.code.as_deref(), Some("invalid_value"));
    let reply = map_provider_error("Input is too long");
    assert_eq!(reply.error.message, "Input is too long. Reduce the input size.");
    let reply = map_provider_error("boom");
    assert_eq!((reply.status, reply.error.message.as_str()), (502, "Upstream API request failed: boom"));
    assert_eq!(reply.error.error_type, "api_error");
    assert!(reply.error.param.is_none() && reply.error.code.is_none());
}

#[test]
fn other_replies() {
    let reply = map_conversion_error(&ConversionError::UnsupportedModel("m".into()));
    assert_eq!((reply.status, reply.error.message.as_str()), (400, "Unsupported model: m"));
    let reply = map_conversion_error(&ConversionError::EmptyMessages);
    assert_eq!(reply.error.message, "Input must contain at least one user message");
    assert_eq!(unwritable("e").error.message, "Failed to serialize request: e");
    assert_eq!(unwritable("e").status, 500);
    assert_eq!(unreceived("e").error.message, "Failed to read upstream response: e");
    assert_eq!(unreceived("e").status, 502);
    assert_eq!(api_error(418, "m").status, 418);
    let reply = error_response(400, RequestError::unsupported("m", "p"));
    assert_eq!(reply.error.code.as_deref(), Some("unsupported_parameter"));
}

#[test]
fn requests_are_accepted_or_answered() {
    let reply = accept(Err("bad".into()), false).unwrap_err();
    assert_eq!((reply.status, reply.error.message.as_str()), (400, "Invalid JSON request: bad"));
    assert_eq!(reply.error.param.as_deref(), Some("body"));
    let reply = accept(Ok(request("\"hi\"")), false).unwrap_err();
    assert_eq!((reply.status, reply.error.message.as_str()), (503, "Kiro API provider not configured"));
    let reply = accept(Ok(request("\"\"")), true).unwrap_err();
    assert_eq!((reply.status, reply.error.param.as_deref()), (400, Some("input")));
    assert!(accept(Ok(request("\"hi\"")), true).is_ok());
}

#[test]
fn trees_and_values_hold_the_same() {
    let text = r#"{"a":[1,-2,2.5,true,null,"x"],"b":{"c":"d"}}"#;
    let tree = from_value(value(text));
    assert_eq!(to_value(&tree), value(text));
    assert_eq!(to_text(&tree).unwrap(), text);
    assert_eq!(to_value(&tree.duplicate()), value(text));
    assert!(parse("{").is_err());
}

#[test]
fn entries_are_set_and_found() {
    let tree = json(r#"{"a": 1, "b": 2}"#);
    let fields = match tree {
        Json::Object(fields) => fields,
        other => panic!("expected an object, found {other:?}"),
    };
    let fields = fields.set("a", json("\"x\"")).set("c", Json::Null);
    assert_eq!(fields.get_text("a"), Some("x"));
    assert_eq!(fields.get("b"), Some(&json("2")));
    assert!(fields.get("c").unwrap().is_null());
    assert_eq!(fields.get_text("b"), None);
    assert!(fields.get("d").is_none());
    assert_eq!(fields.entries.len(), 3);
}
