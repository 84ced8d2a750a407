use open_ai_responses::error::{ResponseStatusError, SendError};
use open_ai_responses::request::{
    build_responses_request, Request, ResponseInputContent, ResponseInputItem,
};
use open_ai_responses::response::{
    output_text_from_response, output_text_part, ResponseError, ResponseIncompleteDetails,
    ResponseOutputItem, ResponseOutputMessage, ResponseSummary,
};
use open_ai_responses::settings::OpenAiEditPredictionSettings;
use open_ai_responses::transport::{
    authorization, responses_http_request, responses_uri, send_responses_request, HttpMethod,
    HttpRequest, SendAction, SendEvent, SendState,
};
use serde_json::Value;

fn test_settings() -> OpenAiEditPredictionSettings {
    OpenAiEditPredictionSettings {
        api_url: "https://api.openai.test/v1".into(),
        model: "gpt-test".to_string(),
        max_output_tokens: 512,
    }
}

fn json(text: &str) -> Value {
    serde_json::from_str(text).unwrap()
}

fn string(value: &Value) -> Option<String> {
    value.as_str().map(|text| text.to_string())
}

fn put(object: &mut serde_json::Map<String, Value>, key: &str, value: Option<Value>) {
    if let Some(value) = value {
        object.insert(key.to_string(), value);
    }
}

/// The JSON form of a request. Fields without a value are left out.
fn request_value(request: &Request) -> Value {
    let input = request
        .input
        .iter()
        .map(|item| {
            let ResponseInputItem::Message(message) = item;
            let content = message
                .content
                .iter()
                .map(|content| {
                    let ResponseInputContent::Text { text } = content;
                    let mut object = serde_json::Map::new();
                    put(&mut object, "type", Some(Value::from(content.kind())));
                    put(&mut object, "text", Some(Value::from(text.as_str())));
                    Value::Object(object)
                })
                .collect::<Vec<Value>>();
            let mut object = serde_json::Map::new();
            put(&mut object, "type", Some(Value::from(item.kind())));
            put(&mut object, "role", Some(Value::from(message.role.name())));
            put(&mut object, "content", Some(Value::Array(content)));
            put(&mut object, "phase", message.phase.clone().map(Value::from));
            Value::Object(object)
        })
        .collect::<Vec<Value>>();
    let mut object = serde_json::Map::new();
    put(&mut object, "model", Some(Value::from(request.model.as_str())));
    put(&mut object, "instructions", request.instructions.clone().map(Value::from));
    put(&mut object, "input", Some(Value::Array(input)));
    put(&mut object, "stream", Some(Value::from(request.stream)));
    put(&mut object, "max_output_tokens", request.max_output_tokens.map(Value::from));
    put(&mut object, "store", request.store.map(Value::from));
    Value::Object(object)
}

/// The response that a JSON value holds.
fn response_summary(value: Value) -> ResponseSummary {
    let output = match &value["output"] {
        Value::Array(items) => items
            .iter()
            .map(|item| {
                if item["type"] == "message" {
                    let content = item["content"].as_array().cloned().unwrap_or_default();
                    ResponseOutputItem::Message(ResponseOutputMessage { content })
                } else {
                    ResponseOutputItem::Other
                }
            })
            .collect(),
        _ => Vec::new(),
    };
    ResponseSummary {
        id: string(&value["id"]),
        status: string(&value["status"]),
        error: string(&value["error"]["message"]).map(|message| ResponseError { message }),
        incomplete_details: value
            .get("incomplete_details")
            .map(|details| ResponseIncompleteDetails { reason: string(&details["reason"]) }),
        output,
    }
}

/// Sends a request over a line on which `reply` answers with a status and a
/// body.
fn send(
    api_url: &str,
    api_key: &str,
    request: Request,
    reply: impl Fn(&HttpRequest) -> (Result<u16, Vec<String>>, Result<String, Vec<String>>),
) -> Result<ResponseSummary, SendError> {
    let (mut state, mut action) =
        send_responses_request(api_url.to_string(), api_key.to_string(), request);
    let mut body: Result<String, Vec<String>> = Err(Vec::new());
    let mut http: Option<HttpRequest> = None;
    loop {
        let event = match action {
            SendAction::Encode(request) => {
                SendEvent::Encoded(Ok(request_value(&request).to_string()))
            }
            SendAction::Create(request) => {
                http = Some(request);
                SendEvent::Created(Ok(()))
            }
            SendAction::Send => {
                let (status, text) = reply(http.as_ref().unwrap());
                body = text;
                SendEvent::Sent(status)
            }
            SendAction::ReadBody => SendEvent::BodyRead(body.clone()),
            SendAction::Parse { body } => SendEvent::Parsed(
                serde_json::from_str(&body)
                    .map(response_summary)
                    .map_err(|error| vec![error.to_string()]),
            ),
            SendAction::Finish(result) => return result,
        };
        assert!(state.is_awaiting(&event));
        (state, action) = state.step(event);
    }
}

#[test]
fn builds_responses_request() {
    let request = build_responses_request(&test_settings(), "predict this".to_string());
    let value = request_value(&request);

    assert_eq!(value["model"], "gpt-test");
    assert_eq!(value["max_output_tokens"], 512);
    assert_eq!(value["store"], false);
    assert_eq!(value["stream"], false);
    assert_eq!(value["input"][0]["type"], "message");
    assert_eq!(value["input"][0]["role"], "user");
    assert_eq!(value["input"][0]["content"][0]["type"], "input_text");
    assert_eq!(value["input"][0]["content"][0]["text"], "predict this");
}

#[test]
fn request_leaves_the_rest_to_the_service() {
    let request = build_responses_request(&test_settings(), "".to_string());
    assert_eq!(request.input.len(), 1);
    assert_eq!(request.instructions, None);
    assert_eq!(request.included, Vec::<Value>::new());
    assert_eq!(request.temperature, None);
    assert_eq!(request.top_p, None);
    assert_eq!(request.parallel_tool_calls, None);
    assert_eq!(request.tool_choice, None);
    assert_eq!(request.tools, Vec::<Value>::new());
    assert_eq!(request.prompt_cache_key, None);
    assert_eq!(request.reasoning, None);
    assert_eq!(request.service_tier, None);
    let ResponseInputItem::Message(message) = &request.input[0];
    assert_eq!(message.phase, None);
    assert_eq!(message.content, vec![ResponseInputContent::Text { text: "".to_string() }]);
}

#[test]
fn request_does_not_depend_on_the_address() {
    let mut settings = test_settings();
    let request = build_responses_request(&settings, "predict this".to_string());
    settings.api_url = "https://elsewhere.test".to_string();
    assert_eq!(build_responses_request(&settings, "predict this".to_string()), request);
    assert_ne!(build_responses_request(&settings, "predict that".to_string()), request);
    settings.max_output_tokens = u32::MAX;
    let request = build_responses_request(&settings, "predict this".to_string());
    assert_eq!(request.max_output_tokens, Some(4294967295));
}

#[test]
fn sends_responses_request_to_base_url() {
    let response = send(
        "https://api.openai.test/v1",
        "sk-test",
        build_responses_request(&test_settings(), "predict this".to_string()),
        |request| {
            assert_eq!(request.method, HttpMethod::Post);
            assert_eq!(request.uri, "https://api.openai.test/v1/responses");
            assert_eq!(request.headers.len(), 2);
            assert_eq!(request.headers[0].name, "Content-Type");
            assert_eq!(request.headers[0].value, "application/json");
            assert_eq!(request.headers[1].name, "Authorization");
            assert_eq!(request.headers[1].value, "Bearer sk-test");

            let value = json(&request.body);
            assert_eq!(value["model"], "gpt-test");
            assert_eq!(value["max_output_tokens"], 512);
            assert_eq!(value["store"], false);
            assert_eq!(value["input"][0]["content"][0]["text"], "predict this");

            let reply = r#"{ "id": "resp_123", "status": "completed", "output": [] }"#;
            (Ok(200), Ok(reply.to_string()))
        },
    )
    .unwrap();

    assert_eq!(response.id.as_deref(), Some("resp_123"));
}

#[test]
fn slashes_after_the_address_do_not_matter() {
    assert_eq!(responses_uri("https://api.openai.test/v1/"), "https://api.openai.test/v1/responses");
    assert_eq!(
        responses_uri("https://api.openai.test/v1///"),
        "https://api.openai.test/v1/responses"
    );
    assert_eq!(responses_uri("///"), "/responses");
    assert_eq!(responses_uri(""), "/responses");
}

#[test]
fn white_space_around_the_key_does_not_matter() {
    assert_eq!(authorization("sk-test"), "Bearer sk-test");
    assert_eq!(authorization(" \tsk test\u{a0}\r\n"), "Bearer sk test");
    assert_eq!(authorization(" \u{3000}\n"), "Bearer ");
    assert_eq!(authorization(""), "Bearer ");
}

#[test]
fn http_request_carries_the_body_unchanged() {
    let request = responses_http_request("http://a/", " k ", " {\n} ".to_string());
    assert_eq!(request.uri, "http://a/responses");
    assert_eq!(request.headers[1].value, "Bearer k");
    assert_eq!(request.body, " {\n} ");
}

fn send_with(
    status: Result<u16, Vec<String>>,
    body: Result<String, Vec<String>>,
) -> Result<ResponseSummary, SendError> {
    send(
        "https://api.openai.test/v1",
        "sk-test",
        build_responses_request(&test_settings(), "predict this".to_string()),
        move |_| (status.clone(), body.clone()),
    )
}

#[test]
fn unsuccessful_status_is_error() {
    for status in [100, 199, 300, 404, 500, 999] {
        let error = send_with(Ok(status), Ok("no such model".to_string())).unwrap_err();
        assert_eq!(error, SendError::Status { status, body: "no such model".to_string() });
    }
    let error = send_with(Ok(404), Ok("no such model".to_string())).unwrap_err();
    assert_eq!(
        error.chain(),
        vec!["OpenAI Responses request failed with status: 404\nBody: no such model".to_string()]
    );
    for status in [200, 201, 299] {
        assert!(send_with(Ok(status), Ok("{}".to_string())).is_ok());
    }
}

#[test]
fn unreadable_body_is_error_whatever_the_status() {
    for status in [200, 500] {
        let error = send_with(Ok(status), Err(vec!["cut off".to_string()])).unwrap_err();
        assert_eq!(error, SendError::ReadBody { causes: vec!["cut off".to_string()] });
        assert_eq!(
            error.chain(),
            vec![
                "Failed to read OpenAI Responses response body".to_string(),
                "cut off".to_string()
            ]
        );
    }
}

#[test]
fn request_without_reply_is_error() {
    let error = send_with(Err(vec!["refused".to_string(), "no route".to_string()]), Ok("".to_string())).unwrap_err();
    assert_eq!(error, SendError::Send { causes: vec!["refused".to_string(), "no route".to_string()] });
    assert_eq!(
        error.chain(),
        vec![
            "Failed to send OpenAI Responses request".to_string(),
            "refused".to_string(),
            "no route".to_string()
        ]
    );
}

#[test]
fn reply_that_is_no_response_is_error() {
    let error = send_with(Ok(200), Ok("{".to_string())).unwrap_err();
    assert!(matches!(error, SendError::Parse { .. }));
    assert_eq!(error.chain()[0], "Failed to parse OpenAI Responses response");
    assert_eq!(error.chain().len(), 2);
}

#[test]
fn request_that_cannot_be_made_up_is_error() {
    let state = SendState::Creating;
    let (state, action) = state.step(SendEvent::Created(Err(vec!["bad header".to_string()])));
    assert_eq!(state, SendState::Done);
    let error = SendError::Create { causes: vec!["bad header".to_string()] };
    assert_eq!(
        error.chain(),
        vec!["Failed to create OpenAI Responses request".to_string(), "bad header".to_string()]
    );
    assert_eq!(action, SendAction::Finish(Err(error)));

    let request = build_responses_request(&test_settings(), "predict this".to_string());
    let (state, _) = send_responses_request("a".to_string(), "k".to_string(), request);
    let (state, action) = state.step(SendEvent::Encoded(Err(vec!["not json".to_string()])));
    assert_eq!(state, SendState::Done);
    let error = SendError::Encode { causes: vec!["not json".to_string()] };
    assert_eq!(error.chain(), vec!["not json".to_string()]);
    assert_eq!(action, SendAction::Finish(Err(error)));
}

#[test]
fn request_is_sent_once() {
    let request = build_responses_request(&test_settings(), "predict this".to_string());
    let (mut state, action) = send_responses_request("a".to_string(), "k".to_string(), request);
    assert!(matches!(action, SendAction::Encode(_)));
    let response = response_summary(json("{}"));
    let events = vec![
        SendEvent::Encoded(Ok("{}".to_string())),
        SendEvent::Created(Ok(())),
        SendEvent::Sent(Ok(200)),
        SendEvent::BodyRead(Ok("{}".to_string())),
        SendEvent::Parsed(Ok(response)),
    ];
    let mut sent = Vec::new();
    for event in events {
        let (next, action) = state.step(event);
        sent.push(action == SendAction::Send);
        state = next;
    }
    assert_eq!(sent, vec![false, true, false, false, false]);
    assert_eq!(state, SendState::Done);
}

#[test]
fn send_awaits_its_events_in_order() {
    let created = SendEvent::Created(Ok(()));
    let sent = SendEvent::Sent(Ok(200));
    assert!(SendState::Creating.is_awaiting(&created));
    assert!(!SendState::Creating.is_awaiting(&sent));
    assert!(SendState::Sending.is_awaiting(&sent));
    assert!(!SendState::Done.is_awaiting(&created));
    assert!(!SendState::Done.is_awaiting(&sent));
    assert!(SendState::Reading { status: 7 }.is_awaiting(&SendEvent::BodyRead(Ok("".to_string()))));
    assert!(SendState::Parsing.is_awaiting(&SendEvent::Parsed(Err(Vec::new()))));
}

#[test]
fn extracts_output_text_from_response() {
    let response = response_summary(json(
        r#"{
            "id": "resp_123",
            "status": "completed",
            "output": [
                {
                    "type": "message",
                    "id": "msg_1",
                    "role": "assistant",
                    "content": [
                        {
                            "type": "output_text",
                            "text": "replacement",
                            "annotations": []
                        }
                    ]
                }
            ]
        }"#,
    ));

    assert_eq!(
        output_text_from_response(&response).unwrap(),
        Some("replacement".to_string())
    );
}

#[test]
fn empty_output_is_no_prediction() {
    let response = response_summary(json(
        r#"{
            "id": "resp_123",
            "status": "completed",
            "output": []
        }"#,
    ));

    assert_eq!(output_text_from_response(&response).unwrap(), None);
}

#[test]
fn malformed_or_non_message_output_is_no_prediction() {
    let response = response_summary(json(
        r#"{
            "id": "resp_123",
            "status": "completed",
            "output": [
                {
                    "type": "function_call",
                    "name": "tool",
                    "arguments": "{}"
                },
                {
                    "type": "message",
                    "id": "msg_1",
                    "role": "assistant",
                    "content": [
                        { "type": "refusal", "refusal": "no" },
                        { "type": "output_text", "text": 1 }
                    ]
                }
            ]
        }"#,
    ));

    assert_eq!(output_text_from_response(&response).unwrap(), None);
}

#[test]
fn failed_response_is_error() {
    let response = response_summary(json(
        r#"{
            "id": "resp_123",
            "status": "failed",
            "error": {
                "message": "model unavailable"
            },
            "output": []
        }"#,
    ));

    assert!(output_text_from_response(&response)
        .unwrap_err()
        .message()
        .contains("model unavailable"));
}

#[test]
fn incomplete_response_is_error() {
    let response = response_summary(json(
        r#"{
            "id": "resp_123",
            "status": "incomplete",
            "incomplete_details": {
                "reason": "max_output_tokens"
            },
            "output": []
        }"#,
    ));

    assert!(output_text_from_response(&response)
        .unwrap_err()
        .message()
        .contains("max_output_tokens"));
}

#[test]
fn error_without_details_is_unknown() {
    let response = response_summary(json(r#"{ "status": "failed" }"#));
    let error = output_text_from_response(&response).unwrap_err();
    assert_eq!(error, ResponseStatusError::Failed { message: "unknown error".to_string() });
    assert_eq!(error.message(), "OpenAI Responses request failed: unknown error");

    let response = response_summary(json(r#"{ "status": "incomplete" }"#));
    let error = output_text_from_response(&response).unwrap_err();
    assert_eq!(error, ResponseStatusError::Incomplete { reason: "unknown reason".to_string() });
    assert_eq!(error.message(), "OpenAI Responses request incomplete: unknown reason");

    let response =
        response_summary(json(r#"{ "status": "incomplete", "incomplete_details": {} }"#));
    let error = output_text_from_response(&response).unwrap_err();
    assert_eq!(error, ResponseStatusError::Incomplete { reason: "unknown reason".to_string() });
}

#[test]
fn failed_response_is_error_whatever_its_output() {
    let response = response_summary(json(
        r#"{
            "status": "failed",
            "output": [
                {
                    "type": "message",
                    "content": [{ "type": "output_text", "text": "kept back" }]
                }
            ]
        }"#,
    ));
    assert!(output_text_from_response(&response).is_err());
}

#[test]
fn texts_are_joined_in_order() {
    let response = response_summary(json(
        r#"{
            "output": [
                { "type": "reasoning" },
                {
                    "type": "message",
                    "content": [
                        { "type": "output_text", "text": "one " },
                        { "type": "output_text" },
                        { "text": "unmarked" },
                        "output_text",
                        ["output_text"],
                        null,
                        { "type": ["output_text"], "text": "marked by a list" },
                        { "type": "output_text", "text": "two " }
                    ]
                },
                { "type": "function_call" },
                { "type": "message", "content": [] },
                { "type": "message", "content": [{ "type": "output_text", "text": "thrée" }] }
            ]
        }"#,
    ));
    assert_eq!(
        output_text_from_response(&response).unwrap(),
        Some("one two thr\u{e9}e".to_string())
    );
}

#[test]
fn other_statuses_are_no_error() {
    for status in ["completed", "in_progress", "Failed", "failed ", ""] {
        let response = ResponseSummary {
            id: None,
            status: Some(status.to_string()),
            error: Some(ResponseError { message: "ignored".to_string() }),
            incomplete_details: None,
            output: Vec::new(),
        };
        assert_eq!(output_text_from_response(&response), Ok(None));
    }
}

#[test]
fn only_output_text_counts() {
    assert_eq!(output_text_part(Some("output_text"), Some("a")), Some("a"));
    assert_eq!(output_text_part(Some("output_text"), None), None);
    assert_eq!(output_text_part(Some("refusal"), Some("a")), None);
    assert_eq!(output_text_part(None, Some("a")), None);
}
