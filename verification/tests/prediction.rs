use open_ai_responses::api_key::{ApiKeyEntity, App};
use open_ai_responses::error::{PredictionError, ResponseStatusError, SendError};
use open_ai_responses::prediction::{
    request_prediction, Anchor, BufferEntity, DebugEvent, EditPredictionModelInput,
    EditPredictionRejectReason, EditPredictionResult, ParsedOutput, PredictedEdit, PredictionAction, PredictionEvent, PredictionState,
};
use open_ai_responses::request::build_responses_request;
use open_ai_responses::response::{
    ResponseOutputItem, ResponseOutputMessage, ResponseSummary,
};
use open_ai_responses::settings::OpenAiEditPredictionSettings;
use open_ai_responses::transport::{send_responses_request, SendAction, SendEvent};
use serde_json::Value;

fn settings() -> OpenAiEditPredictionSettings {
    OpenAiEditPredictionSettings {
        api_url: "https://api.openai.test/v1".to_string(),
        model: "gpt-test".to_string(),
        max_output_tokens: 512,
    }
}

fn input(debug: bool) -> EditPredictionModelInput {
    EditPredictionModelInput {
        buffer: BufferEntity { id: 70 },
        position: Anchor { id: 80 },
        debug,
    }
}

fn start(debug: bool) -> PredictionState {
    let mut cx = App { open_ai: Some(settings()), open_ai_api_key: None };
    request_prediction(
        &mut cx,
        input(debug),
        |_| ApiKeyEntity { id: 1 },
        |_, _| (),
        |_, _| Some("sk-test".to_string()),
    )
    .unwrap()
}

fn step(state: PredictionState, event: PredictionEvent) -> (PredictionState, PredictionAction) {
    assert!(state.is_awaiting(&event));
    state.step(event)
}

fn prompt(prompt: Option<&str>) -> PredictionEvent {
    PredictionEvent::PromptFormatted {
        request_start: 1_000,
        full_context_offset_range: 100..200,
        prompt: prompt.map(|prompt| prompt.to_string()),
    }
}

fn message(text: &str) -> ResponseOutputItem {
    let mut part = serde_json::Map::new();
    part.insert("type".to_string(), Value::from("output_text"));
    part.insert("text".to_string(), Value::from(text));
    ResponseOutputItem::Message(ResponseOutputMessage { content: vec![Value::Object(part)] })
}

fn response(id: Option<&str>, status: &str, output: Vec<ResponseOutputItem>) -> PredictionEvent {
    PredictionEvent::Responded {
        outcome: Ok(ResponseSummary {
            id: id.map(|id| id.to_string()),
            status: Some(status.to_string()),
            error: None,
            incomplete_details: None,
            output,
        }),
        now: 1_700,
    }
}

/// A prediction that awaits its response.
fn asked(debug: bool) -> PredictionState {
    let (state, _) = step(start(debug), prompt(Some("edit this: ")));
    let (state, _) = step(state, PredictionEvent::PrefillRead("<start>".to_string()));
    state
}

#[test]
fn no_prediction_without_settings() {
    let mut cx = App { open_ai: None, open_ai_api_key: None };
    let state = request_prediction(
        &mut cx,
        input(true),
        |_| -> ApiKeyEntity { panic!("an entity was made") },
        |_, _| panic!("a key was loaded"),
        |_, _| panic!("a key was read"),
    );
    assert_eq!(state, None);
    assert_eq!(cx, App { open_ai: None, open_ai_api_key: None });
}

#[test]
fn no_prediction_without_key() {
    let mut cx = App { open_ai: Some(settings()), open_ai_api_key: None };
    let state = request_prediction(
        &mut cx,
        input(true),
        |_| ApiKeyEntity { id: 3 },
        |_, _| (),
        |_, _| None,
    );
    assert_eq!(state, None);
    assert_eq!(cx.open_ai_api_key, Some(ApiKeyEntity { id: 3 }));
}

#[test]
fn no_prediction_without_prompt() {
    let (state, action) = step(start(true), prompt(None));
    assert_eq!(state, PredictionState::Done);
    assert_eq!(action, PredictionAction::Finish { note: None, result: Ok(None) });
}

#[test]
fn predicts_an_edit() {
    let (state, action) = step(start(true), prompt(Some("edit this: ")));
    assert_eq!(action, PredictionAction::ReadPrefill);

    let (state, action) = step(state, PredictionEvent::PrefillRead("<start>".to_string()));
    let asked = "edit this: <start>".to_string();
    assert_eq!(
        action,
        PredictionAction::Send {
            note: Some(DebugEvent::EditPredictionStarted {
                buffer: BufferEntity { id: 70 },
                prompt: Some(asked.clone()),
                position: Anchor { id: 80 },
            }),
            api_url: "https://api.openai.test/v1".to_string(),
            api_key: "sk-test".to_string(),
            request: build_responses_request(&settings(), asked),
        }
    );

    let output = vec![message("new "), ResponseOutputItem::Other, message("text")];
    let (state, action) = step(state, response(Some("resp_123"), "completed", output));
    assert_eq!(
        action,
        PredictionAction::ParseOutput {
            note: Some(DebugEvent::EditPredictionFinished {
                buffer: BufferEntity { id: 70 },
                model_output: Some("new text".to_string()),
                position: Anchor { id: 80 },
            }),
            output: "<start>new text".to_string(),
        }
    );

    let parsed = ParsedOutput {
        new_editable_region: "new text".to_string(),
        range_in_excerpt: 5..13,
        cursor_offset_in_new_editable_region: Some(3),
    };
    let (state, action) = step(state, PredictionEvent::OutputParsed { parsed: Ok(parsed), now: 1_900 });
    assert_eq!(action, PredictionAction::ReadBuffer { range: 105..113 });

    let (state, action) = step(state, PredictionEvent::OldTextRead("old text\n".to_string()));
    assert_eq!(state, PredictionState::Done);
    assert_eq!(
        action,
        PredictionAction::Finish {
            note: None,
            result: Ok(Some(EditPredictionResult {
                id: "resp_123".to_string(),
                prediction: Ok(PredictedEdit {
                    buffer: BufferEntity { id: 70 },
                    old_text: "old text\n".to_string(),
                    new_text: "new text\n".to_string(),
                    editable_range: 105..113,
                    cursor_offset: Some(3),
                }),
                model_version: None,
                e2e_latency: 900,
            })),
        }
    );
}

#[test]
fn nobody_watches_without_debug() {
    let (state, _) = step(start(false), prompt(Some("p")));
    let (state, action) = step(state, PredictionEvent::PrefillRead("".to_string()));
    assert!(matches!(action, PredictionAction::Send { note: None, .. }));
    let (_, action) = step(state, response(Some("r"), "completed", vec![message("x")]));
    assert_eq!(
        action,
        PredictionAction::ParseOutput { note: None, output: "x".to_string() }
    );
}

#[test]
fn empty_texts_stay_empty() {
    let state = PredictionState::ReadingBuffer {
        input: input(false),
        request_id: "r".to_string(),
        new_text: "".to_string(),
        editable_range: 4..4,
        cursor_offset: None,
        e2e_latency: 0,
    };
    let (_, action) = step(state, PredictionEvent::OldTextRead("".to_string()));
    let PredictionAction::Finish { result: Ok(Some(result)), .. } = action else {
        panic!("no result");
    };
    let edit = result.prediction.unwrap();
    assert_eq!(edit.old_text, "");
    assert_eq!(edit.new_text, "");
}

#[test]
fn response_without_text_is_rejected_as_empty() {
    let (state, action) = step(asked(true), response(Some("r"), "completed", Vec::new()));
    assert_eq!(state, PredictionState::Done);
    assert_eq!(
        action,
        PredictionAction::Finish {
            note: Some(DebugEvent::EditPredictionFinished {
                buffer: BufferEntity { id: 70 },
                model_output: None,
                position: Anchor { id: 80 },
            }),
            result: Ok(Some(EditPredictionResult {
                id: "r".to_string(),
                prediction: Err(EditPredictionRejectReason::Empty),
                model_version: None,
                e2e_latency: 700,
            })),
        }
    );
}

#[test]
fn latency_is_never_negative() {
    let state = PredictionState::ParsingOutput {
        input: input(false),
        request_id: "r".to_string(),
        request_start: 5,
        excerpt_start: 0,
    };
    let parsed = ParsedOutput {
        new_editable_region: "a".to_string(),
        range_in_excerpt: 1..2,
        cursor_offset_in_new_editable_region: None,
    };
    let (state, _) = step(state, PredictionEvent::OutputParsed { parsed: Ok(parsed), now: 4 });
    assert_eq!(
        state,
        PredictionState::ReadingBuffer {
            input: input(false),
            request_id: "r".to_string(),
            new_text: "a".to_string(),
            editable_range: 1..2,
            cursor_offset: None,
            e2e_latency: 0,
        }
    );
}

fn error_of(event: PredictionEvent) -> PredictionError {
    let (state, action) = step(asked(true), event);
    assert_eq!(state, PredictionState::Done);
    match action {
        PredictionAction::Finish { note: None, result: Err(error) } => error,
        _ => panic!("no error"),
    }
}

#[test]
fn response_without_id_is_error() {
    for status in ["completed", "failed", "incomplete"] {
        let error = error_of(response(None, status, vec![message("x")]));
        assert_eq!(error, PredictionError::MissingId);
        assert_eq!(
            error.chain(),
            vec![
                "OpenAI edit prediction failed".to_string(),
                "OpenAI Responses response missing id".to_string()
            ]
        );
    }
}

#[test]
fn uncompleted_response_is_error() {
    let error = error_of(response(Some("r"), "failed", vec![message("x")]));
    let failed = ResponseStatusError::Failed { message: "unknown error".to_string() };
    assert_eq!(error, PredictionError::Response(failed));
    assert_eq!(error.chain()[1], "OpenAI Responses request failed: unknown error");

    let error = error_of(response(Some("r"), "incomplete", vec![message("x")]));
    let incomplete = ResponseStatusError::Incomplete { reason: "unknown reason".to_string() };
    assert_eq!(error, PredictionError::Response(incomplete));
    assert_eq!(error.chain()[1], "OpenAI Responses request incomplete: unknown reason");
}

#[test]
fn failed_request_is_error() {
    let cause = SendError::Send { causes: vec!["refused".to_string(), "no route".to_string()] };
    let error = error_of(PredictionEvent::Responded { outcome: Err(cause), now: 0 });
    assert_eq!(
        error.chain(),
        vec![
            "OpenAI edit prediction failed".to_string(),
            "Failed to send OpenAI Responses request".to_string(),
            "refused".to_string(),
            "no route".to_string()
        ]
    );
}

#[test]
fn output_that_cannot_be_parsed_is_error() {
    let (state, _) = step(asked(false), response(Some("r"), "completed", vec![message("x")]));
    let event = PredictionEvent::OutputParsed { parsed: Err(vec!["no region".to_string()]), now: 0 };
    let (state, action) = step(state, event);
    assert_eq!(state, PredictionState::Done);
    let error = PredictionError::ParseOutput { causes: vec!["no region".to_string()] };
    assert_eq!(
        error.chain(),
        vec!["OpenAI edit prediction failed".to_string(), "no region".to_string()]
    );
    assert_eq!(action, PredictionAction::Finish { note: None, result: Err(error) });
}

#[test]
fn prediction_awaits_its_events_in_order() {
    assert!(!start(true).is_awaiting(&PredictionEvent::PrefillRead("".to_string())));
    assert!(!asked(true).is_awaiting(&prompt(None)));
    assert!(!PredictionState::Done.is_awaiting(&prompt(None)));
    let parsing = PredictionState::ParsingOutput {
        input: input(false),
        request_id: "r".to_string(),
        request_start: 0,
        excerpt_start: 2,
    };
    let parsed = |end: usize| {
        PredictionEvent::OutputParsed {
            parsed: Ok(ParsedOutput {
                new_editable_region: "".to_string(),
                range_in_excerpt: 0..end,
                cursor_offset_in_new_editable_region: None,
            }),
            now: 0,
        }
    };
    assert!(parsing.is_awaiting(&parsed(usize::MAX - 2)));
    assert!(!parsing.is_awaiting(&parsed(usize::MAX - 1)));
}

#[test]
fn request_of_a_prediction_goes_where_the_settings_say() {
    let (state, _) = step(start(false), prompt(Some("p")));
    let (_, action) = step(state, PredictionEvent::PrefillRead("".to_string()));
    let PredictionAction::Send { api_url, api_key, request, .. } = action else {
        panic!("nothing to send");
    };
    let (state, _) = send_responses_request(api_url, api_key, request);
    let (_, action) = state.step(SendEvent::Encoded(Ok("{}".to_string())));
    let SendAction::Create(request) = action else {
        panic!("nothing to make up");
    };
    assert_eq!(request.uri, "https://api.openai.test/v1/responses");
    assert_eq!(request.headers[1].value, "Bearer sk-test");
    assert_eq!(request.body, "{}");
}

/// The actions of a prediction, without the notes that they pass on.
fn actions_without_notes(debug: bool) -> Vec<PredictionAction> {
    let parsed = ParsedOutput {
        new_editable_region: "b".to_string(),
        range_in_excerpt: 0..1,
        cursor_offset_in_new_editable_region: None,
    };
    let events = vec![
        prompt(Some("p")),
        PredictionEvent::PrefillRead("q".to_string()),
        response(Some("r"), "completed", vec![message("x")]),
        PredictionEvent::OutputParsed { parsed: Ok(parsed), now: 2_000 },
        PredictionEvent::OldTextRead("a".to_string()),
    ];
    let mut state = start(debug);
    let mut actions = Vec::new();
    for event in events {
        let (next, mut action) = step(state, event);
        match &mut action {
            PredictionAction::Send { note, .. } => {
                assert_eq!(note.take().is_some(), debug);
            }
            PredictionAction::ParseOutput { note, .. } => {
                assert_eq!(note.take().is_some(), debug);
            }
            PredictionAction::Finish { note, .. } => assert_eq!(note.take(), None),
            _ => {}
        }
        actions.push(action);
        state = next;
    }
    assert_eq!(state, PredictionState::Done);
    actions
}

#[test]
fn watching_changes_nothing_but_the_notes() {
    assert_eq!(actions_without_notes(true), actions_without_notes(false));
}
