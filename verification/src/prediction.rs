//! The course of an edit prediction.
//!
//! A prediction alternates between work of the host (it formats the prompt,
//! sends the request, parses the model's output, reads the buffer) and
//! decisions. The decisions are made here: the host tells what came of its work
//! and gets told what to do next.

use core::ops::Range;
use vstd::pervasive::unreached;
use vstd::prelude::*;
use vstd::string::*;

use crate::api_key::{load_open_ai_api_key_if_needed, ApiKeyEntity, App};
use crate::error::{PredictionError, ResponseStatusError, SendError};
use crate::request::{build_responses_request, Request};
use crate::response::{output_text_from_response, ResponseSummary};
use crate::settings::OpenAiEditPredictionSettings;
use crate::text::terminate_line;

verus! {

/// What the model's output stands for.
#[derive(Debug, PartialEq, Eq)]
pub struct ParsedOutput {
    /// The new text of the region that may be edited.
    pub new_editable_region: String,
    /// Where that region lies, counted from the start of the excerpt.
    pub range_in_excerpt: Range<usize>,
    /// Where the cursor belongs, counted from the start of the new text.
    pub cursor_offset_in_new_editable_region: Option<usize>,
}

/// The host's buffer that is being edited.
#[derive(Clone, Copy, Debug, PartialEq, Eq, Structural)]
pub struct BufferEntity {
    pub id: u64,
}

/// The host's place in a buffer, which keeps its place while the buffer is
/// edited.
#[derive(Clone, Copy, Debug, PartialEq, Eq, Structural)]
pub struct Anchor {
    pub id: u64,
}

/// What a prediction is asked for.
#[derive(Clone, Copy, Debug, PartialEq, Eq, Structural)]
pub struct EditPredictionModelInput {
    /// The buffer to predict an edit of.
    pub buffer: BufferEntity,
    /// Where the cursor is.
    pub position: Anchor,
    /// Whether somebody watches.
    pub debug: bool,
}

/// A note for whoever watches predictions.
#[derive(Debug, PartialEq, Eq)]
pub enum DebugEvent {
    EditPredictionStarted { buffer: BufferEntity, prompt: Option<String>, position: Anchor },
    EditPredictionFinished { buffer: BufferEntity, model_output: Option<String>, position: Anchor },
}

/// Why there is no edit to show.
#[derive(Clone, Copy, Debug, PartialEq, Eq, Structural)]
pub enum EditPredictionRejectReason {
    /// The model wrote nothing.
    Empty,
}

/// What a predicted edit is made from: the difference of two texts.
#[derive(Debug, PartialEq, Eq)]
pub struct PredictedEdit {
    /// The buffer that is to be edited.
    pub buffer: BufferEntity,
    /// What the buffer holds in the region, as whole lines.
    pub old_text: String,
    /// What the region is to hold, as whole lines.
    pub new_text: String,
    /// Where the region lies in the buffer.
    pub editable_range: Range<usize>,
    /// Where the cursor belongs, counted from the start of the new text.
    pub cursor_offset: Option<usize>,
}

/// What a prediction comes to.
#[derive(Debug, PartialEq, Eq)]
pub struct EditPredictionResult {
    pub id: String,
    pub prediction: Result<PredictedEdit, EditPredictionRejectReason>,
    pub model_version: Option<String>,
    /// How long the model's answer took to arrive and to be parsed, in
    /// nanoseconds.
    pub e2e_latency: u128,
}

/// How far a prediction has come.
#[derive(Debug, PartialEq, Eq)]
pub enum PredictionState {
    /// The prompt is being formatted.
    FormattingPrompt {
        input: EditPredictionModelInput,
        settings: OpenAiEditPredictionSettings,
        api_key: String,
    },
    /// The prompt is there, and the beginning of the answer is being looked up.
    ReadingPrefill {
        input: EditPredictionModelInput,
        settings: OpenAiEditPredictionSettings,
        api_key: String,
        request_start: u128,
        excerpt_start: usize,
        prompt: String,
    },
    /// The response is awaited.
    AwaitingResponse {
        input: EditPredictionModelInput,
        request_start: u128,
        excerpt_start: usize,
        prefill: String,
    },
    /// The model's output is being parsed.
    ParsingOutput {
        input: EditPredictionModelInput,
        request_id: String,
        request_start: u128,
        excerpt_start: usize,
    },
    /// The text that the edit would replace is being read.
    ReadingBuffer {
        input: EditPredictionModelInput,
        request_id: String,
        new_text: String,
        editable_range: Range<usize>,
        cursor_offset: Option<usize>,
        e2e_latency: u128,
    },
    /// There is nothing left to do.
    Done,
}

/// What the host did. A failure is told in words, each followed by its cause,
/// and a time in nanoseconds of a clock that the host keeps.
#[derive(Debug, PartialEq)]
pub enum PredictionEvent {
    /// When the host began, where the excerpt lies in the buffer, and the
    /// prompt, if the excerpt has one.
    PromptFormatted {
        request_start: u128,
        full_context_offset_range: Range<usize>,
        prompt: Option<String>,
    },
    /// The beginning of the answer, which the model is only to continue.
    PrefillRead(String),
    /// What came of the request, and when.
    Responded { outcome: Result<ResponseSummary, SendError>, now: u128 },
    /// What the model's output stands for, and when that was known.
    OutputParsed { parsed: Result<ParsedOutput, Vec<String>>, now: u128 },
    /// What the buffer holds in the region.
    OldTextRead(String),
}

/// What the host is to do next. A note is passed on before the rest is done.
#[derive(Debug, PartialEq)]
pub enum PredictionAction {
    /// Look up the beginning of the answer.
    ReadPrefill,
    /// Send this request to this address with this key.
    Send { note: Option<DebugEvent>, api_url: String, api_key: String, request: Request },
    /// Parse this output of the model.
    ParseOutput { note: Option<DebugEvent>, output: String },
    /// Read this part of the buffer.
    ReadBuffer { range: Range<usize> },
    /// Return this.
    Finish {
        note: Option<DebugEvent>,
        result: Result<Option<EditPredictionResult>, PredictionError>,
    },
}

/// Whether `note` tells that a prediction for `input` began with `prompt`, or
/// nothing where nobody watches.
pub open spec fn notes_start(
    note: Option<DebugEvent>,
    input: EditPredictionModelInput,
    prompt: Seq<char>,
) -> bool {
    if input.debug {
        &&& note matches Some(
            DebugEvent::EditPredictionStarted { buffer, prompt: Some(told), position },
        )
        &&& buffer == input.buffer
        &&& told@ == prompt
        &&& position == input.position
    } else {
        note is None
    }
}

/// Whether `note` tells that the model wrote `output` for `input`, which is
/// empty if it wrote nothing, or nothing where nobody watches.
pub open spec fn notes_finish(
    note: Option<DebugEvent>,
    input: EditPredictionModelInput,
    output: Seq<char>,
) -> bool {
    if input.debug {
        &&& note matches Some(
            DebugEvent::EditPredictionFinished { buffer, model_output, position },
        )
        &&& buffer == input.buffer
        &&& match model_output {
            Some(told) => told@ == output && output.len() > 0,
            None => output.len() == 0,
        }
        &&& position == input.position
    } else {
        note is None
    }
}

impl EditPredictionResult {
    /// Whether this says of the prediction `id`, which took `latency`, that the
    /// model wrote nothing.
    pub open spec fn rejects_as_empty(self, id: Seq<char>, latency: u128) -> bool {
        &&& self.id@ == id
        &&& self.prediction == Err::<PredictedEdit, _>(EditPredictionRejectReason::Empty)
        &&& self.model_version is None
        &&& self.e2e_latency == latency
    }

    /// Whether this says of the prediction `id`, which took `latency`, that
    /// `old_text`, which stands at `range` in `buffer`, is to become `new_text`,
    /// both as whole lines.
    pub open spec fn predicts(
        self,
        id: Seq<char>,
        buffer: BufferEntity,
        old_text: Seq<char>,
        new_text: Seq<char>,
        range: Range<usize>,
        cursor_offset: Option<usize>,
        latency: u128,
    ) -> bool {
        &&& self.id@ == id
        &&& self.prediction matches Ok(edit)
        &&& edit.buffer == buffer
        &&& edit.old_text@ == crate::text::line_terminated(old_text)
        &&& edit.new_text@ == crate::text::line_terminated(new_text)
        &&& edit.editable_range == range
        &&& edit.cursor_offset == cursor_offset
        &&& self.model_version is None
        &&& self.e2e_latency == latency
    }
}

/// Whether `range` lies in the buffer where `part` lies in an excerpt that
/// starts at `excerpt_start`.
pub open spec fn is_shifted(range: Range<usize>, part: Range<usize>, excerpt_start: usize) -> bool {
    &&& range.start == part.start + excerpt_start
    &&& range.end == part.end + excerpt_start
}

/// The time from `start` to `now`, or none where the clock went back.
pub open spec fn time_since(start: u128, now: u128) -> u128 {
    if now >= start {
        (now - start) as u128
    } else {
        0
    }
}

/// Whether the response to a request that the model was to continue from
/// `prefill` takes a prediction to `next` and calls for `action`.
pub open spec fn goes_on_response(
    input: EditPredictionModelInput,
    request_start: u128,
    excerpt_start: usize,
    prefill: Seq<char>,
    response: ResponseSummary,
    now: u128,
    next: PredictionState,
    action: PredictionAction,
) -> bool {
    match response.id {
        None => {
            &&& next == PredictionState::Done
            &&& action matches PredictionAction::Finish {
                note: None,
                result: Err(PredictionError::MissingId),
            }
        },
        Some(id) => if response.has_status("failed"@) {
            &&& next == PredictionState::Done
            &&& action matches PredictionAction::Finish {
                note: None,
                result: Err(PredictionError::Response(ResponseStatusError::Failed { message })),
            }
            &&& message@ == response.failure_message()
        } else if response.has_status("incomplete"@) {
            &&& next == PredictionState::Done
            &&& action matches PredictionAction::Finish {
                note: None,
                result: Err(PredictionError::Response(ResponseStatusError::Incomplete { reason })),
            }
            &&& reason@ == response.incomplete_reason()
        } else {
            let text = crate::response::output_text(response.output@);
            if text.len() == 0 {
                &&& next == PredictionState::Done
                &&& action matches PredictionAction::Finish { note, result: Ok(Some(result)) }
                &&& notes_finish(note, input, text)
                &&& result.rejects_as_empty(id@, time_since(request_start, now))
            } else {
                &&& next == (PredictionState::ParsingOutput {
                    input,
                    request_id: id,
                    request_start,
                    excerpt_start,
                })
                &&& action matches PredictionAction::ParseOutput { note, output }
                &&& notes_finish(note, input, text)
                &&& output@ == prefill + text
            }
        },
    }
}

impl PredictionState {
    /// Whether `event` is what the state waits for. The region of a parsed
    /// output has to lie where a buffer can reach.
    pub open spec fn awaits(self, event: PredictionEvent) -> bool {
        match (self, event) {
            (
                PredictionState::FormattingPrompt { .. },
                PredictionEvent::PromptFormatted { .. },
            ) => true,
            (PredictionState::ReadingPrefill { .. }, PredictionEvent::PrefillRead(_)) => true,
            (PredictionState::AwaitingResponse { .. }, PredictionEvent::Responded { .. }) => true,
            (
                PredictionState::ParsingOutput { excerpt_start, .. },
                PredictionEvent::OutputParsed { parsed: Ok(parsed), .. },
            ) => {
                &&& parsed.range_in_excerpt.start + excerpt_start <= usize::MAX
                &&& parsed.range_in_excerpt.end + excerpt_start <= usize::MAX
            },
            (
                PredictionState::ParsingOutput { .. },
                PredictionEvent::OutputParsed { parsed: Err(_), .. },
            ) => true,
            (PredictionState::ReadingBuffer { .. }, PredictionEvent::OldTextRead(_)) => true,
            _ => false,
        }
    }

    /// Whether `event` takes this state to `next` and calls for `action`.
    pub open spec fn goes(
        self,
        event: PredictionEvent,
        next: PredictionState,
        action: PredictionAction,
    ) -> bool {
        match (self, event) {
            (
                PredictionState::FormattingPrompt { .. },
                PredictionEvent::PromptFormatted { prompt: None, .. },
            ) => {
                &&& next == PredictionState::Done
                &&& action matches PredictionAction::Finish { note: None, result: Ok(None) }
            },
            (
                PredictionState::FormattingPrompt { input, settings, api_key },
                PredictionEvent::PromptFormatted {
                    request_start,
                    full_context_offset_range,
                    prompt: Some(prompt),
                },
            ) => {
                &&& next == (PredictionState::ReadingPrefill {
                    input,
                    settings,
                    api_key,
                    request_start,
                    excerpt_start: full_context_offset_range.start,
                    prompt,
                })
                &&& action == PredictionAction::ReadPrefill
            },
            (
                PredictionState::ReadingPrefill {
                    input,
                    settings,
                    api_key,
                    request_start,
                    excerpt_start,
                    prompt,
                },
                PredictionEvent::PrefillRead(prefill),
            ) => {
                &&& next == (PredictionState::AwaitingResponse {
                    input,
                    request_start,
                    excerpt_start,
                    prefill,
                })
                &&& action matches PredictionAction::Send {
                    note,
                    api_url: address,
                    api_key: key,
                    request,
                }
                &&& notes_start(note, input, prompt@ + prefill@)
                &&& address == settings.api_url
                &&& key == api_key
                &&& request.asks(settings, prompt@ + prefill@)
            },
            (
                PredictionState::AwaitingResponse { .. },
                PredictionEvent::Responded { outcome: Err(error), .. },
            ) => {
                &&& next == PredictionState::Done
                &&& action matches PredictionAction::Finish { note: None, result: Err(failure) }
                &&& failure == PredictionError::Send(error)
            },
            (
                PredictionState::AwaitingResponse { input, request_start, excerpt_start, prefill },
                PredictionEvent::Responded { outcome: Ok(response), now },
            ) => goes_on_response(
                input,
                request_start,
                excerpt_start,
                prefill@,
                response,
                now,
                next,
                action,
            ),
            (
                PredictionState::ParsingOutput { .. },
                PredictionEvent::OutputParsed { parsed: Err(causes), .. },
            ) => {
                &&& next == PredictionState::Done
                &&& action == (PredictionAction::Finish {
                    note: None,
                    result: Err(PredictionError::ParseOutput { causes }),
                })
            },
            (
                PredictionState::ParsingOutput { input, request_id, request_start, excerpt_start },
                PredictionEvent::OutputParsed { parsed: Ok(parsed), now },
            ) => {
                &&& action matches PredictionAction::ReadBuffer { range }
                &&& is_shifted(range, parsed.range_in_excerpt, excerpt_start)
                &&& next == (PredictionState::ReadingBuffer {
                    input,
                    request_id,
                    new_text: parsed.new_editable_region,
                    editable_range: range,
                    cursor_offset: parsed.cursor_offset_in_new_editable_region,
                    e2e_latency: time_since(request_start, now),
                })
            },
            (
                PredictionState::ReadingBuffer {
                    input,
                    request_id,
                    new_text,
                    editable_range,
                    cursor_offset,
                    e2e_latency,
                },
                PredictionEvent::OldTextRead(old_text),
            ) => {
                &&& next == PredictionState::Done
                &&& action matches PredictionAction::Finish {
                    note: None,
                    result: Ok(Some(result)),
                }
                &&& result.predicts(
                    request_id@,
                    input.buffer,
                    old_text@,
                    new_text@,
                    editable_range,
                    cursor_offset,
                    e2e_latency,
                )
            },
            _ => false,
        }
    }

    /// Whether `event` is what the state waits for.
    pub fn is_awaiting(&self, event: &PredictionEvent) -> (awaited: bool)
        ensures
            awaited == self.awaits(*event),
    {
        match (self, event) {
            (
                PredictionState::FormattingPrompt { .. },
                PredictionEvent::PromptFormatted { .. },
            ) => true,
            (PredictionState::ReadingPrefill { .. }, PredictionEvent::PrefillRead(_)) => true,
            (PredictionState::AwaitingResponse { .. }, PredictionEvent::Responded { .. }) => true,
            (
                PredictionState::ParsingOutput { excerpt_start, .. },
                PredictionEvent::OutputParsed { parsed: Ok(parsed), .. },
            ) => {
                let room: usize = usize::MAX - *excerpt_start;
                parsed.range_in_excerpt.start <= room && parsed.range_in_excerpt.end <= room
            },
            (
                PredictionState::ParsingOutput { .. },
                PredictionEvent::OutputParsed { parsed: Err(_), .. },
            ) => true,
            (PredictionState::ReadingBuffer { .. }, PredictionEvent::OldTextRead(_)) => true,
            _ => false,
        }
    }

    /// Takes notice of `event`: the state after it, and what is to be done.
    pub fn step(self, event: PredictionEvent) -> (result: (PredictionState, PredictionAction))
        requires
            self.awaits(event),
        ensures
            self.goes(event, result.0, result.1),
    {
        match (self, event) {
            (
                PredictionState::FormattingPrompt { input, settings, api_key },
                PredictionEvent::PromptFormatted { request_start, full_context_offset_range, prompt },
            ) => match prompt {
                Some(prompt) => (
                    PredictionState::ReadingPrefill {
                        input,
                        settings,
                        api_key,
                        request_start,
                        excerpt_start: full_context_offset_range.start,
                        prompt,
                    },
                    PredictionAction::ReadPrefill,
                ),
                None => finish(Ok(None)),
            },
            (
                PredictionState::ReadingPrefill {
                    input,
                    settings,
                    api_key,
                    request_start,
                    excerpt_start,
                    prompt,
                },
                PredictionEvent::PrefillRead(prefill),
            ) => {
                let prompt = prompt.concat(prefill.as_str());
                let note = if input.debug {
                    Some(
                        DebugEvent::EditPredictionStarted {
                            buffer: input.buffer,
                            prompt: Some(prompt.clone()),
                            position: input.position,
                        },
                    )
                } else {
                    None
                };
                let request = build_responses_request(&settings, prompt);
                (
                    PredictionState::AwaitingResponse {
                        input,
                        request_start,
                        excerpt_start,
                        prefill,
                    },
                    PredictionAction::Send { note, api_url: settings.api_url, api_key, request },
                )
            },
            (
                PredictionState::AwaitingResponse { input, request_start, excerpt_start, prefill },
                PredictionEvent::Responded { outcome, now },
            ) => match outcome {
                Ok(response) => respond(
                    input,
                    request_start,
                    excerpt_start,
                    prefill,
                    response,
                    now,
                ),
                Err(error) => finish(Err(PredictionError::Send(error))),
            },
            (
                PredictionState::ParsingOutput { input, request_id, request_start, excerpt_start },
                PredictionEvent::OutputParsed { parsed: outcome, now },
            ) => match outcome {
                Ok(parsed) => {
                    let start: usize = parsed.range_in_excerpt.start + excerpt_start;
                    let end: usize = parsed.range_in_excerpt.end + excerpt_start;
                    (
                        PredictionState::ReadingBuffer {
                            input,
                            request_id,
                            new_text: parsed.new_editable_region,
                            editable_range: Range { start, end },
                            cursor_offset: parsed.cursor_offset_in_new_editable_region,
                            e2e_latency: elapsed(request_start, now),
                        },
                        PredictionAction::ReadBuffer { range: Range { start, end } },
                    )
                },
                Err(causes) => finish(Err(PredictionError::ParseOutput { causes })),
            },
            (
                PredictionState::ReadingBuffer {
                    input,
                    request_id,
                    new_text,
                    editable_range,
                    cursor_offset,
                    e2e_latency,
                },
                PredictionEvent::OldTextRead(old_text),
            ) => finish(
                Ok(
                    Some(
                        EditPredictionResult {
                            id: request_id,
                            prediction: Ok(
                                PredictedEdit {
                                    buffer: input.buffer,
                                    old_text: terminate_line(old_text),
                                    new_text: terminate_line(new_text),
                                    editable_range,
                                    cursor_offset,
                                },
                            ),
                            model_version: None,
                            e2e_latency,
                        },
                    ),
                ),
            ),
            _ => unreached(),
        }
    }
}

/// The time from `start` to `now`, or none where the clock went back.
fn elapsed(start: u128, now: u128) -> (time: u128)
    ensures
        time == time_since(start, now),
{
    if now >= start {
        now - start
    } else {
        0
    }
}

/// Ends a prediction with `result`, without a note.
fn finish(result: Result<Option<EditPredictionResult>, PredictionError>) -> (end: (
    PredictionState,
    PredictionAction,
))
    ensures
        end.0 == PredictionState::Done,
        end.1 == (PredictionAction::Finish { note: None, result }),
{
    (PredictionState::Done, PredictionAction::Finish { note: None, result })
}

/// Takes notice of the response to a request that the model was to continue
/// from `prefill`.
fn respond(
    input: EditPredictionModelInput,
    request_start: u128,
    excerpt_start: usize,
    prefill: String,
    response: ResponseSummary,
    now: u128,
) -> (end: (PredictionState, PredictionAction))
    ensures
        goes_on_response(
            input,
            request_start,
            excerpt_start,
            prefill@,
            response,
            now,
            end.0,
            end.1,
        ),
{
    let outcome = output_text_from_response(&response);
    let id = match response.id {
        Some(id) => id,
        None => return finish(Err(PredictionError::MissingId)),
    };
    let text = match outcome {
        Ok(text) => text,
        Err(error) => return finish(Err(PredictionError::Response(error))),
    };
    match text {
        Some(text) => {
            let output = prefill.concat(text.as_str());
            let note = if input.debug {
                Some(
                    DebugEvent::EditPredictionFinished {
                        buffer: input.buffer,
                        model_output: Some(text),
                        position: input.position,
                    },
                )
            } else {
                None
            };
            (
                PredictionState::ParsingOutput {
                    input,
                    request_id: id,
                    request_start,
                    excerpt_start,
                },
                PredictionAction::ParseOutput { note, output },
            )
        },
        None => {
            let note = if input.debug {
                Some(
                    DebugEvent::EditPredictionFinished {
                        buffer: input.buffer,
                        model_output: None,
                        position: input.position,
                    },
                )
            } else {
                None
            };
            let result = EditPredictionResult {
                id,
                prediction: Err(EditPredictionRejectReason::Empty),
                model_version: None,
                e2e_latency: elapsed(request_start, now),
            };
            (PredictionState::Done, PredictionAction::Finish { note, result: Ok(Some(result)) })
        },
    }
}

/// Begins a prediction. There is none without settings for the service, nor
/// without a key at hand.
///
/// The key is asked for only where there are settings. Without them none of the
/// three functions need stand a call.
pub fn request_prediction<
    N: FnOnce(String) -> ApiKeyEntity,
    L: FnOnce(ApiKeyEntity, String) -> T,
    T,
    K: FnOnce(ApiKeyEntity, String) -> Option<String>,
>(cx: &mut App, input: EditPredictionModelInput, new_entity: N, load: L, key: K) -> (start: Option<
    PredictionState,
>)
    requires
        old(cx).open_ai is Some ==> {
            &&& old(cx).may_make(new_entity)
            &&& old(cx).may_load(new_entity, load)
            &&& old(cx).may_read(load, key)
        },
    ensures
        old(cx).open_ai is None ==> start is None && *final(cx) == *old(cx),
        old(cx).open_ai matches Some(settings) ==> {
            &&& final(cx).open_ai == old(cx).open_ai
            &&& final(cx).open_ai_api_key matches Some(token)
            &&& old(cx).provides(new_entity, token)
            &&& exists|url: String, task: T|
                url@ == settings.api_url@ && #[trigger] call_ensures(load, (token, url), task)
            &&& exists|url: String, api_key: Option<String>|
                {
                    &&& url@ == settings.api_url@
                    &&& #[trigger] call_ensures(key, (token, url), api_key)
                    &&& match api_key {
                        Some(api_key) => start == Some(
                            PredictionState::FormattingPrompt { input, settings, api_key },
                        ),
                        None => start is None,
                    }
                }
        },
{
    let settings = match &cx.open_ai {
        Some(settings) => settings.clone(),
        None => return None,
    };
    match load_open_ai_api_key_if_needed(cx, new_entity, load, key) {
        Some(api_key) => Some(PredictionState::FormattingPrompt { input, settings, api_key }),
        None => None,
    }
}

} // verus!
