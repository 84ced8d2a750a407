//! What holds of the library as a whole.

use vstd::prelude::*;

use crate::api_key::{ApiKeyEntity, App};
use crate::error::{PredictionError, ResponseStatusError, SendError};
use crate::prediction::{DebugEvent, EditPredictionModelInput, EditPredictionResult, PredictionAction, PredictionEvent, PredictionState};
use crate::request::Request;
use crate::response::{ResponseOutputItem, ResponseSummary};
use crate::settings::OpenAiEditPredictionSettings;
use crate::transport::{SendAction, SendEvent, SendState};

verus! {

/// Removing the characters `c` at the end of a text removes those and no
/// others, and all of them.
pub proof fn law_without_trailing(text: Seq<char>, c: char)
    ensures
        crate::text::without_trailing(text, c).is_prefix_of(text),
        forall|i: int|
            crate::text::without_trailing(text, c).len() <= i < text.len() ==> #[trigger] text[i]
                == c,
        crate::text::without_trailing(text, c).len() > 0 ==> crate::text::without_trailing(
            text,
            c,
        ).last() != c,
    decreases text.len(),
{
    if text.len() > 0 && text.last() == c {
        law_without_trailing(text.drop_last(), c);
        assert forall|i: int|
            crate::text::without_trailing(text, c).len() <= i < text.len() implies #[trigger] text[i]
            == c by {
            if i < text.len() - 1 {
                assert(text.drop_last()[i] == c);
            }
        }
    }
}

/// Further characters `c` at the end of a text do not change what is left once
/// they are removed.
pub proof fn law_trailing_do_not_matter(text: Seq<char>, tail: Seq<char>, c: char)
    requires
        forall|i: int| 0 <= i < tail.len() ==> #[trigger] tail[i] == c,
    ensures
        crate::text::without_trailing(text + tail, c) == crate::text::without_trailing(text, c),
    decreases tail.len(),
{
    if tail.len() == 0 {
        assert(text + tail =~= text);
    } else {
        assert((text + tail).last() == tail[tail.len() - 1]);
        assert((text + tail).drop_last() =~= text + tail.drop_last());
        assert forall|i: int| 0 <= i < tail.drop_last().len() implies #[trigger] tail.drop_last()[i]
            == c by {
            assert(tail[i] == c);
        }
        law_trailing_do_not_matter(text, tail.drop_last(), c);
    }
}

/// Slashes after the address of the service do not change where requests go.
pub proof fn law_trailing_slashes_do_not_matter(api_url: Seq<char>, slashes: Seq<char>)
    requires
        forall|i: int| 0 <= i < slashes.len() ==> #[trigger] slashes[i] == '/',
    ensures
        crate::transport::responses_uri_text(api_url + slashes)
            == crate::transport::responses_uri_text(api_url),
{
    law_trailing_do_not_matter(api_url, slashes, '/');
}

/// Requests go to the path `/responses` right below an address that does not
/// end with a slash.
pub proof fn law_requests_go_below_the_address(api_url: Seq<char>)
    requires
        api_url.len() > 0 ==> api_url.last() != '/',
    ensures
        crate::transport::responses_uri_text(api_url) == api_url + "/responses"@,
{
}

/// White space after a text does not change what is left of it once the white
/// space at its end is removed.
proof fn lemma_trimmed_end(text: Seq<char>, tail: Seq<char>)
    requires
        crate::text::is_blank(tail),
    ensures
        crate::text::trimmed_end(text + tail) == crate::text::trimmed_end(text),
    decreases tail.len(),
{
    if tail.len() == 0 {
        assert(text + tail =~= text);
    } else {
        assert((text + tail).last() == tail[tail.len() - 1]);
        assert((text + tail).drop_last() =~= text + tail.drop_last());
        lemma_trimmed_end(text, tail.drop_last());
    }
}

/// White space before a text does not change what is left of it once the white
/// space at its start is removed.
proof fn lemma_trimmed_start(head: Seq<char>, text: Seq<char>)
    requires
        crate::text::is_blank(head),
    ensures
        crate::text::trimmed_start(head + text) == crate::text::trimmed_start(text),
    decreases head.len(),
{
    if head.len() == 0 {
        assert(head + text =~= text);
    } else {
        assert((head + text).first() == head[0]);
        assert((head + text).drop_first() =~= head.drop_first() + text);
        assert forall|i: int| 0 <= i < head.drop_first().len() implies
            crate::text::is_white_space_char(#[trigger] head.drop_first()[i]) by {
            assert(head.drop_first()[i] == head[i + 1]);
        }
        lemma_trimmed_start(head.drop_first(), text);
    }
}

/// Removing the white space at the end of a text removes white space only, and
/// all of it.
proof fn lemma_trimmed_end_parts(text: Seq<char>) -> (tail: Seq<char>)
    ensures
        crate::text::is_blank(tail),
        text == crate::text::trimmed_end(text) + tail,
        crate::text::trimmed_end(text).len() > 0 ==> !crate::text::is_white_space_char(
            crate::text::trimmed_end(text).last(),
        ),
    decreases text.len(),
{
    if text.len() > 0 && crate::text::is_white_space_char(text.last()) {
        let rest = lemma_trimmed_end_parts(text.drop_last());
        let tail = rest.push(text.last());
        assert(text =~= text.drop_last().push(text.last()));
        assert(text =~= crate::text::trimmed_end(text) + tail);
        tail
    } else {
        assert(text =~= text + Seq::<char>::empty());
        Seq::empty()
    }
}

/// Removing the white space at the start of a text removes white space only,
/// and all of it.
proof fn lemma_trimmed_start_parts(text: Seq<char>) -> (head: Seq<char>)
    ensures
        crate::text::is_blank(head),
        text == head + crate::text::trimmed_start(text),
        crate::text::trimmed_start(text).len() > 0 ==> !crate::text::is_white_space_char(
            crate::text::trimmed_start(text).first(),
        ),
    decreases text.len(),
{
    if text.len() > 0 && crate::text::is_white_space_char(text.first()) {
        let rest = lemma_trimmed_start_parts(text.drop_first());
        let head = seq![text.first()] + rest;
        assert forall|i: int| 0 <= i < head.len() implies crate::text::is_white_space_char(
            #[trigger] head[i],
        ) by {
            if i > 0 {
                assert(head[i] == rest[i - 1]);
            }
        }
        assert(text =~= seq![text.first()] + text.drop_first());
        assert(text =~= head + crate::text::trimmed_start(text));
        head
    } else {
        assert(text =~= Seq::<char>::empty() + text);
        Seq::empty()
    }
}

/// Trimming a text removes white space around it and nothing else, and what is
/// left neither starts nor ends with white space.
pub proof fn law_trimmed(text: Seq<char>)
    ensures
        exists|head: Seq<char>, tail: Seq<char>|
            {
                &&& text == #[trigger] (head + crate::text::trimmed(text) + tail)
                &&& crate::text::is_blank(head)
                &&& crate::text::is_blank(tail)
            },
        crate::text::trimmed(text).len() > 0 ==> {
            &&& !crate::text::is_white_space_char(crate::text::trimmed(text).first())
            &&& !crate::text::is_white_space_char(crate::text::trimmed(text).last())
        },
{
    let tail = lemma_trimmed_end_parts(text);
    let body = crate::text::trimmed_end(text);
    let head = lemma_trimmed_start_parts(body);
    assert(text == head + crate::text::trimmed(text) + tail);
    assert(crate::text::trimmed(text).len() > 0 ==> crate::text::trimmed(text).last()
        == body.last());
}

/// A blank text is trimmed to nothing.
proof fn lemma_trimmed_blank(text: Seq<char>)
    requires
        crate::text::is_blank(text),
    ensures
        crate::text::trimmed_end(text) == Seq::<char>::empty(),
{
    lemma_trimmed_end(Seq::empty(), text);
    assert(Seq::<char>::empty() + text =~= text);
}

/// White space around the API key does not change the credentials.
pub proof fn law_white_space_around_the_key_does_not_matter(
    head: Seq<char>,
    api_key: Seq<char>,
    tail: Seq<char>,
)
    requires
        crate::text::is_blank(head),
        crate::text::is_blank(tail),
    ensures
        crate::transport::authorization_text(head + api_key + tail)
            == crate::transport::authorization_text(api_key),
{
    lemma_trimmed_end(head + api_key, tail);
    let key_tail = lemma_trimmed_end_parts(api_key);
    let body = crate::text::trimmed_end(api_key);
    assert(head + api_key =~= (head + body) + key_tail);
    lemma_trimmed_end(head + body, key_tail);
    if body.len() > 0 {
        assert((head + body).last() == body.last());
        assert(crate::text::trimmed_end(head + body) == head + body);
        lemma_trimmed_start(head, body);
    } else {
        assert(head + body =~= head);
        lemma_trimmed_blank(head);
    }
}

/// Ending a text with a line feed keeps the text, adds one line feed at most,
/// changes nothing the second time, leaves the empty text empty, and makes
/// every other text end with a line feed.
pub proof fn law_line_terminated(text: Seq<char>)
    ensures
        text.is_prefix_of(crate::text::line_terminated(text)),
        crate::text::line_terminated(text).len() <= text.len() + 1,
        crate::text::line_terminated(crate::text::line_terminated(text))
            == crate::text::line_terminated(text),
        crate::text::line_terminated(text).len() == 0 <==> text.len() == 0,
        text.len() > 0 ==> crate::text::line_terminated(text).last() == '\n',
{
}

/// Where an entity for the key is held, it is the one that is found, and none
/// is made: what would make another need not stand a single call.
pub proof fn law_held_entity_is_found<N: FnOnce(String) -> ApiKeyEntity>(
    cx: App,
    entity: ApiKeyEntity,
    new_entity: N,
    token: ApiKeyEntity,
)
    requires
        cx.open_ai_api_key == Some(entity),
        cx.provides(new_entity, token),
    ensures
        token == entity,
        cx.may_make(new_entity),
{
}

/// A request determines what was asked: the prompt, the model and the limit.
pub proof fn law_request_determines_prompt(
    request: Request,
    settings: OpenAiEditPredictionSettings,
    prompt: Seq<char>,
    other_settings: OpenAiEditPredictionSettings,
    other_prompt: Seq<char>,
)
    requires
        request.asks(settings, prompt),
        request.asks(other_settings, other_prompt),
    ensures
        prompt == other_prompt,
        settings.model@ == other_settings.model@,
        settings.max_output_tokens == other_settings.max_output_tokens,
{
}

/// What is asked does not depend on the address of the service.
pub proof fn law_request_ignores_address(
    request: Request,
    settings: OpenAiEditPredictionSettings,
    other: OpenAiEditPredictionSettings,
    prompt: Seq<char>,
)
    requires
        request.asks(settings, prompt),
        settings.model@ == other.model@,
        settings.max_output_tokens == other.max_output_tokens,
    ensures
        request.asks(other, prompt),
{
}

/// The text of an output is that of its first part followed by that of the
/// rest, wherever it is divided.
pub proof fn law_output_text_concatenates(
    first: Seq<ResponseOutputItem>,
    rest: Seq<ResponseOutputItem>,
)
    ensures
        crate::response::output_text(first + rest) == crate::response::output_text(first)
            + crate::response::output_text(rest),
{
    let f = crate::response::item_text();
    assert((first + rest).map_values(f) =~= first.map_values(f) + rest.map_values(f));
    vstd::seq_lib::lemma_flatten_concat(first.map_values(f), rest.map_values(f));
}

/// The text of an output that has a single item is the text of that item.
proof fn lemma_output_text_of_one(item: ResponseOutputItem)
    ensures
        crate::response::output_text(seq![item]) == crate::response::item_text()(item),
{
    seq![item].lemma_flat_map_singleton(crate::response::item_text());
}

/// An item that is not a message, wherever it stands, adds nothing to the text.
pub proof fn law_other_items_do_not_matter(
    first: Seq<ResponseOutputItem>,
    rest: Seq<ResponseOutputItem>,
)
    ensures
        crate::response::output_text(first + seq![ResponseOutputItem::Other] + rest)
            == crate::response::output_text(first + rest),
{
    law_output_text_concatenates(first + seq![ResponseOutputItem::Other], rest);
    law_output_text_concatenates(first, seq![ResponseOutputItem::Other]);
    law_output_text_concatenates(first, rest);
    lemma_output_text_of_one(ResponseOutputItem::Other);
    assert(crate::response::output_text(first) + Seq::<char>::empty()
        =~= crate::response::output_text(first));
}

/// A part of a message that is not marked as output text, or whose text is not
/// a string, adds nothing, wherever it stands in the message.
pub proof fn law_other_parts_do_not_matter(
    first: Seq<serde_json::Value>,
    part: serde_json::Value,
    rest: Seq<serde_json::Value>,
)
    requires
        ({
            let members = crate::json::json_string_members(part);
            ||| !members.contains_key("type"@)
            ||| members["type"@] != "output_text"@
            ||| !members.contains_key("text"@)
        }),
    ensures
        (first + seq![part] + rest).flat_map(crate::response::content_text()) == (first
            + rest).flat_map(crate::response::content_text()),
{
    let f = crate::response::content_text();
    assert((first + seq![part] + rest).map_values(f) =~= first.map_values(f) + seq![
        Seq::<char>::empty(),
    ] + rest.map_values(f));
    assert((first + rest).map_values(f) =~= first.map_values(f) + rest.map_values(f));
    let nothing: Seq<Seq<char>> = seq![Seq::empty()];
    vstd::seq_lib::lemma_flatten_concat(first.map_values(f) + nothing, rest.map_values(f));
    vstd::seq_lib::lemma_flatten_concat(first.map_values(f), nothing);
    vstd::seq_lib::lemma_flatten_concat(first.map_values(f), rest.map_values(f));
    nothing.lemma_flatten_one_element();
    assert(first.map_values(f).flatten() + Seq::<char>::empty() =~= first.map_values(f).flatten());
}

/// The words of an error that the service reports end with what the service
/// says of it.
pub proof fn law_status_error_tells_the_reason(error: ResponseStatusError)
    ensures
        match error {
            ResponseStatusError::Failed { message } => message@.is_suffix_of(error.message_text()),
            ResponseStatusError::Incomplete { reason } => reason@.is_suffix_of(
                error.message_text(),
            ),
        },
{
}

/// Whether `events` take a prediction through `states`, calling for `actions`.
pub open spec fn is_prediction_run(
    states: Seq<PredictionState>,
    events: Seq<PredictionEvent>,
    actions: Seq<PredictionAction>,
) -> bool {
    &&& states.len() == events.len() + 1
    &&& actions.len() == events.len()
    &&& forall|i: int|
        #![trigger events[i]]
        0 <= i < events.len() ==> states[i].awaits(events[i]) && states[i].goes(
            events[i],
            states[i + 1],
            actions[i],
        )
}

/// How many events a prediction that did not end early has seen.
pub open spec fn stage(state: PredictionState) -> int {
    match state {
        PredictionState::FormattingPrompt { .. } => 0,
        PredictionState::ReadingPrefill { .. } => 1,
        PredictionState::AwaitingResponse { .. } => 2,
        PredictionState::ParsingOutput { .. } => 3,
        PredictionState::ReadingBuffer { .. } => 4,
        PredictionState::Done => 5,
    }
}

/// The note that an action passes on.
pub open spec fn note_of(action: PredictionAction) -> Option<DebugEvent> {
    match action {
        PredictionAction::Send { note, .. } => note,
        PredictionAction::ParseOutput { note, .. } => note,
        PredictionAction::Finish { note, .. } => note,
        _ => None,
    }
}

/// A prediction goes through its stages one by one and in order until it is
/// done, and is done after five events at most. Nothing comes after that.
pub proof fn law_prediction_advances(
    states: Seq<PredictionState>,
    events: Seq<PredictionEvent>,
    actions: Seq<PredictionAction>,
)
    requires
        is_prediction_run(states, events, actions),
        states[0] is FormattingPrompt,
    ensures
        events.len() <= 5,
        forall|i: int|
            0 <= i < states.len() ==> stage(#[trigger] states[i]) == i || (states[i] is Done && i
                == states.len() - 1),
    decreases events.len(),
{
    if events.len() > 0 {
        let n = events.len() - 1;
        assert forall|i: int|
            #![trigger events.drop_last()[i]]
            0 <= i < events.drop_last().len() implies states.drop_last()[i].awaits(
            events.drop_last()[i],
        ) && states.drop_last()[i].goes(
            events.drop_last()[i],
            states.drop_last()[i + 1],
            actions.drop_last()[i],
        ) by {
            assert(events[i] == events.drop_last()[i]);
        }
        law_prediction_advances(states.drop_last(), events.drop_last(), actions.drop_last());
        assert(states.drop_last()[n] == states[n]);
        assert(states[n].awaits(events[n]));
        assert forall|i: int| 0 <= i < states.len() implies stage(#[trigger] states[i]) == i || (
        states[i] is Done && i == states.len() - 1) by {
            if i <= n {
                assert(states.drop_last()[i] == states[i]);
            }
        }
    }
}

/// A prediction sends one request at most: the second action of a prediction
/// that gets that far, and no other, is to send.
pub proof fn law_one_request(
    states: Seq<PredictionState>,
    events: Seq<PredictionEvent>,
    actions: Seq<PredictionAction>,
    i: int,
)
    requires
        is_prediction_run(states, events, actions),
        states[0] is FormattingPrompt,
        0 <= i < actions.len(),
    ensures
        actions[i] is Send <==> i == 1,
{
    law_prediction_advances(states, events, actions);
    assert(states[i].awaits(events[i]));
    assert(stage(states[i]) == i);
}

/// A prediction returns once: exactly the last action of a prediction that is
/// done is to finish.
pub proof fn law_one_result(
    states: Seq<PredictionState>,
    events: Seq<PredictionEvent>,
    actions: Seq<PredictionAction>,
    i: int,
)
    requires
        is_prediction_run(states, events, actions),
        states[0] is FormattingPrompt,
        0 <= i < actions.len(),
    ensures
        actions[i] is Finish <==> i == actions.len() - 1 && states.last() is Done,
{
    law_prediction_advances(states, events, actions);
    assert(states[i].awaits(events[i]));
    assert(stage(states[i]) == i);
    assert(states[i + 1] is Done <==> actions[i] is Finish);
}

/// Notes are passed on only where somebody watches: one with the request, that
/// the prediction started, and one with the step after a response that is no
/// error, that it finished. Both name the buffer and the position that the
/// prediction was asked for.
pub proof fn law_notes(
    states: Seq<PredictionState>,
    events: Seq<PredictionEvent>,
    actions: Seq<PredictionAction>,
    input: EditPredictionModelInput,
    settings: OpenAiEditPredictionSettings,
    api_key: String,
    i: int,
)
    requires
        is_prediction_run(states, events, actions),
        states[0] == (PredictionState::FormattingPrompt { input, settings, api_key }),
        0 <= i < actions.len(),
    ensures
        !input.debug ==> note_of(actions[i]) is None,
        input.debug ==> match note_of(actions[i]) {
            Some(DebugEvent::EditPredictionStarted { buffer, position, .. }) => {
                &&& i == 1
                &&& buffer == input.buffer
                &&& position == input.position
            },
            Some(DebugEvent::EditPredictionFinished { buffer, position, .. }) => {
                &&& i == 2
                &&& buffer == input.buffer
                &&& position == input.position
                &&& !(actions[i] matches PredictionAction::Finish { result: Err(_), .. })
            },
            None => i != 1 && (i == 2 ==> (actions[i] matches PredictionAction::Finish {
                result: Err(_),
                ..
            })),
        },
{
    law_prediction_advances(states, events, actions);
    assert(states[i].awaits(events[i]));
    assert(stage(states[i]) == i);
    if i >= 1 {
        assert(states[0].awaits(events[0]));
        assert(stage(states[1]) == 1);
        if i >= 2 {
            assert(states[1].awaits(events[1]));
            assert(stage(states[2]) == 2);
        }
    }
}

/// The state as it would be if nobody watched.
pub open spec fn unwatched(state: PredictionState) -> PredictionState {
    match state {
        PredictionState::FormattingPrompt { input, settings, api_key } => {
            let input = EditPredictionModelInput { debug: false, ..input };
            PredictionState::FormattingPrompt { input, settings, api_key }
        },
        PredictionState::ReadingPrefill {
            input,
            settings,
            api_key,
            request_start,
            excerpt_start,
            prompt,
        } => {
            let input = EditPredictionModelInput { debug: false, ..input };
            PredictionState::ReadingPrefill {
                input,
                settings,
                api_key,
                request_start,
                excerpt_start,
                prompt,
            }
        },
        PredictionState::AwaitingResponse { input, request_start, excerpt_start, prefill } => {
            let input = EditPredictionModelInput { debug: false, ..input };
            PredictionState::AwaitingResponse { input, request_start, excerpt_start, prefill }
        },
        PredictionState::ParsingOutput { input, request_id, request_start, excerpt_start } => {
            let input = EditPredictionModelInput { debug: false, ..input };
            PredictionState::ParsingOutput { input, request_id, request_start, excerpt_start }
        },
        PredictionState::ReadingBuffer {
            input,
            request_id,
            new_text,
            editable_range,
            cursor_offset,
            e2e_latency,
        } => {
            let input = EditPredictionModelInput { debug: false, ..input };
            PredictionState::ReadingBuffer {
                input,
                request_id,
                new_text,
                editable_range,
                cursor_offset,
                e2e_latency,
            }
        },
        PredictionState::Done => PredictionState::Done,
    }
}

/// Whether two results say the same.
pub open spec fn same_result(left: EditPredictionResult, right: EditPredictionResult) -> bool {
    &&& left.id@ == right.id@
    &&& match (left.prediction, right.prediction) {
        (Ok(edit), Ok(other)) => {
            &&& edit.buffer == other.buffer
            &&& edit.old_text@ == other.old_text@
            &&& edit.new_text@ == other.new_text@
            &&& edit.editable_range == other.editable_range
            &&& edit.cursor_offset == other.cursor_offset
        },
        (Err(reason), Err(other)) => reason == other,
        _ => false,
    }
    &&& left.model_version is None && right.model_version is None
    &&& left.e2e_latency == right.e2e_latency
}

/// Whether two errors say the same.
pub open spec fn same_error(left: PredictionError, right: PredictionError) -> bool {
    match (left, right) {
        (
            PredictionError::Response(ResponseStatusError::Failed { message }),
            PredictionError::Response(ResponseStatusError::Failed { message: other }),
        ) => message@ == other@,
        (
            PredictionError::Response(ResponseStatusError::Incomplete { reason }),
            PredictionError::Response(ResponseStatusError::Incomplete { reason: other }),
        ) => reason@ == other@,
        _ => left == right,
    }
}

/// Whether two actions call for the same, up to the note that they pass on. The
/// requests that they send ask for the same.
pub open spec fn same_but_for_the_note(left: PredictionAction, right: PredictionAction) -> bool {
    match (left, right) {
        (PredictionAction::ReadPrefill, PredictionAction::ReadPrefill) => true,
        (
            PredictionAction::Send { api_url, api_key, request, .. },
            PredictionAction::Send { api_url: other_url, api_key: other_key, request: other, .. },
        ) => {
            &&& api_url == other_url
            &&& api_key == other_key
            &&& exists|settings: OpenAiEditPredictionSettings, prompt: Seq<char>|
                #[trigger] request.asks(settings, prompt) && other.asks(settings, prompt)
        },
        (
            PredictionAction::ParseOutput { output, .. },
            PredictionAction::ParseOutput { output: other, .. },
        ) => output@ == other@,
        (
            PredictionAction::ReadBuffer { range },
            PredictionAction::ReadBuffer { range: other },
        ) => range == other,
        (
            PredictionAction::Finish { result, .. },
            PredictionAction::Finish { result: other, .. },
        ) => match (result, other) {
            (Ok(Some(result)), Ok(Some(other))) => same_result(result, other),
            (Ok(None), Ok(None)) => true,
            (Err(error), Err(other)) => same_error(error, other),
            _ => false,
        },
        _ => false,
    }
}

/// Being watched changes neither the request that a prediction sends nor
/// anything else that it does, but for the notes: two predictions that see the
/// same events and begin alike, but for being watched, call for the same.
pub proof fn law_watching_changes_nothing(
    states: Seq<PredictionState>,
    actions: Seq<PredictionAction>,
    other_states: Seq<PredictionState>,
    other_actions: Seq<PredictionAction>,
    events: Seq<PredictionEvent>,
    i: int,
)
    requires
        is_prediction_run(states, events, actions),
        is_prediction_run(other_states, events, other_actions),
        unwatched(states[0]) == unwatched(other_states[0]),
        0 <= i < events.len(),
    ensures
        unwatched(states[i + 1]) == unwatched(other_states[i + 1]),
        same_but_for_the_note(actions[i], other_actions[i]),
    decreases i,
{
    if i > 0 {
        law_watching_changes_nothing(
            states,
            actions,
            other_states,
            other_actions,
            events,
            i - 1,
        );
    }
    assert(states[i].awaits(events[i]));
    assert(other_states[i].awaits(events[i]));
}

/// What a prediction that sees all five events comes to.
///
/// The request asks for an answer to the prompt followed by the prefill. The
/// answer is parsed as the prefill followed by the text of the response. The
/// region of the parsed output is read from the buffer, where the excerpt
/// starts. The result has the id of the response and speaks of the text read
/// and of the text parsed, both as whole lines.
pub proof fn law_prediction_of_an_edit(
    states: Seq<PredictionState>,
    events: Seq<PredictionEvent>,
    actions: Seq<PredictionAction>,
    input: EditPredictionModelInput,
    settings: OpenAiEditPredictionSettings,
    api_key: String,
)
    requires
        is_prediction_run(states, events, actions),
        states[0] == (PredictionState::FormattingPrompt { input, settings, api_key }),
        events.len() == 5,
    ensures
        ({
            &&& events[0] matches PredictionEvent::PromptFormatted {
                request_start,
                full_context_offset_range,
                prompt: Some(prompt),
            }
            &&& events[1] matches PredictionEvent::PrefillRead(prefill)
            &&& actions[1] matches PredictionAction::Send { api_url, api_key: key, request, .. }
            &&& api_url@ == settings.api_url@
            &&& key@ == api_key@
            &&& request.asks(settings, prompt@ + prefill@)
            &&& events[2] matches PredictionEvent::Responded { outcome: Ok(response), .. }
            &&& !response.has_status("failed"@)
            &&& !response.has_status("incomplete"@)
            &&& response.id matches Some(id)
            &&& crate::response::output_text(response.output@).len() > 0
            &&& actions[2] matches PredictionAction::ParseOutput { output, .. }
            &&& output@ == prefill@ + crate::response::output_text(response.output@)
            &&& events[3] matches PredictionEvent::OutputParsed { parsed: Ok(parsed), now }
            &&& actions[3] matches PredictionAction::ReadBuffer { range }
            &&& crate::prediction::is_shifted(
                range,
                parsed.range_in_excerpt,
                full_context_offset_range.start,
            )
            &&& events[4] matches PredictionEvent::OldTextRead(old_text)
            &&& actions[4] matches PredictionAction::Finish { result: Ok(Some(result)), .. }
            &&& result.predicts(
                id@,
                input.buffer,
                old_text@,
                parsed.new_editable_region@,
                range,
                parsed.cursor_offset_in_new_editable_region,
                crate::prediction::time_since(request_start, now),
            )
        }),
{
    law_prediction_advances(states, events, actions);
    assert(states[0].awaits(events[0]));
    assert(stage(states[1]) == 1);
    assert(states[1].awaits(events[1]));
    assert(stage(states[2]) == 2);
    assert(states[2].awaits(events[2]));
    assert(stage(states[3]) == 3);
    assert(states[3].awaits(events[3]));
    assert(stage(states[4]) == 4);
    assert(states[4].awaits(events[4]));
}

/// What a response brings that completed but holds no text: the prediction ends
/// without an error, under the id of the response, and is rejected as empty.
pub proof fn law_no_text_is_an_empty_prediction(
    states: Seq<PredictionState>,
    events: Seq<PredictionEvent>,
    actions: Seq<PredictionAction>,
    request_start: u128,
    response: ResponseSummary,
    id: String,
    now: u128,
)
    requires
        is_prediction_run(states, events, actions),
        states[0] is FormattingPrompt,
        events.len() >= 3,
        events[0] matches PredictionEvent::PromptFormatted { request_start: start, .. } && start
            == request_start,
        events[2] == (PredictionEvent::Responded { outcome: Ok(response), now }),
        response.id == Some(id),
        !response.has_status("failed"@),
        !response.has_status("incomplete"@),
        crate::response::output_text(response.output@).len() == 0,
    ensures
        events.len() == 3,
        actions[2] matches PredictionAction::Finish { result: Ok(Some(result)), .. }
            && result.rejects_as_empty(
            id@,
            crate::prediction::time_since(request_start, now),
        ),
{
    law_prediction_advances(states, events, actions);
    assert(states[0].awaits(events[0]));
    assert(stage(states[1]) == 1);
    assert(states[1].awaits(events[1]));
    assert(stage(states[2]) == 2);
    assert(states[2].awaits(events[2]));
    assert(states[3] is Done);
}

/// A prediction ends in an error for these reasons and no others: the request
/// failed, or the response has no id, failed or is incomplete, or the model's
/// output could not be parsed.
pub proof fn law_errors_of_a_prediction(
    states: Seq<PredictionState>,
    events: Seq<PredictionEvent>,
    actions: Seq<PredictionAction>,
    i: int,
)
    requires
        is_prediction_run(states, events, actions),
        states[0] is FormattingPrompt,
        0 <= i < actions.len(),
    ensures
        (actions[i] matches PredictionAction::Finish { result: Err(_), .. }) <==> match events[i] {
            PredictionEvent::Responded { outcome: Err(_), .. } => true,
            PredictionEvent::Responded { outcome: Ok(response), .. } => response.id is None || response.has_status(
                "failed"@,
            ) || response.has_status("incomplete"@),
            PredictionEvent::OutputParsed { parsed: Err(_), .. } => true,
            _ => false,
        },
{
    assert(states[i].awaits(events[i]));
}

/// A prediction comes to nothing, without an error, exactly if there is no
/// prompt.
pub proof fn law_no_prompt_is_no_prediction(
    states: Seq<PredictionState>,
    events: Seq<PredictionEvent>,
    actions: Seq<PredictionAction>,
    i: int,
)
    requires
        is_prediction_run(states, events, actions),
        0 <= i < actions.len(),
    ensures
        (actions[i] matches PredictionAction::Finish { result: Ok(None), .. }) <==> (
        events[i] matches PredictionEvent::PromptFormatted { prompt: None, .. }),
{
    assert(states[i].awaits(events[i]));
}

/// Whether `events` take a request through `states`, calling for `actions`.
pub open spec fn is_send_run(
    states: Seq<SendState>,
    events: Seq<SendEvent>,
    actions: Seq<SendAction>,
) -> bool {
    &&& states.len() == events.len() + 1
    &&& actions.len() == events.len()
    &&& forall|i: int|
        #![trigger events[i]]
        0 <= i < events.len() ==> states[i].awaits(events[i]) && states[i].goes(
            events[i],
            states[i + 1],
            actions[i],
        )
}

/// How many events a request that did not fail has seen.
pub open spec fn send_stage(state: SendState) -> int {
    match state {
        SendState::Encoding { .. } => 0,
        SendState::Creating => 1,
        SendState::Sending => 2,
        SendState::Reading { .. } => 3,
        SendState::Parsing => 4,
        SendState::Done => 5,
    }
}

/// A request goes through its stages one by one and in order until it is done,
/// and is done after five events at most. Nothing comes after that.
pub proof fn law_send_advances(
    states: Seq<SendState>,
    events: Seq<SendEvent>,
    actions: Seq<SendAction>,
)
    requires
        is_send_run(states, events, actions),
        states[0] is Encoding,
    ensures
        events.len() <= 5,
        forall|i: int|
            0 <= i < states.len() ==> send_stage(#[trigger] states[i]) == i || (states[i] is Done
                && i == states.len() - 1),
    decreases events.len(),
{
    if events.len() > 0 {
        let n = events.len() - 1;
        assert forall|i: int|
            #![trigger events.drop_last()[i]]
            0 <= i < events.drop_last().len() implies states.drop_last()[i].awaits(
            events.drop_last()[i],
        ) && states.drop_last()[i].goes(
            events.drop_last()[i],
            states.drop_last()[i + 1],
            actions.drop_last()[i],
        ) by {
            assert(events[i] == events.drop_last()[i]);
        }
        law_send_advances(states.drop_last(), events.drop_last(), actions.drop_last());
        assert(states.drop_last()[n] == states[n]);
        assert(states[n].awaits(events[n]));
        assert forall|i: int| 0 <= i < states.len() implies send_stage(#[trigger] states[i]) == i
            || (states[i] is Done && i == states.len() - 1) by {
            if i <= n {
                assert(states.drop_last()[i] == states[i]);
            }
        }
    }
}

/// A request is sent once at most: the second action of a request that gets
/// that far, and no other, is to send.
pub proof fn law_one_transmission(
    states: Seq<SendState>,
    events: Seq<SendEvent>,
    actions: Seq<SendAction>,
    i: int,
)
    requires
        is_send_run(states, events, actions),
        states[0] is Encoding,
        0 <= i < actions.len(),
    ensures
        actions[i] is Send ==> i == 1,
        i == 1 ==> (actions[i] is Send <==> events[i] matches SendEvent::Created(Ok(_))),
{
    law_send_advances(states, events, actions);
    assert(states[i].awaits(events[i]));
    assert(send_stage(states[i]) == i);
}

/// A response is returned exactly if every step of the way succeeds and the
/// reply has a status of success. It is the one that was decoded from the body
/// that was read, and what was sent is the encoded request, posted to the
/// service with the credentials of the key.
pub proof fn law_send_succeeds(
    states: Seq<SendState>,
    events: Seq<SendEvent>,
    actions: Seq<SendAction>,
    api_url: String,
    api_key: String,
)
    requires
        is_send_run(states, events, actions),
        states[0] == (SendState::Encoding { api_url, api_key }),
        events.len() > 0,
    ensures
        (actions.last() matches SendAction::Finish(Ok(_))) <==> {
            &&& events.len() == 5
            &&& events[4] matches SendEvent::Parsed(Ok(_))
        },
        (actions.last() matches SendAction::Finish(Ok(response)) ==> {
            &&& events[0] matches SendEvent::Encoded(Ok(body))
            &&& actions[0] matches SendAction::Create(request)
            &&& request.posts(api_url@, api_key@, body@)
            &&& events[1] matches SendEvent::Created(Ok(_))
            &&& events[2] matches SendEvent::Sent(Ok(status))
            &&& crate::transport::is_success(status)
            &&& events[3] matches SendEvent::BodyRead(Ok(reply))
            &&& actions[3] == (SendAction::Parse { body: reply })
            &&& events[4] == SendEvent::Parsed(Ok(response))
        }),
{
    law_send_advances(states, events, actions);
    let last = events.len() - 1;
    assert(states[last].awaits(events[last]));
    assert(send_stage(states[last]) == last);
    if events.len() == 5 {
        assert(states[0].awaits(events[0]));
        assert(send_stage(states[1]) == 1);
        assert(states[1].awaits(events[1]));
        assert(send_stage(states[2]) == 2);
        assert(states[2].awaits(events[2]));
        assert(send_stage(states[3]) == 3);
        assert(states[3].awaits(events[3]));
        assert(send_stage(states[4]) == 4);
        assert(states[4].awaits(events[4]));
    }
}

/// A reply whose status does not stand for success is an error that tells the
/// status and the body, and its body is never decoded. If the body could not be
/// read, that is the error, whatever the status.
pub proof fn law_unsuccessful_reply(
    states: Seq<SendState>,
    events: Seq<SendEvent>,
    actions: Seq<SendAction>,
    status: u16,
)
    requires
        is_send_run(states, events, actions),
        states[0] is Encoding,
        events.len() >= 4,
        events[2] == SendEvent::Sent(Ok(status)),
        !crate::transport::is_success(status),
    ensures
        events.len() == 4,
        events[3] matches SendEvent::BodyRead(Ok(body)) ==> actions[3] == SendAction::Finish(
            Err(SendError::Status { status, body }),
        ),
        events[3] matches SendEvent::BodyRead(Err(causes)) ==> actions[3] == SendAction::Finish(
            Err(SendError::ReadBody { causes }),
        ),
        events[3] is BodyRead,
{
    law_send_advances(states, events, actions);
    assert(send_stage(states[2]) == 2);
    assert(states[2].awaits(events[2]));
    assert(send_stage(states[3]) == 3);
    assert(states[3].awaits(events[3]));
    assert(states[4] is Done);
}

/// The HTTP request of a prediction goes to the path `/responses` below the
/// address of the settings, with the credentials of the key that the prediction
/// began with, and carries the encoded request.
pub proof fn law_request_goes_where_the_settings_say(
    states: Seq<PredictionState>,
    events: Seq<PredictionEvent>,
    actions: Seq<PredictionAction>,
    input: EditPredictionModelInput,
    settings: OpenAiEditPredictionSettings,
    api_key: String,
    address: String,
    key: String,
    body: String,
    next: SendState,
    action: SendAction,
)
    requires
        is_prediction_run(states, events, actions),
        states[0] == (PredictionState::FormattingPrompt { input, settings, api_key }),
        actions.len() > 1,
        actions[1] matches PredictionAction::Send { api_url: to, api_key: with, .. } && to
            == address && with == key,
        (SendState::Encoding { api_url: address, api_key: key }).goes(
            SendEvent::Encoded(Ok(body)),
            next,
            action,
        ),
    ensures
        action matches SendAction::Create(request) && request.posts(
            settings.api_url@,
            api_key@,
            body@,
        ),
{
    law_prediction_advances(states, events, actions);
    assert(states[0].awaits(events[0]));
    assert(stage(states[1]) == 1);
    assert(states[1].awaits(events[1]));
}

} // verus!
