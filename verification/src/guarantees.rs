//! What each operation gives, said of its inputs and its results alone.
//!
//! A law of this module speaks of whatever an operation can return: it asks that
//! the operation's contract relates the inputs to the result, and states in plain
//! terms what then holds of them.

use core::ops::Range;
use vstd::prelude::*;

use crate::api_key::{
    load_open_ai_api_key_if_needed, load_open_ai_api_token, open_ai_api_token, open_ai_api_url,
    ApiKeyEntity, App,
};
use crate::error::{PredictionError, ResponseStatusError, SendError};
use crate::prediction::{
    request_prediction, DebugEvent, EditPredictionModelInput, EditPredictionRejectReason,
    ParsedOutput, PredictionAction, PredictionEvent, PredictionState,
};
use crate::request::{
    build_responses_request, Request, ResponseInputContent, ResponseInputItem, Role,
};
use crate::response::{
    output_text_from_response, output_text_part, ResponseOutputItem, ResponseSummary,
};
use crate::settings::OpenAiEditPredictionSettings;
use crate::text::{is_white_space, number, terminate_line, trim, trim_end_matches};
use crate::transport::{
    authorization, responses_http_request, responses_uri, send_responses_request, HttpMethod,
    HttpRequest, SendAction, SendEvent, SendState,
};

verus! {

// ---------------------------------------------------------------------------
// Text

/// Whether the code point of `c` is one of the twenty-five that Unicode lists as
/// white space.
pub open spec fn is_white(c: char) -> bool {
    let code = c as int;
    ||| 9 <= code <= 13
    ||| code == 32
    ||| code == 133
    ||| code == 160
    ||| code == 5760
    ||| 8192 <= code <= 8202
    ||| code == 8232
    ||| code == 8233
    ||| code == 8239
    ||| code == 8287
    ||| code == 12288
}

/// Whether `core` is what remains of `whole` when white space, and nothing else,
/// is taken from both ends until none is left there.
pub open spec fn is_core_of(core: Seq<char>, whole: Seq<char>) -> bool {
    exists|start: int, end: int|
        {
            &&& 0 <= start <= end <= whole.len()
            &&& core == #[trigger] whole.subrange(start, end)
            &&& forall|i: int| 0 <= i < start ==> is_white(#[trigger] whole[i])
            &&& forall|i: int| end <= i < whole.len() ==> is_white(#[trigger] whole[i])
            &&& start < end ==> !is_white(whole[start]) && !is_white(whole[end - 1])
        }
}

/// Whether `rest` is what remains of `whole` when `c`, and nothing else, is
/// taken from its end until none is left there.
pub open spec fn is_stem_of(rest: Seq<char>, whole: Seq<char>, c: char) -> bool {
    &&& rest.len() <= whole.len()
    &&& rest == whole.take(rest.len() as int)
    &&& forall|i: int| rest.len() <= i < whole.len() ==> #[trigger] whole[i] == c
    &&& rest.len() > 0 ==> rest[rest.len() - 1] != c
}

/// Exactly the code points that Unicode lists as white space are white space.
pub proof fn law_white_space(c: char, white: bool)
    requires
        call_ensures(is_white_space, (c,), white),
    ensures
        white <==> is_white(c),
{
}

/// What is left once the white space at the end is removed is the stem of the
/// text before it.
proof fn lemma_trimmed_end(text: Seq<char>)
    ensures
        ({
            let end = crate::text::trimmed_end(text).len() as int;
            &&& 0 <= end <= text.len()
            &&& crate::text::trimmed_end(text) == text.take(end)
            &&& forall|i: int| end <= i < text.len() ==> is_white(#[trigger] text[i])
            &&& end > 0 ==> !is_white(text[end - 1])
        }),
    decreases text.len(),
{
    if text.len() > 0 && crate::text::is_white_space_char(text.last()) {
        lemma_trimmed_end(text.drop_last());
        let end = crate::text::trimmed_end(text).len() as int;
        assert(text.drop_last().take(end) =~= text.take(end));
        assert forall|i: int| end <= i < text.len() implies is_white(#[trigger] text[i]) by {
            if i < text.len() - 1 {
                assert(text.drop_last()[i] == text[i]);
            }
        }
    } else {
        assert(text.take(text.len() as int) =~= text);
    }
}

/// What is left once the white space at the start is removed is the text after
/// it.
proof fn lemma_trimmed_start(text: Seq<char>)
    ensures
        ({
            let start = text.len() - crate::text::trimmed_start(text).len();
            &&& 0 <= start <= text.len()
            &&& crate::text::trimmed_start(text) == text.skip(start)
            &&& forall|i: int| 0 <= i < start ==> is_white(#[trigger] text[i])
            &&& start < text.len() ==> !is_white(text[start])
        }),
    decreases text.len(),
{
    if text.len() > 0 && crate::text::is_white_space_char(text.first()) {
        lemma_trimmed_start(text.drop_first());
        let start = text.len() - crate::text::trimmed_start(text).len();
        assert(text.drop_first().skip(start - 1) =~= text.skip(start));
        assert forall|i: int| 0 <= i < start implies is_white(#[trigger] text[i]) by {
            if i > 0 {
                assert(text.drop_first()[i - 1] == text[i]);
            }
        }
        if start < text.len() {
            assert(text.drop_first()[start - 1] == text[start]);
        }
    } else {
        assert(text.skip(0) =~= text);
    }
}

/// A trimmed text is the core of the text.
proof fn lemma_trimmed(text: Seq<char>)
    ensures
        is_core_of(crate::text::trimmed(text), text),
{
    lemma_trimmed_end(text);
    let body = crate::text::trimmed_end(text);
    let end = body.len() as int;
    lemma_trimmed_start(body);
    let start = body.len() - crate::text::trimmed(text).len();
    assert(body.skip(start) =~= text.subrange(start, end));
    assert forall|i: int| 0 <= i < start implies is_white(#[trigger] text[i]) by {
        assert(body[i] == text[i]);
    }
    if start < end {
        assert(body[start] == text[start]);
    }
}

/// A text has one core.
proof fn lemma_core_is_unique(core: Seq<char>, other: Seq<char>, whole: Seq<char>)
    requires
        is_core_of(core, whole),
        is_core_of(other, whole),
    ensures
        core == other,
{
    let (s, e) = choose|start: int, end: int|
        {
            &&& 0 <= start <= end <= whole.len()
            &&& core == #[trigger] whole.subrange(start, end)
            &&& forall|i: int| 0 <= i < start ==> is_white(#[trigger] whole[i])
            &&& forall|i: int| end <= i < whole.len() ==> is_white(#[trigger] whole[i])
            &&& start < end ==> !is_white(whole[start]) && !is_white(whole[end - 1])
        };
    let (t, f) = choose|start: int, end: int|
        {
            &&& 0 <= start <= end <= whole.len()
            &&& other == #[trigger] whole.subrange(start, end)
            &&& forall|i: int| 0 <= i < start ==> is_white(#[trigger] whole[i])
            &&& forall|i: int| end <= i < whole.len() ==> is_white(#[trigger] whole[i])
            &&& start < end ==> !is_white(whole[start]) && !is_white(whole[end - 1])
        };
    if s < e {
        assert(!is_white(whole[s]) && !is_white(whole[e - 1]));
    }
    if t < f {
        assert(!is_white(whole[t]) && !is_white(whole[f - 1]));
    }
    assert(core =~= other);
}

/// Trimming takes white space, and nothing else, from both ends of a text until
/// none is left there.
pub proof fn law_trim(text: &str, rest: &str)
    requires
        call_ensures(trim, (text,), rest),
    ensures
        is_core_of(rest@, text@),
{
    lemma_trimmed(text@);
}

/// Trimming leaves a text alone that neither starts nor ends with white space,
/// however long it is.
pub proof fn law_trim_of_plain_text(text: &str, rest: &str)
    requires
        call_ensures(trim, (text,), rest),
        text@.len() > 0 ==> !is_white(text@[0]) && !is_white(text@[text@.len() - 1]),
    ensures
        rest@ == text@,
{
    law_trim(text, rest);
    assert(text@.subrange(0, text@.len() as int) =~= text@);
    lemma_core_is_unique(rest@, text@, text@);
}

/// Removing `c` from the end of a text takes it away until none is left there,
/// and takes nothing else.
pub proof fn law_trim_end_matches(text: &str, c: char, rest: &str)
    requires
        call_ensures(trim_end_matches, (text, c), rest),
    ensures
        is_stem_of(rest@, text@, c),
{
    lemma_without_trailing(text@, c);
}

/// What is left once the characters `c` at the end are removed is the stem of
/// the text.
proof fn lemma_without_trailing(text: Seq<char>, c: char)
    ensures
        is_stem_of(crate::text::without_trailing(text, c), text, c),
    decreases text.len(),
{
    if text.len() > 0 && text.last() == c {
        lemma_without_trailing(text.drop_last(), c);
        let rest = crate::text::without_trailing(text, c);
        assert(text.drop_last().take(rest.len() as int) =~= text.take(rest.len() as int));
        assert forall|i: int| rest.len() <= i < text.len() implies #[trigger] text[i] == c by {
            if i < text.len() - 1 {
                assert(text.drop_last()[i] == text[i]);
            }
        }
    } else {
        assert(text.take(text.len() as int) =~= text);
    }
}

/// Whether `line` is `text`, unchanged, with a line feed after it exactly if the
/// text is not empty and does not end with one.
pub open spec fn is_line_of(line: Seq<char>, text: Seq<char>) -> bool {
    &&& text.len() <= line.len() <= text.len() + 1
    &&& forall|i: int| 0 <= i < text.len() ==> #[trigger] line[i] == text[i]
    &&& line.len() == text.len() + 1 <==> text.len() > 0 && text[text.len() - 1] != '\n'
    &&& line.len() == text.len() + 1 ==> line[text.len() as int] == '\n'
}

/// Terminating a line keeps the text as it is and adds a line feed exactly if
/// the text is not empty and lacks one.
pub proof fn law_terminate_line(text: String, line: String)
    requires
        call_ensures(terminate_line, (text,), line),
    ensures
        is_line_of(line@, text@),
{
}

/// The number that a sequence of decimal digits stands for.
pub open spec fn digits_value(digits: Seq<char>) -> int
    decreases digits.len(),
{
    if digits.len() == 0 {
        0
    } else {
        digits_value(digits.drop_last()) * 10 + (digits.last() as int - '0' as int)
    }
}

/// Whether every character of `digits` is a decimal digit.
pub open spec fn all_digits(digits: Seq<char>) -> bool {
    forall|i: int| 0 <= i < digits.len() ==> '0' <= #[trigger] digits[i] <= '9'
}

proof fn lemma_decimal(n: nat)
    ensures
        crate::text::decimal(n).len() > 0,
        all_digits(crate::text::decimal(n)),
        digits_value(crate::text::decimal(n)) == n,
        crate::text::decimal(n)[0] == '0' ==> n == 0 && crate::text::decimal(n).len() == 1,
    decreases n,
{
    let digits = crate::text::decimal(n);
    if n < 10 {
        assert(digits.drop_last() =~= Seq::<char>::empty());
        assert(digits_value(Seq::<char>::empty()) == 0);
    } else {
        lemma_decimal(n / 10);
        assert(digits.drop_last() =~= crate::text::decimal(n / 10));
    }
}

/// A number is told in decimal digits that stand for it, without leading zeros.
pub proof fn law_number(n: u16, text: String)
    requires
        call_ensures(number, (n,), text),
    ensures
        text@.len() > 0,
        all_digits(text@),
        digits_value(text@) == n,
        text@[0] == '0' ==> text@.len() == 1,
{
    lemma_decimal(n as nat);
}

// ---------------------------------------------------------------------------
// The request

/// The text of a part of a message to the model.
pub open spec fn said() -> spec_fn(ResponseInputContent) -> Seq<char> {
    |content: ResponseInputContent|
        match content {
            ResponseInputContent::Text { text } => text@,
        }
}

/// All that is said in an item of a request's input.
pub open spec fn said_in_item() -> spec_fn(ResponseInputItem) -> Seq<char> {
    |item: ResponseInputItem|
        match item {
            ResponseInputItem::Message(message) => message.content@.flat_map(said()),
        }
}

/// Whether the input of a request is one message of the user, with one part,
/// which says `prompt`.
pub open spec fn says_once(input: Seq<ResponseInputItem>, prompt: Seq<char>) -> bool {
    &&& input.len() == 1
    &&& input[0] matches ResponseInputItem::Message(message)
    &&& message.role == Role::User
    &&& message.phase is None
    &&& message.content@.len() == 1
    &&& message.content@[0] matches ResponseInputContent::Text { text }
    &&& text@ == prompt
}

proof fn lemma_says_once(input: Seq<ResponseInputItem>, prompt: Seq<char>)
    requires
        says_once(input, prompt),
    ensures
        input.flat_map(said_in_item()) == prompt,
{
    input.lemma_flat_map_singleton(said_in_item());
    match input[0] {
        ResponseInputItem::Message(message) => {
            message.content@.lemma_flat_map_singleton(said());
        },
    }
}

/// A request holds the prompt once: its input is one message of the user with
/// one part, and all that is said in it is the prompt.
pub proof fn law_request_says_the_prompt_once(
    settings: &OpenAiEditPredictionSettings,
    prompt: String,
    request: Request,
)
    requires
        call_ensures(build_responses_request, (settings, prompt), request),
    ensures
        says_once(request.input@, prompt@),
        request.input@.flat_map(said_in_item()) == prompt@,
{
    assert(says_once(request.input@, prompt@));
    lemma_says_once(request.input@, prompt@);
}

/// Whether a request names the model and the limit of the settings, is answered
/// at once, is not stored, and chooses nothing else.
pub open spec fn follows(request: Request, settings: OpenAiEditPredictionSettings) -> bool {
    &&& request.model@ == settings.model@
    &&& request.max_output_tokens matches Some(limit)
    &&& limit == settings.max_output_tokens
    &&& request.stream == false
    &&& request.store == Some(false)
    &&& request.instructions is None
    &&& request.included@.len() == 0
    &&& request.temperature is None
    &&& request.top_p is None
    &&& request.parallel_tool_calls is None
    &&& request.tool_choice is None
    &&& request.tools@.len() == 0
    &&& request.prompt_cache_key is None
    &&& request.reasoning is None
    &&& request.service_tier is None
}

/// A request names the model and the limit of the settings, is answered at once,
/// is not stored, and chooses nothing else.
pub proof fn law_request_follows_the_settings(
    settings: &OpenAiEditPredictionSettings,
    prompt: String,
    request: Request,
)
    requires
        call_ensures(build_responses_request, (settings, prompt), request),
    ensures
        follows(request, *settings),
{
}

/// The service knows the user, a message and its text by these names.
pub proof fn law_wire_names(
    role: &Role,
    role_name: &'static str,
    item: &ResponseInputItem,
    item_kind: &'static str,
    content: &ResponseInputContent,
    content_kind: &'static str,
)
    requires
        call_ensures(Role::name, (role,), role_name),
        call_ensures(ResponseInputItem::kind, (item,), item_kind),
        call_ensures(ResponseInputContent::kind, (content,), content_kind),
    ensures
        *role == Role::User ==> role_name@ == "user"@,
        item is Message ==> item_kind@ == "message"@,
        content is Text ==> content_kind@ == "input_text"@,
{
}

// ---------------------------------------------------------------------------
// The way to the service and back

/// Whether `uri` is the path `/responses` below `api_url`, from which all
/// slashes at the end, and nothing else, are taken.
pub open spec fn is_responses_address(uri: Seq<char>, api_url: Seq<char>) -> bool {
    exists|base: Seq<char>|
        #[trigger] is_stem_of(base, api_url, '/') && uri == base + "/responses"@
}

/// Whether `value` is the word `Bearer`, a space, and the key from which the
/// white space around it, and nothing else, is taken.
pub open spec fn are_credentials(value: Seq<char>, api_key: Seq<char>) -> bool {
    exists|core: Seq<char>|
        #[trigger] is_core_of(core, api_key) && value == "Bearer "@ + core
}

/// Requests go to the path `/responses` below the address of the service, from
/// which all slashes at the end, and nothing else, are taken.
pub proof fn law_responses_uri(api_url: &str, uri: String)
    requires
        call_ensures(responses_uri, (api_url,), uri),
    ensures
        is_responses_address(uri@, api_url@),
        (api_url@.len() > 0 ==> api_url@[api_url@.len() - 1] != '/') ==> uri@ == api_url@
            + "/responses"@,
{
    lemma_without_trailing(api_url@, '/');
}

/// The credentials of a key hold the whole key, but for the white space around
/// it.
pub proof fn law_authorization(api_key: &str, value: String)
    requires
        call_ensures(authorization, (api_key,), value),
    ensures
        are_credentials(value@, api_key@),
{
    lemma_trimmed(api_key@);
}

/// The credentials of a key that neither starts nor ends with white space,
/// however long it is, are the word `Bearer`, a space, and the whole key.
pub proof fn law_authorization_of_plain_key(api_key: &str, value: String)
    requires
        call_ensures(authorization, (api_key,), value),
        api_key@.len() > 0 ==> !is_white(api_key@[0]) && !is_white(
            api_key@[api_key@.len() - 1],
        ),
    ensures
        value@ == "Bearer "@ + api_key@,
{
    lemma_trimmed(api_key@);
    assert(api_key@.subrange(0, api_key@.len() as int) =~= api_key@);
    lemma_core_is_unique(crate::text::trimmed(api_key@), api_key@, api_key@);
}

/// Whether `request` posts `body` as JSON to the path below `api_url` with the
/// credentials of `api_key`, and has no header but the two that say so.
pub open spec fn is_post_of(
    request: HttpRequest,
    api_url: Seq<char>,
    api_key: Seq<char>,
    body: Seq<char>,
) -> bool {
    &&& request.method == HttpMethod::Post
    &&& is_responses_address(request.uri@, api_url)
    &&& request.headers@.len() == 2
    &&& request.headers@[0].name@ == "Content-Type"@
    &&& request.headers@[0].value@ == "application/json"@
    &&& request.headers@[1].name@ == "Authorization"@
    &&& are_credentials(request.headers@[1].value@, api_key)
    &&& request.body@ == body
}

/// The HTTP request of a body posts that body, unchanged, to the service.
pub proof fn law_http_request(api_url: &str, api_key: &str, body: String, request: HttpRequest)
    requires
        call_ensures(responses_http_request, (api_url, api_key, body), request),
    ensures
        is_post_of(request, api_url@, api_key@, body@),
{
    lemma_without_trailing(api_url@, '/');
    lemma_trimmed(api_key@);
}

/// A request is encoded first, and no address and no key but those given are
/// kept for it.
pub proof fn law_send_begins_with_encoding(
    api_url: String,
    api_key: String,
    request: Request,
    result: (SendState, SendAction),
)
    requires
        call_ensures(send_responses_request, (api_url, api_key, request), result),
    ensures
        result.0 matches SendState::Encoding { api_url: to, api_key: with } && to == api_url && with
            == api_key,
        result.1 matches SendAction::Encode(encoded) && encoded == request,
{
}

/// The encoded request is what is posted, to the address and with the key that
/// the request began with.
pub proof fn law_encoded_request_is_posted(
    api_url: String,
    api_key: String,
    body: String,
    result: (SendState, SendAction),
)
    requires
        call_ensures(
            SendState::step,
            (SendState::Encoding { api_url, api_key }, SendEvent::Encoded(Ok(body))),
            result,
        ),
    ensures
        result.0 is Creating,
        result.1 matches SendAction::Create(request) && is_post_of(
            request,
            api_url@,
            api_key@,
            body@,
        ),
{
    lemma_without_trailing(api_url@, '/');
    lemma_trimmed(api_key@);
}

/// A request that was made up is sent, and the body of its reply is read
/// whatever the status, which is kept.
pub proof fn law_reply_is_awaited_and_read(
    created: (SendState, SendAction),
    status: u16,
    replied: (SendState, SendAction),
)
    requires
        call_ensures(
            SendState::step,
            (SendState::Creating, SendEvent::Created(Ok(()))),
            created,
        ),
        call_ensures(SendState::step, (SendState::Sending, SendEvent::Sent(Ok(status))), replied),
    ensures
        created.0 is Sending,
        created.1 is Send,
        replied.0 matches SendState::Reading { status: kept } && kept == status,
        replied.1 is ReadBody,
{
}

/// The body of a reply is decoded, unchanged, exactly if the status lies between
/// 200 and 299. With any other status the request ends in an error that tells
/// that status and that body.
pub proof fn law_body_is_decoded_only_with_success(
    status: u16,
    body: String,
    result: (SendState, SendAction),
)
    requires
        call_ensures(
            SendState::step,
            (SendState::Reading { status }, SendEvent::BodyRead(Ok(body))),
            result,
        ),
    ensures
        result.1 is Parse <==> 200 <= status <= 299,
        200 <= status <= 299 ==> {
            &&& result.0 is Parsing
            &&& result.1 matches SendAction::Parse { body: handed_on }
            &&& handed_on@ == body@
        },
        !(200 <= status <= 299) ==> {
            &&& result.0 is Done
            &&& result.1 matches SendAction::Finish(
                Err(SendError::Status { status: told, body: reply }),
            )
            &&& told == status
            &&& reply@ == body@
        },
{
}

/// A response that was decoded is what is returned, unchanged.
pub proof fn law_decoded_response_is_returned(
    response: ResponseSummary,
    result: (SendState, SendAction),
)
    requires
        call_ensures(
            SendState::step,
            (SendState::Parsing, SendEvent::Parsed(Ok(response))),
            result,
        ),
    ensures
        result.0 is Done,
        result.1 matches SendAction::Finish(Ok(returned)) && returned == response,
{
}

/// A step that failed ends the request with the error of that step, which keeps
/// the causes.
pub proof fn law_failed_step_ends_the_request(
    state: SendState,
    event: SendEvent,
    causes: Vec<String>,
    result: (SendState, SendAction),
)
    requires
        call_ensures(SendState::step, (state, event), result),
        event == SendEvent::Encoded(Err(causes)) || event == SendEvent::Created(Err(causes))
            || event == SendEvent::Sent(Err(causes)) || event == SendEvent::BodyRead(Err(causes))
            || event == SendEvent::Parsed(Err(causes)),
    ensures
        result.0 is Done,
        result.1 matches SendAction::Finish(Err(error)) && {
            &&& event is Encoded <==> error is Encode
            &&& event is Created <==> error is Create
            &&& event is Sent <==> error is Send
            &&& event is BodyRead <==> error is ReadBody
            &&& event is Parsed <==> error is Parse
            &&& match error {
                SendError::Encode { causes: told } => told == causes,
                SendError::Create { causes: told } => told == causes,
                SendError::Send { causes: told } => told == causes,
                SendError::ReadBody { causes: told } => told == causes,
                SendError::Parse { causes: told } => told == causes,
                SendError::Status { .. } => false,
            }
        },
{
}

/// Each state but the last waits for its own kind of event, whatever that event
/// holds, and stands it.
pub proof fn law_send_awaits(state: SendState, event: SendEvent, awaited: bool)
    requires
        call_ensures(SendState::is_awaiting, (&state, &event), awaited),
    ensures
        awaited <==> {
            ||| state is Encoding && event is Encoded
            ||| state is Creating && event is Created
            ||| state is Sending && event is Sent
            ||| state is Reading && event is BodyRead
            ||| state is Parsing && event is Parsed
        },
        awaited ==> call_requires(SendState::step, (state, event)),
{
}

// ---------------------------------------------------------------------------
// The response

/// What the model wrote, as a reading of a response tells it.
pub open spec fn written(result: Result<Option<String>, ResponseStatusError>) -> Seq<char> {
    match result {
        Ok(Some(text)) => text@,
        _ => Seq::empty(),
    }
}

/// Whether the service says of a response neither that it failed nor that it is
/// incomplete.
pub open spec fn is_fine(response: ResponseSummary) -> bool {
    response.status matches Some(status) ==> status@ != "failed"@ && status@ != "incomplete"@
}

/// Whether a part of a message is marked as output text and holds `text`.
pub open spec fn holds_text(part: serde_json::Value, text: Seq<char>) -> bool {
    let members = crate::json::json_string_members(part);
    &&& members.contains_key("type"@)
    &&& members["type"@] == "output_text"@
    &&& members.contains_key("text"@)
    &&& members["text"@] == text
}

/// Whether `output` is a single message that consists of `content`.
pub open spec fn is_message(output: Seq<ResponseOutputItem>, content: Seq<serde_json::Value>) -> bool {
    &&& output.len() == 1
    &&& output[0] matches ResponseOutputItem::Message(message)
    &&& message.content@ == content
}

proof fn lemma_flat_map_concat<A, B>(first: Seq<A>, rest: Seq<A>, f: spec_fn(A) -> Seq<B>)
    ensures
        (first + rest).flat_map(f) == first.flat_map(f) + rest.flat_map(f),
{
    assert((first + rest).map_values(f) =~= first.map_values(f) + rest.map_values(f));
    vstd::seq_lib::lemma_flatten_concat(first.map_values(f), rest.map_values(f));
}

proof fn lemma_flat_map_of_one<A, B>(item: A, f: spec_fn(A) -> Seq<B>)
    ensures
        seq![item].flat_map(f) == f(item),
{
    seq![item].lemma_flat_map_singleton(f);
}

/// The text of a single message is that of its content.
proof fn lemma_text_of_message(output: Seq<ResponseOutputItem>, content: Seq<serde_json::Value>)
    requires
        is_message(output, content),
    ensures
        crate::response::output_text(output) == content.flat_map(crate::response::content_text()),
{
    assert(output =~= seq![output[0]]);
    lemma_flat_map_of_one(output[0], crate::response::item_text());
}

/// What a reading of a fine response tells is the text of its output.
proof fn lemma_written(
    response: &ResponseSummary,
    result: Result<Option<String>, ResponseStatusError>,
)
    requires
        call_ensures(output_text_from_response, (response,), result),
        is_fine(*response),
    ensures
        result is Ok,
        result matches Ok(Some(text)) ==> text@.len() > 0,
        written(result) == crate::response::output_text(response.output@),
{
    assert(written(result) =~= crate::response::output_text(response.output@));
}

/// A response that is fine is never an error, and what it tells is never an
/// empty text.
pub proof fn law_fine_response_is_read(
    response: &ResponseSummary,
    result: Result<Option<String>, ResponseStatusError>,
)
    requires
        call_ensures(output_text_from_response, (response,), result),
        is_fine(*response),
    ensures
        result is Ok,
        result matches Ok(Some(text)) ==> text@.len() > 0,
{
    lemma_written(response, result);
}

/// A part that is marked as output text contributes exactly its text, whatever
/// that is: a message of that part alone is read as that text.
pub proof fn law_text_of_one_part(
    response: &ResponseSummary,
    part: serde_json::Value,
    text: Seq<char>,
    result: Result<Option<String>, ResponseStatusError>,
)
    requires
        call_ensures(output_text_from_response, (response,), result),
        is_fine(*response),
        is_message(response.output@, seq![part]),
        holds_text(part, text),
    ensures
        written(result) == text,
        text.len() > 0 ==> (result matches Ok(Some(told)) && told@ == text),
        text.len() == 0 ==> (result matches Ok(None)),
{
    lemma_written(response, result);
    lemma_text_of_message(response.output@, seq![part]);
    lemma_flat_map_of_one(part, crate::response::content_text());
}

/// A part that is not marked as output text, or whose text is no string,
/// contributes nothing: a message of that part alone is read as no text.
pub proof fn law_no_text_of_other_part(
    response: &ResponseSummary,
    part: serde_json::Value,
    result: Result<Option<String>, ResponseStatusError>,
)
    requires
        call_ensures(output_text_from_response, (response,), result),
        is_fine(*response),
        is_message(response.output@, seq![part]),
        forall|text: Seq<char>| !holds_text(part, text),
    ensures
        result matches Ok(None),
{
    lemma_written(response, result);
    lemma_text_of_message(response.output@, seq![part]);
    lemma_flat_map_of_one(part, crate::response::content_text());
    assert(!holds_text(part, crate::json::json_string_members(part)["text"@]));
}

/// The parts of a message are read one after the other: a message that consists
/// of the parts of two others is read as the text of the first followed by that
/// of the second.
pub proof fn law_parts_are_joined(
    whole: &ResponseSummary,
    first: &ResponseSummary,
    rest: &ResponseSummary,
    first_parts: Seq<serde_json::Value>,
    rest_parts: Seq<serde_json::Value>,
    whole_result: Result<Option<String>, ResponseStatusError>,
    first_result: Result<Option<String>, ResponseStatusError>,
    rest_result: Result<Option<String>, ResponseStatusError>,
)
    requires
        call_ensures(output_text_from_response, (whole,), whole_result),
        call_ensures(output_text_from_response, (first,), first_result),
        call_ensures(output_text_from_response, (rest,), rest_result),
        is_fine(*whole),
        is_fine(*first),
        is_fine(*rest),
        is_message(whole.output@, first_parts + rest_parts),
        is_message(first.output@, first_parts),
        is_message(rest.output@, rest_parts),
    ensures
        written(whole_result) == written(first_result) + written(rest_result),
{
    lemma_written(whole, whole_result);
    lemma_written(first, first_result);
    lemma_written(rest, rest_result);
    lemma_text_of_message(whole.output@, first_parts + rest_parts);
    lemma_text_of_message(first.output@, first_parts);
    lemma_text_of_message(rest.output@, rest_parts);
    lemma_flat_map_concat(first_parts, rest_parts, crate::response::content_text());
}

/// A part with a text, wherever it stands in a message, adds that text between
/// what comes before it and what comes after it.
pub proof fn law_text_of_part_within(
    whole: &ResponseSummary,
    first: &ResponseSummary,
    rest: &ResponseSummary,
    first_parts: Seq<serde_json::Value>,
    part: serde_json::Value,
    text: Seq<char>,
    rest_parts: Seq<serde_json::Value>,
    whole_result: Result<Option<String>, ResponseStatusError>,
    first_result: Result<Option<String>, ResponseStatusError>,
    rest_result: Result<Option<String>, ResponseStatusError>,
)
    requires
        call_ensures(output_text_from_response, (whole,), whole_result),
        call_ensures(output_text_from_response, (first,), first_result),
        call_ensures(output_text_from_response, (rest,), rest_result),
        is_fine(*whole),
        is_fine(*first),
        is_fine(*rest),
        is_message(whole.output@, first_parts + seq![part] + rest_parts),
        is_message(first.output@, first_parts),
        is_message(rest.output@, rest_parts),
        holds_text(part, text),
    ensures
        written(whole_result) == written(first_result) + text + written(rest_result),
{
    lemma_written(whole, whole_result);
    lemma_written(first, first_result);
    lemma_written(rest, rest_result);
    lemma_text_of_message(whole.output@, first_parts + seq![part] + rest_parts);
    lemma_text_of_message(first.output@, first_parts);
    lemma_text_of_message(rest.output@, rest_parts);
    let f = crate::response::content_text();
    lemma_flat_map_concat(first_parts + seq![part], rest_parts, f);
    lemma_flat_map_concat(first_parts, seq![part], f);
    lemma_flat_map_of_one(part, f);
}

/// The items of an output are read one after the other: an output that consists
/// of two others is read as the text of the first followed by that of the
/// second.
pub proof fn law_items_are_joined(
    whole: &ResponseSummary,
    first: &ResponseSummary,
    rest: &ResponseSummary,
    whole_result: Result<Option<String>, ResponseStatusError>,
    first_result: Result<Option<String>, ResponseStatusError>,
    rest_result: Result<Option<String>, ResponseStatusError>,
)
    requires
        call_ensures(output_text_from_response, (whole,), whole_result),
        call_ensures(output_text_from_response, (first,), first_result),
        call_ensures(output_text_from_response, (rest,), rest_result),
        is_fine(*whole),
        is_fine(*first),
        is_fine(*rest),
        whole.output@ == first.output@ + rest.output@,
    ensures
        written(whole_result) == written(first_result) + written(rest_result),
{
    lemma_written(whole, whole_result);
    lemma_written(first, first_result);
    lemma_written(rest, rest_result);
    lemma_flat_map_concat(first.output@, rest.output@, crate::response::item_text());
}

/// An output without messages is read as no text, and so is a message without
/// parts.
pub proof fn law_no_text_without_parts(
    response: &ResponseSummary,
    result: Result<Option<String>, ResponseStatusError>,
)
    requires
        call_ensures(output_text_from_response, (response,), result),
        is_fine(*response),
        forall|i: int|
            0 <= i < response.output@.len() ==> match #[trigger] response.output@[i] {
                ResponseOutputItem::Message(message) => message.content@.len() == 0,
                ResponseOutputItem::Other => true,
            },
    ensures
        result matches Ok(None),
{
    lemma_written(response, result);
    lemma_no_text_without_parts(response.output@);
}

proof fn lemma_no_text_without_parts(output: Seq<ResponseOutputItem>)
    requires
        forall|i: int|
            0 <= i < output.len() ==> match #[trigger] output[i] {
                ResponseOutputItem::Message(message) => message.content@.len() == 0,
                ResponseOutputItem::Other => true,
            },
    ensures
        crate::response::output_text(output).len() == 0,
    decreases output.len(),
{
    if output.len() > 0 {
        let last = output.last();
        assert(output =~= output.drop_last() + seq![last]);
        lemma_flat_map_concat(output.drop_last(), seq![last], crate::response::item_text());
        lemma_flat_map_of_one(last, crate::response::item_text());
        assert(last == output[output.len() - 1]);
        if let ResponseOutputItem::Message(message) = last {
            assert(message.content@ =~= Seq::<serde_json::Value>::empty());
        }
        lemma_no_text_without_parts(output.drop_last());
    }
}

/// A response that failed is an error that tells what the service says of it, or
/// that the error is unknown.
pub proof fn law_failed_response(
    response: &ResponseSummary,
    result: Result<Option<String>, ResponseStatusError>,
)
    requires
        call_ensures(output_text_from_response, (response,), result),
        response.status matches Some(status) && status@ == "failed"@,
    ensures
        result matches Err(ResponseStatusError::Failed { message }) && {
            &&& response.error matches Some(error) ==> message@ == error.message@
            &&& response.error is None ==> message@ == "unknown error"@
        },
{
}

/// A response that is incomplete is an error that tells the reason that the
/// service gives, or that the reason is unknown.
pub proof fn law_incomplete_response(
    response: &ResponseSummary,
    result: Result<Option<String>, ResponseStatusError>,
)
    requires
        call_ensures(output_text_from_response, (response,), result),
        response.status matches Some(status) && status@ == "incomplete"@,
    ensures
        result matches Err(ResponseStatusError::Incomplete { reason }) && match response.incomplete_details {
            Some(details) => match details.reason {
                Some(given) => reason@ == given@,
                None => reason@ == "unknown reason"@,
            },
            None => reason@ == "unknown reason"@,
        },
{
}

/// A part contributes the string under `text`, unchanged, if the one under
/// `type` is `output_text`, and nothing otherwise.
pub proof fn law_output_text_part<'a>(kind: Option<&str>, text: Option<&'a str>, part: Option<&'a str>)
    requires
        call_ensures(output_text_part, (kind, text), part),
    ensures
        match (kind, text, part) {
            (Some(kind), Some(text), Some(part)) => kind@ == "output_text"@ && part@ == text@,
            (Some(kind), Some(_), None) => kind@ != "output_text"@,
            (_, _, Some(_)) => false,
            _ => true,
        },
{
}

// ---------------------------------------------------------------------------
// The course of a prediction

/// Whether `note` tells a watcher, and only a watcher, that a prediction for the
/// buffer and the position of `input` began with `prompt`.
pub open spec fn tells_the_start(
    note: Option<DebugEvent>,
    input: EditPredictionModelInput,
    prompt: Seq<char>,
) -> bool {
    match note {
        Some(DebugEvent::EditPredictionStarted { buffer, prompt: Some(told), position }) => {
            &&& input.debug
            &&& buffer == input.buffer
            &&& position == input.position
            &&& told@ == prompt
        },
        Some(_) => false,
        None => !input.debug,
    }
}

/// Whether `note` tells a watcher, and only a watcher, that the model wrote
/// `output`, or nothing, for the buffer and the position of `input`.
pub open spec fn tells_the_end(
    note: Option<DebugEvent>,
    input: EditPredictionModelInput,
    output: Option<String>,
) -> bool {
    match note {
        Some(DebugEvent::EditPredictionFinished { buffer, model_output, position }) => {
            &&& input.debug
            &&& buffer == input.buffer
            &&& position == input.position
            &&& match (model_output, output) {
                (Some(told), Some(output)) => told@ == output@,
                (None, None) => true,
                _ => false,
            }
        },
        Some(_) => false,
        None => !input.debug,
    }
}

/// Whether `latency` is the time from `start` to `now`, or nothing if the clock
/// went back.
pub open spec fn is_latency(latency: u128, start: u128, now: u128) -> bool {
    &&& now >= start ==> start + latency == now
    &&& now < start ==> latency == 0
}

/// Without a prompt a prediction ends at once, without a result, an error or a
/// note. With one, the beginning of the answer is looked up, and the prompt and
/// all else is kept as it is.
pub proof fn law_prompt(
    input: EditPredictionModelInput,
    settings: OpenAiEditPredictionSettings,
    api_key: String,
    start: u128,
    range: Range<usize>,
    prompt: Option<String>,
    result: (PredictionState, PredictionAction),
)
    requires
        call_ensures(
            PredictionState::step,
            (
                PredictionState::FormattingPrompt { input, settings, api_key },
                PredictionEvent::PromptFormatted {
                    request_start: start,
                    full_context_offset_range: range,
                    prompt,
                },
            ),
            result,
        ),
    ensures
        prompt is None ==> {
            &&& result.0 is Done
            &&& result.1 matches PredictionAction::Finish { note: None, result: Ok(None) }
        },
        prompt matches Some(text) ==> {
            &&& result.1 is ReadPrefill
            &&& result.0 matches PredictionState::ReadingPrefill {
                input: kept_input,
                settings: kept_settings,
                api_key: kept_key,
                request_start,
                excerpt_start,
                prompt: kept_prompt,
            }
            &&& kept_input == input
            &&& kept_settings == settings
            &&& kept_key@ == api_key@
            &&& request_start == start
            &&& excerpt_start == range.start
            &&& kept_prompt@ == text@
        },
{
}

/// The request of a prediction goes to the address of the settings with the key
/// that the prediction began with. It says the prompt followed by the beginning
/// of the answer, once, and follows the settings. A watcher is told that very
/// text.
pub proof fn law_request_of_a_prediction(
    input: EditPredictionModelInput,
    settings: OpenAiEditPredictionSettings,
    api_key: String,
    start: u128,
    excerpt: usize,
    prompt: String,
    prefill: String,
    result: (PredictionState, PredictionAction),
)
    requires
        call_ensures(
            PredictionState::step,
            (
                PredictionState::ReadingPrefill {
                    input,
                    settings,
                    api_key,
                    request_start: start,
                    excerpt_start: excerpt,
                    prompt,
                },
                PredictionEvent::PrefillRead(prefill),
            ),
            result,
        ),
    ensures
        result.1 matches PredictionAction::Send { note, api_url, api_key: key, request } && {
            &&& api_url@ == settings.api_url@
            &&& key@ == api_key@
            &&& says_once(request.input@, prompt@ + prefill@)
            &&& request.input@.flat_map(said_in_item()) == prompt@ + prefill@
            &&& follows(request, settings)
            &&& tells_the_start(note, input, prompt@ + prefill@)
        },
        result.0 matches PredictionState::AwaitingResponse {
            input: kept_input,
            request_start,
            excerpt_start,
            prefill: kept_prefill,
        } && {
            &&& kept_input == input
            &&& request_start == start
            &&& excerpt_start == excerpt
            &&& kept_prefill@ == prefill@
        },
{
    if let PredictionAction::Send { request, .. } = result.1 {
        lemma_says_once(request.input@, prompt@ + prefill@);
    }
}

/// A request that brought back no response ends the prediction with its error.
pub proof fn law_request_without_response(
    state: PredictionState,
    error: SendError,
    now: u128,
    result: (PredictionState, PredictionAction),
)
    requires
        call_ensures(
            PredictionState::step,
            (state, PredictionEvent::Responded { outcome: Err(error), now }),
            result,
        ),
    ensures
        result.0 is Done,
        result.1 matches PredictionAction::Finish {
            note: None,
            result: Err(PredictionError::Send(told)),
        } && told == error,
{
}

/// What a response does to a prediction, by what a reading of it tells.
///
/// Without an id it is an error, whatever it tells. If the reading is an error,
/// that is the prediction's error. If it tells no text, the prediction is
/// rejected as empty under the id of the response. If it tells a text, what is
/// parsed is the beginning of the answer followed by that text. A watcher is
/// told the text, or that there is none.
pub proof fn law_response_of_a_prediction(
    input: EditPredictionModelInput,
    start: u128,
    excerpt: usize,
    prefill: String,
    response: ResponseSummary,
    now: u128,
    reading: Result<Option<String>, ResponseStatusError>,
    result: (PredictionState, PredictionAction),
)
    requires
        call_ensures(
            PredictionState::step,
            (
                PredictionState::AwaitingResponse {
                    input,
                    request_start: start,
                    excerpt_start: excerpt,
                    prefill,
                },
                PredictionEvent::Responded { outcome: Ok(response), now },
            ),
            result,
        ),
        call_ensures(output_text_from_response, (&response,), reading),
    ensures
        match (response.id, reading) {
            (None, _) => {
                &&& result.0 is Done
                &&& result.1 matches PredictionAction::Finish {
                    note: None,
                    result: Err(PredictionError::MissingId),
                }
            },
            (Some(_), Err(ResponseStatusError::Failed { message })) => {
                &&& result.0 is Done
                &&& result.1 matches PredictionAction::Finish {
                    note: None,
                    result: Err(PredictionError::Response(ResponseStatusError::Failed { message: told })),
                }
                &&& told@ == message@
            },
            (Some(_), Err(ResponseStatusError::Incomplete { reason })) => {
                &&& result.0 is Done
                &&& result.1 matches PredictionAction::Finish {
                    note: None,
                    result: Err(
                        PredictionError::Response(ResponseStatusError::Incomplete { reason: told }),
                    ),
                }
                &&& told@ == reason@
            },
            (Some(id), Ok(None)) => {
                &&& result.0 is Done
                &&& result.1 matches PredictionAction::Finish { note, result: Ok(Some(empty)) }
                &&& empty.id@ == id@
                &&& empty.prediction matches Err(EditPredictionRejectReason::Empty)
                &&& empty.model_version is None
                &&& is_latency(empty.e2e_latency, start, now)
                &&& tells_the_end(note, input, None)
            },
            (Some(id), Ok(Some(text))) => {
                &&& result.0 matches PredictionState::ParsingOutput {
                    input: kept_input,
                    request_id,
                    request_start,
                    excerpt_start,
                }
                &&& kept_input == input
                &&& request_id@ == id@
                &&& request_start == start
                &&& excerpt_start == excerpt
                &&& result.1 matches PredictionAction::ParseOutput { note, output }
                &&& output@ == prefill@ + text@
                &&& tells_the_end(note, input, Some(text))
            },
        },
{
    reveal_strlit("failed");
    reveal_strlit("incomplete");
    assert("failed"@.len() != "incomplete"@.len());
}

/// An output that could not be parsed ends the prediction with an error that
/// keeps the causes.
pub proof fn law_output_that_cannot_be_parsed(
    state: PredictionState,
    causes: Vec<String>,
    now: u128,
    result: (PredictionState, PredictionAction),
)
    requires
        call_ensures(
            PredictionState::step,
            (state, PredictionEvent::OutputParsed { parsed: Err(causes), now }),
            result,
        ),
    ensures
        result.0 is Done,
        result.1 matches PredictionAction::Finish {
            note: None,
            result: Err(PredictionError::ParseOutput { causes: told }),
        } && told == causes,
{
}

/// The region of a parsed output is read from the buffer as far behind the start
/// of the excerpt as it lies behind the start of the excerpt's text. The new
/// text, the cursor and all else is kept as it is.
pub proof fn law_region_in_the_buffer(
    input: EditPredictionModelInput,
    id: String,
    start: u128,
    excerpt: usize,
    parsed: ParsedOutput,
    now: u128,
    result: (PredictionState, PredictionAction),
)
    requires
        call_ensures(
            PredictionState::step,
            (
                PredictionState::ParsingOutput {
                    input,
                    request_id: id,
                    request_start: start,
                    excerpt_start: excerpt,
                },
                PredictionEvent::OutputParsed { parsed: Ok(parsed), now },
            ),
            result,
        ),
    ensures
        result.1 matches PredictionAction::ReadBuffer { range } && {
            &&& range.start - excerpt == parsed.range_in_excerpt.start
            &&& range.end - excerpt == parsed.range_in_excerpt.end
        },
        result.0 matches PredictionState::ReadingBuffer {
            input: kept_input,
            request_id,
            new_text,
            editable_range,
            cursor_offset,
            e2e_latency,
        } && {
            &&& kept_input == input
            &&& request_id@ == id@
            &&& new_text@ == parsed.new_editable_region@
            &&& editable_range.start - excerpt == parsed.range_in_excerpt.start
            &&& editable_range.end - excerpt == parsed.range_in_excerpt.end
            &&& cursor_offset == parsed.cursor_offset_in_new_editable_region
            &&& is_latency(e2e_latency, start, now)
        },
{
}

/// The finished edit compares the texts as they are. Its new text begins with
/// the whole of the model's region, and its old text with the whole of what the
/// buffer holds. Each is longer by one character at most, a line feed, which is
/// there exactly if the text is not empty and does not end with one.
pub proof fn law_edit_compares_the_texts(
    input: EditPredictionModelInput,
    id: String,
    new_text: String,
    range: Range<usize>,
    cursor: Option<usize>,
    latency: u128,
    old_text: String,
    result: (PredictionState, PredictionAction),
)
    requires
        call_ensures(
            PredictionState::step,
            (
                PredictionState::ReadingBuffer {
                    input,
                    request_id: id,
                    new_text,
                    editable_range: range,
                    cursor_offset: cursor,
                    e2e_latency: latency,
                },
                PredictionEvent::OldTextRead(old_text),
            ),
            result,
        ),
    ensures
        result.1 matches PredictionAction::Finish { result: Ok(Some(finished)), .. } && {
            &&& finished.prediction matches Ok(edit)
            &&& new_text@.len() <= edit.new_text@.len() <= new_text@.len() + 1
            &&& edit.new_text@.take(new_text@.len() as int) == new_text@
            &&& edit.new_text@.len() > new_text@.len() <==> new_text@.len() > 0
                && new_text@[new_text@.len() - 1] != '\n'
            &&& edit.new_text@.len() > new_text@.len() ==> edit.new_text@[new_text@.len() as int]
                == '\n'
            &&& old_text@.len() <= edit.old_text@.len() <= old_text@.len() + 1
            &&& edit.old_text@.take(old_text@.len() as int) == old_text@
            &&& edit.old_text@.len() > old_text@.len() <==> old_text@.len() > 0
                && old_text@[old_text@.len() - 1] != '\n'
            &&& edit.old_text@.len() > old_text@.len() ==> edit.old_text@[old_text@.len() as int]
                == '\n'
        },
{
    if let PredictionAction::Finish { result: Ok(Some(finished)), .. } = result.1 {
        if let Ok(edit) = finished.prediction {
            assert(edit.new_text@.take(new_text@.len() as int) =~= new_text@);
            assert(edit.old_text@.take(old_text@.len() as int) =~= old_text@);
        }
    }
}

/// The finished edit has the id, the buffer, the region, the cursor and the
/// latency that the prediction came to, and no version of the model.
pub proof fn law_edit_keeps_its_place(
    input: EditPredictionModelInput,
    id: String,
    new_text: String,
    range: Range<usize>,
    cursor: Option<usize>,
    latency: u128,
    old_text: String,
    result: (PredictionState, PredictionAction),
)
    requires
        call_ensures(
            PredictionState::step,
            (
                PredictionState::ReadingBuffer {
                    input,
                    request_id: id,
                    new_text,
                    editable_range: range,
                    cursor_offset: cursor,
                    e2e_latency: latency,
                },
                PredictionEvent::OldTextRead(old_text),
            ),
            result,
        ),
    ensures
        result.0 is Done,
        result.1 matches PredictionAction::Finish { note: None, result: Ok(Some(finished)) } && {
            &&& finished.id@ == id@
            &&& finished.model_version is None
            &&& finished.e2e_latency == latency
            &&& finished.prediction matches Ok(edit)
            &&& edit.buffer == input.buffer
            &&& edit.editable_range.start == range.start
            &&& edit.editable_range.end == range.end
            &&& edit.cursor_offset == cursor
        },
{
}

/// Each state but the last waits for its own kind of event, whatever that event
/// holds, and stands it. The one exception is a region that no buffer can reach.
pub proof fn law_prediction_awaits(state: PredictionState, event: PredictionEvent, awaited: bool)
    requires
        call_ensures(PredictionState::is_awaiting, (&state, &event), awaited),
    ensures
        awaited <==> {
            ||| state is FormattingPrompt && event is PromptFormatted
            ||| state is ReadingPrefill && event is PrefillRead
            ||| state is AwaitingResponse && event is Responded
            ||| match (state, event) {
                (
                    PredictionState::ParsingOutput { excerpt_start, .. },
                    PredictionEvent::OutputParsed { parsed, .. },
                ) => parsed matches Ok(parsed) ==> {
                    &&& excerpt_start + parsed.range_in_excerpt.start <= usize::MAX
                    &&& excerpt_start + parsed.range_in_excerpt.end <= usize::MAX
                },
                _ => false,
            }
            ||| state is ReadingBuffer && event is OldTextRead
        },
        awaited ==> call_requires(PredictionState::step, (state, event)),
{
}

// ---------------------------------------------------------------------------
// Errors

/// Whether `list` says `words` first, one after the other, and then what
/// `causes` say, and nothing else.
pub open spec fn says_then(list: Seq<String>, words: Seq<Seq<char>>, causes: Seq<String>) -> bool {
    &&& list.len() == words.len() + causes.len()
    &&& forall|i: int| 0 <= i < words.len() ==> (#[trigger] list[i])@ == words[i]
    &&& forall|i: int|
        0 <= i < causes.len() ==> list[words.len() + i]@ == (#[trigger] causes[i])@
}

proof fn lemma_says_then(list: Seq<String>, words: Seq<Seq<char>>, causes: Seq<String>)
    requires
        crate::error::texts(list) == words + crate::error::texts(causes),
    ensures
        says_then(list, words, causes),
{
    let whole = crate::error::texts(list);
    assert(whole.len() == list.len());
    assert forall|i: int| 0 <= i < words.len() implies (#[trigger] list[i])@ == words[i] by {
        assert(whole[i] == list[i]@);
    }
    assert forall|i: int| 0 <= i < causes.len() implies list[words.len() + i]@ == (
    #[trigger] causes[i])@ by {
        assert(whole[words.len() + i] == list[words.len() + i]@);
        assert(crate::error::texts(causes)[i] == causes[i]@);
    }
}

/// What the service reports is told after the words that say that the request
/// failed, or that it is incomplete.
pub proof fn law_words_of_status_error(error: &ResponseStatusError, text: String)
    requires
        call_ensures(ResponseStatusError::message, (error,), text),
    ensures
        match *error {
            ResponseStatusError::Failed { message } => text@ == "OpenAI Responses request failed: "@
                + message@,
            ResponseStatusError::Incomplete { reason } => text@
                == "OpenAI Responses request incomplete: "@ + reason@,
        },
{
}

/// An error of a request tells which step failed, and then each of its causes.
/// That of an unsuccessful reply tells the status, in decimal digits, and the
/// body.
pub proof fn law_words_of_send_error(error: &SendError, chain: Vec<String>)
    requires
        call_ensures(SendError::chain, (error,), chain),
    ensures
        match *error {
            SendError::Encode { causes } => says_then(chain@, seq![], causes@),
            SendError::Create { causes } => says_then(
                chain@,
                seq!["Failed to create OpenAI Responses request"@],
                causes@,
            ),
            SendError::Send { causes } => says_then(
                chain@,
                seq!["Failed to send OpenAI Responses request"@],
                causes@,
            ),
            SendError::ReadBody { causes } => says_then(
                chain@,
                seq!["Failed to read OpenAI Responses response body"@],
                causes@,
            ),
            SendError::Parse { causes } => says_then(
                chain@,
                seq!["Failed to parse OpenAI Responses response"@],
                causes@,
            ),
            SendError::Status { status, body } => {
                &&& chain@.len() == 1
                &&& exists|digits: Seq<char>|
                    {
                        &&& chain@[0]@ == "OpenAI Responses request failed with status: "@ + digits
                            + "\nBody: "@ + body@
                        &&& digits.len() > 0
                        &&& #[trigger] all_digits(digits)
                        &&& digits_value(digits) == status
                        &&& digits[0] == '0' ==> digits.len() == 1
                    }
            },
        },
{
    match *error {
        SendError::Encode { causes } => {
            assert(Seq::<Seq<char>>::empty() + crate::error::texts(causes@)
                =~= crate::error::texts(causes@));
            lemma_says_then(chain@, seq![], causes@);
        },
        SendError::Create { causes } => {
            lemma_says_then(chain@, seq!["Failed to create OpenAI Responses request"@], causes@);
        },
        SendError::Send { causes } => {
            lemma_says_then(chain@, seq!["Failed to send OpenAI Responses request"@], causes@);
        },
        SendError::ReadBody { causes } => {
            lemma_says_then(
                chain@,
                seq!["Failed to read OpenAI Responses response body"@],
                causes@,
            );
        },
        SendError::Parse { causes } => {
            lemma_says_then(chain@, seq!["Failed to parse OpenAI Responses response"@], causes@);
        },
        SendError::Status { status, body } => {
            let digits = crate::text::decimal(status as nat);
            lemma_decimal(status as nat);
            let told = "OpenAI Responses request failed with status: "@ + digits + "\nBody: "@
                + body@;
            assert(crate::error::texts(chain@) == seq![told]);
            assert(crate::error::texts(chain@).len() == chain@.len());
            assert(crate::error::texts(chain@)[0] == chain@[0]@);
            assert(all_digits(digits));
        },
    }
}

/// An error of a prediction tells that the prediction failed, and then what its
/// cause tells.
pub proof fn law_words_of_prediction_error(
    error: &PredictionError,
    chain: Vec<String>,
    send_chain: Vec<String>,
    message: String,
)
    requires
        call_ensures(PredictionError::chain, (error,), chain),
        *error matches PredictionError::Send(cause) ==> call_ensures(
            SendError::chain,
            (&cause,),
            send_chain,
        ),
        *error matches PredictionError::Response(cause) ==> call_ensures(
            ResponseStatusError::message,
            (&cause,),
            message,
        ),
    ensures
        match *error {
            PredictionError::Send(_) => says_then(
                chain@,
                seq!["OpenAI edit prediction failed"@],
                send_chain@,
            ),
            PredictionError::MissingId => says_then(
                chain@,
                seq!["OpenAI edit prediction failed"@, "OpenAI Responses response missing id"@],
                seq![],
            ),
            PredictionError::Response(_) => says_then(
                chain@,
                seq!["OpenAI edit prediction failed"@],
                seq![message],
            ),
            PredictionError::ParseOutput { causes } => says_then(
                chain@,
                seq!["OpenAI edit prediction failed"@],
                causes@,
            ),
        },
{
    let first = seq!["OpenAI edit prediction failed"@];
    match *error {
        PredictionError::Send(_) => {
            lemma_says_then(chain@, first, send_chain@);
        },
        PredictionError::MissingId => {
            let words = seq![
                "OpenAI edit prediction failed"@,
                "OpenAI Responses response missing id"@,
            ];
            assert(crate::error::texts(chain@) =~= words + crate::error::texts(seq![]));
            lemma_says_then(chain@, words, seq![]);
        },
        PredictionError::Response(_) => {
            assert(crate::error::texts(chain@) =~= first + crate::error::texts(seq![message]));
            lemma_says_then(chain@, first, seq![message]);
        },
        PredictionError::ParseOutput { causes } => {
            lemma_says_then(chain@, first, causes@);
        },
    }
}

// ---------------------------------------------------------------------------
// The address and the key

/// Whether `url` is the address of the settings, or the usual one where there
/// are none.
pub open spec fn is_address(url: Seq<char>, settings: Option<OpenAiEditPredictionSettings>) -> bool {
    match settings {
        Some(settings) => url == settings.api_url@,
        None => url == "https://api.openai.com/v1"@,
    }
}

/// Whether `token` is the entity that is held, or else one that `new_entity`
/// made for the address.
pub open spec fn is_token<N: FnOnce(String) -> ApiKeyEntity>(
    cx: App,
    new_entity: N,
    token: ApiKeyEntity,
) -> bool {
    match cx.open_ai_api_key {
        Some(held) => token == held,
        None => exists|url: String|
            is_address(url@, cx.open_ai) && #[trigger] call_ensures(new_entity, (url,), token),
    }
}

/// The address is that of the settings, unchanged, or the usual one where there
/// are none.
pub proof fn law_address(cx: &App, url: String)
    requires
        call_ensures(open_ai_api_url, (cx,), url),
    ensures
        is_address(url@, cx.open_ai),
{
}

/// The entity that is held is found. Where none is held, one is made for the
/// address, and kept. The settings stay as they are.
pub proof fn law_token<N: FnOnce(String) -> ApiKeyEntity>(
    cx: &mut App,
    new_entity: N,
    token: ApiKeyEntity,
)
    requires
        call_ensures(open_ai_api_token::<N>, (cx, new_entity), token),
    ensures
        is_token(*old(cx), new_entity, token),
        final(cx).open_ai_api_key == Some(token),
        final(cx).open_ai == old(cx).open_ai,
{
}

/// What makes an entity need stand a call only where none is held, and only for
/// the address.
pub proof fn law_maker_is_spared<N: FnOnce(String) -> ApiKeyEntity>(cx: &mut App, new_entity: N)
    requires
        old(cx).open_ai_api_key is Some || forall|url: String|
            is_address(url@, old(cx).open_ai) ==> #[trigger] call_requires(new_entity, (url,)),
    ensures
        call_requires(open_ai_api_token::<N>, (cx, new_entity)),
{
}

/// The key is loaded into the entity, for the address, and what comes of that is
/// what is returned.
pub proof fn law_load<N: FnOnce(String) -> ApiKeyEntity, L: FnOnce(ApiKeyEntity, String) -> T, T>(
    cx: &mut App,
    new_entity: N,
    load: L,
    task: T,
)
    requires
        call_ensures(load_open_ai_api_token::<N, L, T>, (cx, new_entity, load), task),
    ensures
        final(cx).open_ai == old(cx).open_ai,
        final(cx).open_ai_api_key matches Some(token) && {
            &&& is_token(*old(cx), new_entity, token)
            &&& exists|url: String|
                is_address(url@, old(cx).open_ai) && #[trigger] call_ensures(
                    load,
                    (token, url),
                    task,
                )
        },
{
}

/// The key that is returned is what was read from the entity, for the address,
/// and the key was loaded into that entity for that address.
pub proof fn law_key<
    N: FnOnce(String) -> ApiKeyEntity,
    L: FnOnce(ApiKeyEntity, String) -> T,
    T,
    K: FnOnce(ApiKeyEntity, String) -> Option<String>,
>(cx: &mut App, new_entity: N, load: L, key: K, api_key: Option<String>)
    requires
        call_ensures(
            load_open_ai_api_key_if_needed::<N, L, T, K>,
            (cx, new_entity, load, key),
            api_key,
        ),
    ensures
        final(cx).open_ai == old(cx).open_ai,
        final(cx).open_ai_api_key matches Some(token) && {
            &&& is_token(*old(cx), new_entity, token)
            &&& exists|url: String, task: T|
                is_address(url@, old(cx).open_ai) && #[trigger] call_ensures(
                    load,
                    (token, url),
                    task,
                )
            &&& exists|url: String|
                is_address(url@, old(cx).open_ai) && #[trigger] call_ensures(
                    key,
                    (token, url),
                    api_key,
                )
        },
{
}

/// What loads the key need stand a call only for the entity and the address, and
/// what reads it only once it was loaded.
pub proof fn law_loader_and_reader_are_spared<
    N: FnOnce(String) -> ApiKeyEntity,
    L: FnOnce(ApiKeyEntity, String) -> T,
    T,
    K: FnOnce(ApiKeyEntity, String) -> Option<String>,
>(cx: &mut App, new_entity: N, load: L, key: K)
    requires
        old(cx).open_ai_api_key is Some || forall|url: String|
            is_address(url@, old(cx).open_ai) ==> #[trigger] call_requires(new_entity, (url,)),
        forall|token: ApiKeyEntity, url: String|
            is_address(url@, old(cx).open_ai) && is_token(*old(cx), new_entity, token)
                ==> #[trigger] call_requires(load, (token, url)),
        forall|token: ApiKeyEntity, loaded: String, task: T, url: String|
            #![trigger call_ensures(load, (token, loaded), task), call_requires(key, (token, url))]
            is_address(loaded@, old(cx).open_ai) && is_address(url@, old(cx).open_ai)
                && call_ensures(load, (token, loaded), task) ==> call_requires(key, (token, url)),
    ensures
        call_requires(load_open_ai_api_token::<N, L, T>, (cx, new_entity, load)),
        call_requires(
            load_open_ai_api_key_if_needed::<N, L, T, K>,
            (cx, new_entity, load, key),
        ),
{
}

/// Without settings no prediction begins, and nothing need stand a call or is
/// changed.
pub proof fn law_no_prediction_without_settings<
    N: FnOnce(String) -> ApiKeyEntity,
    L: FnOnce(ApiKeyEntity, String) -> T,
    T,
    K: FnOnce(ApiKeyEntity, String) -> Option<String>,
>(
    cx: &mut App,
    input: EditPredictionModelInput,
    new_entity: N,
    load: L,
    key: K,
    begun: Option<PredictionState>,
)
    requires
        old(cx).open_ai is None,
        call_ensures(
            request_prediction::<N, L, T, K>,
            (cx, input, new_entity, load, key),
            begun,
        ),
    ensures
        begun is None,
        *final(cx) == *old(cx),
        call_requires(request_prediction::<N, L, T, K>, (cx, input, new_entity, load, key)),
{
}

/// With settings a prediction begins exactly if a key was read, and it begins
/// with that key, those settings and that input. The key was read from the
/// entity, for the address of the settings.
pub proof fn law_prediction_begins_with_the_key<
    N: FnOnce(String) -> ApiKeyEntity,
    L: FnOnce(ApiKeyEntity, String) -> T,
    T,
    K: FnOnce(ApiKeyEntity, String) -> Option<String>,
>(
    cx: &mut App,
    input: EditPredictionModelInput,
    new_entity: N,
    load: L,
    key: K,
    begun: Option<PredictionState>,
    settings: OpenAiEditPredictionSettings,
)
    requires
        old(cx).open_ai == Some(settings),
        call_ensures(
            request_prediction::<N, L, T, K>,
            (cx, input, new_entity, load, key),
            begun,
        ),
    ensures
        final(cx).open_ai == Some(settings),
        final(cx).open_ai_api_key matches Some(token) && {
            &&& is_token(*old(cx), new_entity, token)
            &&& exists|url: String, task: T|
                url@ == settings.api_url@ && #[trigger] call_ensures(load, (token, url), task)
            &&& exists|url: String, api_key: Option<String>|
                {
                    &&& url@ == settings.api_url@
                    &&& #[trigger] call_ensures(key, (token, url), api_key)
                    &&& api_key is None <==> begun is None
                    &&& begun matches Some(state) ==> {
                        &&& state matches PredictionState::FormattingPrompt {
                            input: kept_input,
                            settings: kept_settings,
                            api_key: kept_key,
                        }
                        &&& kept_input == input
                        &&& kept_settings == settings
                        &&& api_key == Some(kept_key)
                    }
                }
        },
{
}

} // verus!
