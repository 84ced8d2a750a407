//! The reply of the service.

use vstd::prelude::*;
use vstd::string::*;

use crate::error::ResponseStatusError;
use crate::json::json_string_member;

verus! {

/// Why the service failed.
#[derive(Debug, PartialEq, Eq)]
pub struct ResponseError {
    pub message: String,
}

/// Why the service stopped before the end.
#[derive(Debug, PartialEq, Eq)]
pub struct ResponseIncompleteDetails {
    pub reason: Option<String>,
}

/// A message of the model. Each part of its content is a JSON value of whatever
/// shape the service chose.
#[derive(Debug, PartialEq)]
pub struct ResponseOutputMessage {
    pub content: Vec<serde_json::Value>,
}

/// One item of a response's output.
#[derive(Debug, PartialEq)]
pub enum ResponseOutputItem {
    /// A message of the model.
    Message(ResponseOutputMessage),
    /// Anything else, such as a function call or a summary of its reasoning.
    Other,
}

/// What the service answers to a request.
#[derive(Debug, PartialEq)]
pub struct ResponseSummary {
    pub id: Option<String>,
    pub status: Option<String>,
    pub error: Option<ResponseError>,
    pub incomplete_details: Option<ResponseIncompleteDetails>,
    pub output: Vec<ResponseOutputItem>,
}

/// The text that a part of a message contributes, given the strings under its
/// keys: the one under `text` of a part that is marked as output text.
pub open spec fn part_text(members: Map<Seq<char>, Seq<char>>) -> Seq<char> {
    if members.contains_key("type"@) && members["type"@] == "output_text"@ && members.contains_key(
        "text"@,
    ) {
        members["text"@]
    } else {
        Seq::empty()
    }
}

/// The text that a part of a message contributes.
pub open spec fn content_text() -> spec_fn(serde_json::Value) -> Seq<char> {
    |content: serde_json::Value| part_text(crate::json::json_string_members(content))
}

/// The text that an item of the output contributes: that of the parts of a
/// message, in their order.
pub open spec fn item_text() -> spec_fn(ResponseOutputItem) -> Seq<char> {
    |item: ResponseOutputItem|
        match item {
            ResponseOutputItem::Message(message) => message.content@.flat_map(content_text()),
            ResponseOutputItem::Other => Seq::empty(),
        }
}

/// The text of a whole output: that of its items, in their order.
pub open spec fn output_text(output: Seq<ResponseOutputItem>) -> Seq<char> {
    output.flat_map(item_text())
}

impl ResponseSummary {
    /// Whether the response has the status `status`.
    pub open spec fn has_status(self, status: Seq<char>) -> bool {
        self.status matches Some(text) && text@ == status
    }

    /// Why the service failed, as far as it says.
    pub open spec fn failure_message(self) -> Seq<char> {
        match self.error {
            Some(error) => error.message@,
            None => "unknown error"@,
        }
    }

    /// Why the service stopped before the end, as far as it says.
    pub open spec fn incomplete_reason(self) -> Seq<char> {
        match self.incomplete_details {
            Some(ResponseIncompleteDetails { reason: Some(reason) }) => reason@,
            _ => "unknown reason"@,
        }
    }
}

/// Whether two texts are the same.
fn same_text(left: &str, right: &str) -> (same: bool)
    ensures
        same == (left@ == right@),
{
    left.to_owned() == right.to_owned()
}

/// The text that a part of a message contributes, given the strings under its
/// keys `type` and `text`.
pub fn output_text_part<'a>(kind: Option<&str>, text: Option<&'a str>) -> (part: Option<&'a str>)
    ensures
        part is Some <==> (kind matches Some(kind) && kind@ == "output_text"@) && text is Some,
        part is Some ==> part == text,
{
    match kind {
        Some(kind) => if same_text(kind, "output_text") {
            text
        } else {
            None
        },
        None => None,
    }
}

/// Appends to `text` what a part of a message contributes.
fn append_content(text: &mut String, content: &serde_json::Value)
    ensures
        final(text)@ == old(text)@ + content_text()(*content),
{
    let kind = json_string_member(content, "type");
    let member = json_string_member(content, "text");
    match output_text_part(kind, member) {
        Some(part) => text.append(part),
        None => {
            assert(text@ =~= text@ + Seq::<char>::empty());
        },
    }
}

/// Appends to `text` what a message contributes.
fn append_message(text: &mut String, message: &ResponseOutputMessage)
    ensures
        final(text)@ == old(text)@ + message.content@.flat_map(content_text()),
{
    let ghost before = text@;
    let mut i: usize = 0;
    proof {
        assert(message.content@.take(0).flat_map(content_text()) =~= Seq::<char>::empty());
        assert(text@ =~= before + Seq::<char>::empty());
    }
    while i < message.content.len()
        invariant
            i <= message.content@.len(),
            text@ == before + message.content@.take(i as int).flat_map(content_text()),
        decreases message.content.len() - i,
    {
        append_content(text, &message.content[i]);
        proof {
            message.content@.lemma_flat_map_take_append(content_text(), i as int);
            assert(text@ =~= before + message.content@.take(i + 1).flat_map(content_text()));
        }
        i = i + 1;
    }
    assert(message.content@.take(i as int) =~= message.content@);
}

/// The text that the model wrote, or nothing where it wrote none.
///
/// A response that failed, or that is incomplete, is an error whatever its
/// output holds.
pub fn output_text_from_response(response: &ResponseSummary) -> (result: Result<
    Option<String>,
    ResponseStatusError,
>)
    ensures
        response.has_status("failed"@) ==> (result matches Err(
            ResponseStatusError::Failed { message },
        ) && message@ == response.failure_message()),
        response.has_status("incomplete"@) ==> (result matches Err(
            ResponseStatusError::Incomplete { reason },
        ) && reason@ == response.incomplete_reason()),
        !response.has_status("failed"@) && !response.has_status("incomplete"@) ==> match result {
            Ok(Some(text)) => text@ == output_text(response.output@) && text@.len() > 0,
            Ok(None) => output_text(response.output@).len() == 0,
            Err(_) => false,
        },
{
    match &response.status {
        Some(status) => {
            if same_text(status.as_str(), "failed") {
                proof {
                    reveal_strlit("failed");
                    reveal_strlit("incomplete");
                    assert("failed"@.len() != "incomplete"@.len());
                }
                let message = match &response.error {
                    Some(error) => error.message.clone(),
                    None => "unknown error".to_string(),
                };
                return Err(ResponseStatusError::Failed { message });
            }
            if same_text(status.as_str(), "incomplete") {
                let reason = match &response.incomplete_details {
                    Some(ResponseIncompleteDetails { reason: Some(reason) }) => reason.clone(),
                    _ => "unknown reason".to_string(),
                };
                return Err(ResponseStatusError::Incomplete { reason });
            }
        },
        None => {},
    }
    let mut text = String::new();
    let mut i: usize = 0;
    assert(response.output@.take(0).flat_map(item_text()) =~= Seq::<char>::empty());
    while i < response.output.len()
        invariant
            i <= response.output@.len(),
            text@ == output_text(response.output@.take(i as int)),
        decreases response.output.len() - i,
    {
        let ghost before = text@;
        match &response.output[i] {
            ResponseOutputItem::Message(message) => append_message(&mut text, message),
            ResponseOutputItem::Other => {},
        }
        proof {
            response.output@.lemma_flat_map_take_append(item_text(), i as int);
            assert(text@ =~= before + item_text()(response.output@[i as int]));
        }
        i = i + 1;
    }
    assert(response.output@.take(i as int) =~= response.output@);
    if text.as_str().is_empty() {
        Ok(None)
    } else {
        Ok(Some(text))
    }
}

} // verus!
