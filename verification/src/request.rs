//! The request that the service gets.

use vstd::prelude::*;
use vstd::string::*;

use crate::settings::OpenAiEditPredictionSettings;

verus! {

/// Who a message comes from.
#[derive(Debug, PartialEq, Eq)]
pub enum Role {
    User,
}

/// One part of a message.
#[derive(Debug, PartialEq, Eq)]
pub enum ResponseInputContent {
    Text { text: String },
}

/// A message to the model.
#[derive(Debug, PartialEq, Eq)]
pub struct ResponseMessageItem {
    pub role: Role,
    pub content: Vec<ResponseInputContent>,
    pub phase: Option<String>,
}

/// One item of a request's input.
#[derive(Debug, PartialEq, Eq)]
pub enum ResponseInputItem {
    Message(ResponseMessageItem),
}

/// A request for a response of the model.
///
/// What the library does not choose itself is held as the JSON value that the
/// service would get.
#[derive(Debug, PartialEq)]
pub struct Request {
    pub model: String,
    pub instructions: Option<String>,
    pub input: Vec<ResponseInputItem>,
    pub included: Vec<serde_json::Value>,
    pub stream: bool,
    pub temperature: Option<serde_json::Value>,
    pub top_p: Option<serde_json::Value>,
    pub max_output_tokens: Option<u64>,
    pub parallel_tool_calls: Option<bool>,
    pub tool_choice: Option<serde_json::Value>,
    pub tools: Vec<serde_json::Value>,
    pub prompt_cache_key: Option<String>,
    pub reasoning: Option<serde_json::Value>,
    pub store: Option<bool>,
    pub service_tier: Option<String>,
}

impl Role {
    /// The name that the service knows the role by.
    pub open spec fn name_text(self) -> Seq<char> {
        match self {
            Role::User => "user"@,
        }
    }

    /// The name that the service knows the role by.
    pub fn name(&self) -> (name: &'static str)
        ensures
            name@ == self.name_text(),
    {
        match self {
            Role::User => "user",
        }
    }
}

impl ResponseInputContent {
    /// The name that the service knows this kind of part by.
    pub open spec fn kind_text(self) -> Seq<char> {
        match self {
            ResponseInputContent::Text { .. } => "input_text"@,
        }
    }

    /// The name that the service knows this kind of part by.
    pub fn kind(&self) -> (kind: &'static str)
        ensures
            kind@ == self.kind_text(),
    {
        match self {
            ResponseInputContent::Text { .. } => "input_text",
        }
    }
}

impl ResponseInputItem {
    /// The name that the service knows this kind of item by.
    pub open spec fn kind_text(self) -> Seq<char> {
        match self {
            ResponseInputItem::Message(_) => "message"@,
        }
    }

    /// The name that the service knows this kind of item by.
    pub fn kind(&self) -> (kind: &'static str)
        ensures
            kind@ == self.kind_text(),
    {
        match self {
            ResponseInputItem::Message(_) => "message",
        }
    }

    /// Whether the item is a message of the user that says `text` and nothing
    /// else.
    pub open spec fn is_user_text(self, text: Seq<char>) -> bool {
        &&& self matches ResponseInputItem::Message(message)
        &&& message.role == Role::User
        &&& message.content@.len() == 1
        &&& message.content@[0] matches ResponseInputContent::Text { text: said }
        &&& said@ == text
        &&& message.phase is None
    }
}

impl Request {
    /// Whether the request asks the model of the settings, within their limit,
    /// to answer `prompt`: at once, without tools, and in such a way that the
    /// service does not store it. All else is left to the service.
    pub open spec fn asks(
        self,
        settings: OpenAiEditPredictionSettings,
        prompt: Seq<char>,
    ) -> bool {
        &&& self.model@ == settings.model@
        &&& self.instructions is None
        &&& self.input@.len() == 1
        &&& self.input@[0].is_user_text(prompt)
        &&& self.included@.len() == 0
        &&& !self.stream
        &&& self.temperature is None
        &&& self.top_p is None
        &&& self.max_output_tokens == Some(settings.max_output_tokens as u64)
        &&& self.parallel_tool_calls is None
        &&& self.tool_choice is None
        &&& self.tools@.len() == 0
        &&& self.prompt_cache_key is None
        &&& self.reasoning is None
        &&& self.store == Some(false)
        &&& self.service_tier is None
    }
}

/// The request for an answer to `prompt`.
pub fn build_responses_request(
    settings: &OpenAiEditPredictionSettings,
    prompt: String,
) -> (request: Request)
    ensures
        request.asks(*settings, prompt@),
{
    Request {
        model: settings.model.clone(),
        instructions: None,
        input: vec![
            ResponseInputItem::Message(
                ResponseMessageItem {
                    role: Role::User,
                    content: vec![ResponseInputContent::Text { text: prompt }],
                    phase: None,
                },
            ),
        ],
        included: Vec::new(),
        stream: false,
        temperature: None,
        top_p: None,
        max_output_tokens: Some(settings.max_output_tokens as u64),
        parallel_tool_calls: None,
        tool_choice: None,
        tools: Vec::new(),
        prompt_cache_key: None,
        reasoning: None,
        store: Some(false),
        service_tier: None,
    }
}

} // verus!
