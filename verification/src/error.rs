//! What can go wrong, and how it is told.

use vstd::prelude::*;
use vstd::string::*;

use crate::text::number;

verus! {

/// A reply in which the service says that it did not complete the request.
#[derive(Debug, PartialEq, Eq)]
pub enum ResponseStatusError {
    /// The service failed.
    Failed { message: String },
    /// The service stopped before the end.
    Incomplete { reason: String },
}

/// A request that brought back no reply that can be read. Causes are told in
/// words, each followed by its own cause.
#[derive(Debug, PartialEq, Eq)]
pub enum SendError {
    /// The request has no JSON form.
    Encode { causes: Vec<String> },
    /// No HTTP request can be made of the address, the key and the body.
    Create { causes: Vec<String> },
    /// The HTTP request got no reply.
    Send { causes: Vec<String> },
    /// The body of the reply could not be read.
    ReadBody { causes: Vec<String> },
    /// The reply's HTTP status does not stand for success.
    Status { status: u16, body: String },
    /// The body of the reply is not that of a response.
    Parse { causes: Vec<String> },
}

/// A prediction that ended in an error. Causes are told in words, each followed
/// by its own cause.
#[derive(Debug, PartialEq, Eq)]
pub enum PredictionError {
    /// The request brought back no reply that can be read.
    Send(SendError),
    /// The reply has no id.
    MissingId,
    /// The reply says that the request was not completed.
    Response(ResponseStatusError),
    /// The model's output is not in the prompt's format.
    ParseOutput { causes: Vec<String> },
}

/// The texts of a list of strings.
pub open spec fn texts(list: Seq<String>) -> Seq<Seq<char>> {
    list.map_values(|text: String| text@)
}

impl ResponseStatusError {
    /// The error in words.
    pub open spec fn message_text(self) -> Seq<char> {
        match self {
            ResponseStatusError::Failed { message } => "OpenAI Responses request failed: "@
                + message@,
            ResponseStatusError::Incomplete { reason } => "OpenAI Responses request incomplete: "@
                + reason@,
        }
    }

    /// The error in words.
    pub fn message(&self) -> (text: String)
        ensures
            text@ == self.message_text(),
    {
        match self {
            ResponseStatusError::Failed { message } => "OpenAI Responses request failed: "
                .to_string().concat(message.as_str()),
            ResponseStatusError::Incomplete { reason } => "OpenAI Responses request incomplete: "
                .to_string().concat(reason.as_str()),
        }
    }
}

/// The list `first` with copies of `rest` after it.
fn followed_by(first: Vec<String>, rest: &Vec<String>) -> (list: Vec<String>)
    ensures
        texts(list@) == texts(first@) + texts(rest@),
{
    let mut list = first;
    let mut i: usize = 0;
    assert(texts(list@) =~= texts(first@) + texts(rest@.take(0)));
    while i < rest.len()
        invariant
            i <= rest@.len(),
            texts(list@) == texts(first@) + texts(rest@.take(i as int)),
        decreases rest.len() - i,
    {
        let ghost before = list@;
        list.push(rest[i].clone());
        assert(texts(list@) =~= texts(before).push(rest@[i as int]@));
        assert(texts(rest@.take(i + 1)) =~= texts(rest@.take(i as int)).push(rest@[i as int]@));
        assert(texts(list@) =~= texts(first@) + texts(rest@.take(i + 1)));
        i = i + 1;
    }
    assert(rest@.take(i as int) =~= rest@);
    list
}

impl SendError {
    /// What the error says itself, and then what its causes say.
    pub open spec fn chain_texts(self) -> Seq<Seq<char>> {
        match self {
            SendError::Encode { causes } => texts(causes@),
            SendError::Create { causes } => seq!["Failed to create OpenAI Responses request"@]
                + texts(causes@),
            SendError::Send { causes } => seq!["Failed to send OpenAI Responses request"@]
                + texts(causes@),
            SendError::ReadBody { causes } => seq!["Failed to read OpenAI Responses response body"@]
                + texts(causes@),
            SendError::Status { status, body } => seq![
                "OpenAI Responses request failed with status: "@ + crate::text::decimal(
                    status as nat,
                ) + "\nBody: "@ + body@,
            ],
            SendError::Parse { causes } => seq!["Failed to parse OpenAI Responses response"@]
                + texts(causes@),
        }
    }

    /// What the error says itself, and then what its causes say.
    pub fn chain(&self) -> (chain: Vec<String>)
        ensures
            texts(chain@) == self.chain_texts(),
    {
        let mut words: Vec<String> = Vec::new();
        let causes = match self {
            SendError::Encode { causes } => causes,
            SendError::Create { causes } => {
                words.push("Failed to create OpenAI Responses request".to_string());
                causes
            },
            SendError::Send { causes } => {
                words.push("Failed to send OpenAI Responses request".to_string());
                causes
            },
            SendError::ReadBody { causes } => {
                words.push("Failed to read OpenAI Responses response body".to_string());
                causes
            },
            SendError::Status { status, body } => {
                words.push(
                    "OpenAI Responses request failed with status: ".to_string().concat(
                        number(*status).as_str(),
                    ).concat("\nBody: ").concat(body.as_str()),
                );
                assert(texts(words@) =~= self.chain_texts());
                return words;
            },
            SendError::Parse { causes } => {
                words.push("Failed to parse OpenAI Responses response".to_string());
                causes
            },
        };
        assert(texts(words@) + texts(causes@) =~= self.chain_texts());
        followed_by(words, causes)
    }
}

impl PredictionError {
    /// What the error says itself, and then what its causes say.
    pub open spec fn chain_texts(self) -> Seq<Seq<char>> {
        seq!["OpenAI edit prediction failed"@] + match self {
            PredictionError::Send(error) => error.chain_texts(),
            PredictionError::MissingId => seq!["OpenAI Responses response missing id"@],
            PredictionError::Response(error) => seq![error.message_text()],
            PredictionError::ParseOutput { causes } => texts(causes@),
        }
    }

    /// What the error says itself, and then what its causes say.
    pub fn chain(&self) -> (chain: Vec<String>)
        ensures
            texts(chain@) == self.chain_texts(),
    {
        let words: Vec<String> = vec!["OpenAI edit prediction failed".to_string()];
        assert(texts(words@) =~= seq!["OpenAI edit prediction failed"@]);
        match self {
            PredictionError::Send(error) => followed_by(words, &error.chain()),
            PredictionError::MissingId => {
                let cause = vec!["OpenAI Responses response missing id".to_string()];
                assert(texts(cause@) =~= seq!["OpenAI Responses response missing id"@]);
                followed_by(words, &cause)
            },
            PredictionError::Response(error) => {
                let cause = vec![error.message()];
                assert(texts(cause@) =~= seq![error.message_text()]);
                followed_by(words, &cause)
            },
            PredictionError::ParseOutput { causes } => followed_by(words, causes),
        }
    }
}

} // verus!
