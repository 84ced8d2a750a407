//! The settings that a prediction goes by.

use vstd::prelude::*;
use vstd::string::*;

verus! {

/// Where the service is reached if no settings say otherwise.
pub const OPEN_AI_API_URL: &'static str = "https://api.openai.com/v1";

/// How edit predictions use the service.
#[derive(Debug, PartialEq, Eq)]
pub struct OpenAiEditPredictionSettings {
    /// The address that the service's paths are appended to.
    pub api_url: String,
    /// The model that is asked.
    pub model: String,
    /// How much the model may write.
    pub max_output_tokens: u32,
}

impl Clone for OpenAiEditPredictionSettings {
    fn clone(&self) -> (copy: Self)
        ensures
            copy == *self,
    {
        OpenAiEditPredictionSettings {
            api_url: self.api_url.clone(),
            model: self.model.clone(),
            max_output_tokens: self.max_output_tokens,
        }
    }
}

/// The address of the service under the given settings.
pub open spec fn api_url_text(settings: Option<OpenAiEditPredictionSettings>) -> Seq<char> {
    match settings {
        Some(settings) => settings.api_url@,
        None => OPEN_AI_API_URL@,
    }
}

} // verus!
