//! The values exchanged with a language-model provider.

use vstd::prelude::*;
use crate::text::concat;

verus! {

/// One chat message: who said it and what was said.
#[derive(Debug, Clone)]
pub struct Message {
    pub role: String,
    pub content: String,
}

/// A tool invocation requested by the model.
#[derive(Debug, Clone)]
pub struct ToolCall {
    pub name: String,
    pub arguments: String,
}

/// A provider's answer: the reply message and the tool calls it asks for.
#[derive(Debug, Clone)]
pub struct Response {
    pub message: Message,
    pub tool_calls: Vec<ToolCall>,
}

/// Why a provider call failed.
#[derive(Debug, Clone)]
pub enum ProviderError {
    RequestFailed(String),
    ParseFailed(String),
    AuthenticationFailed(String),
    QuotaExceeded(String),
}

/// The human-readable text of an error: a fixed prefix for its kind, then its detail.
pub open spec fn describe_spec(e: ProviderError) -> Seq<char> {
    match e {
        ProviderError::RequestFailed(d) => "API request failed: "@ + d@,
        ProviderError::ParseFailed(d) => "Response parse failed: "@ + d@,
        ProviderError::AuthenticationFailed(d) => "Authentication failed: "@ + d@,
        ProviderError::QuotaExceeded(d) => "Quota exceeded: "@ + d@,
    }
}

impl ProviderError {
    /// The error's display text.
    pub fn describe(&self) -> (r: String)
        ensures
            r@ == describe_spec(*self),
    {
        match self {
            ProviderError::RequestFailed(d) => concat("API request failed: ", d.as_str()),
            ProviderError::ParseFailed(d) => concat("Response parse failed: ", d.as_str()),
            ProviderError::AuthenticationFailed(d) => concat("Authentication failed: ", d.as_str()),
            ProviderError::QuotaExceeded(d) => concat("Quota exceeded: ", d.as_str()),
        }
    }
}

} // verus!
