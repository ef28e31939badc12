//! The MiniMax chat-completion provider: its endpoint and the reading of its replies.
//!
//! The HTTP exchange and the JSON decoding happen outside the library; the
//! decoded reply is handed here as a `CompletionResponse`.

use vstd::prelude::*;
use crate::text::concat;
use super::traits::{Message, ProviderError, Response, ToolCall};

verus! {

/// The function part of a tool call as the provider sends it; either part may be missing.
#[derive(Debug, Clone)]
pub struct FunctionDelta {
    pub name: Option<String>,
    pub arguments: Option<String>,
}

/// A tool call as the provider sends it.
#[derive(Debug, Clone)]
pub struct ToolCallDelta {
    pub id: Option<String>,
    pub type_: Option<String>,
    pub function: Option<FunctionDelta>,
}

/// The message of one completion choice.
#[derive(Debug, Clone)]
pub struct ResponseMessage {
    pub role: String,
    pub content: String,
    pub tool_calls: Vec<ToolCallDelta>,
}

/// One completion choice.
#[derive(Debug, Clone)]
pub struct Choice {
    pub message: ResponseMessage,
}

/// Token accounting of a completion.
#[derive(Debug, Clone)]
pub struct Usage {
    pub total_tokens: Option<i32>,
}

/// A decoded chat-completion reply.
#[derive(Debug, Clone)]
pub struct CompletionResponse {
    pub choices: Vec<Choice>,
    pub usage: Option<Usage>,
}

/// The tool call that a delta describes, when it carries both a name and arguments.
pub open spec fn tool_call_of(d: ToolCallDelta) -> Option<ToolCall> {
    match d.function {
        Some(f) => match (f.name, f.arguments) {
            (Some(n), Some(a)) => Some(ToolCall { name: n, arguments: a }),
            _ => None,
        },
        None => None,
    }
}

/// The complete tool calls among `deltas`, in order.
pub open spec fn complete_tool_calls(deltas: Seq<ToolCallDelta>) -> Seq<ToolCall> {
    deltas.filter_map(|d: ToolCallDelta| tool_call_of(d))
}

/// Base address of the MiniMax API.
pub fn default_base_url() -> (r: &'static str)
    ensures
        r@ == "https://api.minimax.chat/v1"@,
{
    "https://api.minimax.chat/v1"
}

/// The chat-completion endpoint under `base_url`.
pub fn completion_endpoint(base_url: &str) -> (r: String)
    ensures
        r@ == base_url@ + "/text/chatcompletion_v2"@,
{
    concat(base_url, "/text/chatcompletion_v2")
}

/// The value of the `Authorization` header for `api_key`.
pub fn authorization_value(api_key: &str) -> (r: String)
    ensures
        r@ == "Bearer "@ + api_key@,
{
    concat("Bearer ", api_key)
}

/// The error for a reply whose HTTP status was not a success.
pub fn http_failure(status: &str, body: &str) -> (r: ProviderError)
    ensures
        r matches ProviderError::RequestFailed(m) && m@ == "HTTP "@ + status@ + ": "@ + body@,
{
    let mut m = concat("HTTP ", status);
    m.append(": ");
    m.append(body);
    ProviderError::RequestFailed(m)
}

/// The outcome of a health check whose reply had the given status.
pub fn health_outcome(success: bool, status: &str) -> (r: Result<(), ProviderError>)
    ensures
        success ==> r is Ok,
        !success ==> (r matches Err(ProviderError::RequestFailed(m)) && m@
            == "Health check failed: "@ + status@),
{
    if success {
        Ok(())
    } else {
        Err(ProviderError::RequestFailed(concat("Health check failed: ", status)))
    }
}

/// Collects the complete tool calls of `deltas`.
pub fn collect_tool_calls(deltas: &Vec<ToolCallDelta>) -> (r: Vec<ToolCall>)
    ensures
        r@ == complete_tool_calls(deltas@),
{
    let mut out: Vec<ToolCall> = Vec::new();
    let mut i: usize = 0;
    while i < deltas.len()
        invariant
            i <= deltas@.len(),
            out@ == complete_tool_calls(deltas@.take(i as int)),
        decreases deltas@.len() - i,
    {
        assert(deltas@.take(i + 1).drop_last() =~= deltas@.take(i as int));
        assert(deltas@.take(i + 1).last() == deltas@[i as int]);
        let d = &deltas[i];
        match &d.function {
            Some(f) => match (&f.name, &f.arguments) {
                (Some(n), Some(a)) => {
                    out.push(ToolCall { name: n.clone(), arguments: a.clone() });
                },
                _ => {},
            },
            None => {},
        }
        i = i + 1;
    }
    assert(deltas@.take(deltas@.len() as int) =~= deltas@);
    out
}

/// Reads a decoded completion: the first choice's message with its complete
/// tool calls, or a parse failure when the reply holds no choice.
pub fn interpret_completion(reply: &CompletionResponse) -> (r: Result<Response, ProviderError>)
    ensures
        r is Ok <==> reply.choices@.len() > 0,
        r matches Ok(resp) ==> {
            &&& resp.message == Message {
                role: reply.choices@[0].message.role,
                content: reply.choices@[0].message.content,
            }
            &&& resp.tool_calls@ == complete_tool_calls(reply.choices@[0].message.tool_calls@)
        },
        r matches Err(e) ==> e matches ProviderError::ParseFailed(m) && m@
            == "No choices in response"@,
{
    if reply.choices.len() == 0 {
        return Err(ProviderError::ParseFailed(crate::text::owned("No choices in response")));
    }
    let choice = &reply.choices[0];
    let tool_calls = collect_tool_calls(&choice.message.tool_calls);
    Ok(Response {
        message: Message {
            role: choice.message.role.clone(),
            content: choice.message.content.clone(),
        },
        tool_calls,
    })
}

} // verus!
