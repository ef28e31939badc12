//! Language-model providers: the message types and the decisions around a chat call.

pub mod minimax;
pub mod traits;

use vstd::prelude::*;
use crate::text::{ascii_lowercase, concat, lowercase, str_eq, to_lowercase};
use vstd::utf8::is_ascii_chars;

pub use traits::{Message, ProviderError, Response, ToolCall};

verus! {

/// The providers the runtime can talk to.
#[derive(Debug, Clone, Copy, PartialEq, Eq, Structural)]
pub enum ProviderKind {
    MiniMax,
}

/// The provider named by an already lowercased name; the error names the
/// type as it was asked for.
pub fn provider_kind_of(lowercased: &str, provider_type: &str) -> (r: Result<ProviderKind, String>)
    ensures
        lowercased@ == "minimax"@ ==> r == Ok::<ProviderKind, String>(ProviderKind::MiniMax),
        lowercased@ != "minimax"@ ==> (r matches Err(m) && m@ == "Unsupported provider type: "@
            + provider_type@),
{
    if str_eq(lowercased, "minimax") {
        Ok(ProviderKind::MiniMax)
    } else {
        Err(concat("Unsupported provider type: ", provider_type))
    }
}

/// The provider named by `provider_type`, ignoring case.
pub fn provider_kind(provider_type: &str) -> (r: Result<ProviderKind, String>)
    ensures
        lowercase(provider_type@) == "minimax"@ ==> r == Ok::<ProviderKind, String>(
            ProviderKind::MiniMax,
        ),
        lowercase(provider_type@) != "minimax"@ ==> (r matches Err(m) && m@
            == "Unsupported provider type: "@ + provider_type@),
        is_ascii_chars(provider_type@) ==> (r is Ok <==> ascii_lowercase(provider_type@) == "minimax"@),
        is_ascii_chars(provider_type@) && ascii_lowercase(provider_type@) == "minimax"@ ==> r
            == Ok::<ProviderKind, String>(ProviderKind::MiniMax),
        is_ascii_chars(provider_type@) && ascii_lowercase(provider_type@) != "minimax"@ ==> (r matches Err(m)
            && m@ == "Unsupported provider type: "@ + provider_type@),
{
    let lower = to_lowercase(provider_type);
    provider_kind_of(lower.as_str(), provider_type)
}

} // verus!
