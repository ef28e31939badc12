use mini_bot_rs::providers::{Message, ProviderError, Response, ToolCall};

#[test]
fn test_message_creation() {
    let message = Message {
        role: "user".to_string(),
        content: "Hello".to_string(),
    };
    assert_eq!(message.role, "user");
    assert_eq!(message.content, "Hello");
}

#[test]
fn test_tool_call_creation() {
    let tool_call = ToolCall {
        name: "shell".to_string(),
        arguments: r#"{"command": "ls"}"#.to_string(),
    };
    assert_eq!(tool_call.name, "shell");
}

#[test]
fn test_response_creation() {
    let response = Response {
        message: Message {
            role: "assistant".to_string(),
            content: "Response content".to_string(),
        },
        tool_calls: vec![],
    };
    assert!(response.tool_calls.is_empty());
}

#[test]
fn test_provider_error_display() {
    let error = ProviderError::RequestFailed("connection timeout".to_string());
    assert!(error.describe().contains("API request failed"));

    let error = ProviderError::ParseFailed("invalid json".to_string());
    assert!(error.describe().contains("Response parse failed"));

    let error = ProviderError::AuthenticationFailed("invalid key".to_string());
    assert!(error.describe().contains("Authentication failed"));

    let error = ProviderError::QuotaExceeded("limit reached".to_string());
    assert!(error.describe().contains("Quota exceeded"));
}

#[test]
fn provider_error_text_is_prefix_then_detail() {
    let error = ProviderError::QuotaExceeded("limit reached".to_string());
    assert_eq!(error.describe(), "Quota exceeded: limit reached");
    let error = ProviderError::RequestFailed(String::new());
    assert_eq!(error.describe(), "API request failed: ");
}
