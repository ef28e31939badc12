use mini_bot_rs::providers::minimax::{
    authorization_value, completion_endpoint, default_base_url, health_outcome, http_failure,
    interpret_completion, Choice, CompletionResponse, FunctionDelta, ResponseMessage, ToolCallDelta,
    Usage,
};
use mini_bot_rs::providers::{provider_kind, ProviderError, ProviderKind};

fn delta(name: Option<&str>, arguments: Option<&str>) -> ToolCallDelta {
    ToolCallDelta {
        id: Some("call_1".to_string()),
        type_: Some("function".to_string()),
        function: Some(FunctionDelta {
            name: name.map(|s| s.to_string()),
            arguments: arguments.map(|s| s.to_string()),
        }),
    }
}

#[test]
fn completion_without_choices_is_a_parse_failure() {
    let reply = CompletionResponse { choices: vec![], usage: None };
    match interpret_completion(&reply) {
        Err(ProviderError::ParseFailed(m)) => assert_eq!(m, "No choices in response"),
        other => panic!("unexpected: {:?}", other),
    }
}

#[test]
fn completion_takes_first_choice_and_complete_tool_calls() {
    let first = Choice {
        message: ResponseMessage {
            role: "assistant".to_string(),
            content: "hi".to_string(),
            tool_calls: vec![
                delta(Some("shell"), Some("{\"command\":\"ls\"}")),
                delta(None, Some("{}")),
                delta(Some("file"), None),
                ToolCallDelta { id: None, type_: None, function: None },
                delta(Some("file"), Some("{\"operation\":\"exists\"}")),
            ],
        },
    };
    let second = Choice {
        message: ResponseMessage {
            role: "assistant".to_string(),
            content: "other".to_string(),
            tool_calls: vec![],
        },
    };
    let reply = CompletionResponse {
        choices: vec![first, second],
        usage: Some(Usage { total_tokens: Some(12) }),
    };
    let resp = interpret_completion(&reply).unwrap();
    assert_eq!(resp.message.role, "assistant");
    assert_eq!(resp.message.content, "hi");
    assert_eq!(resp.tool_calls.len(), 2);
    assert_eq!(resp.tool_calls[0].name, "shell");
    assert_eq!(resp.tool_calls[0].arguments, "{\"command\":\"ls\"}");
    assert_eq!(resp.tool_calls[1].name, "file");
    assert_eq!(resp.tool_calls[1].arguments, "{\"operation\":\"exists\"}");
}

#[test]
fn endpoint_and_authorization() {
    assert_eq!(default_base_url(), "https://api.minimax.chat/v1");
    assert_eq!(
        completion_endpoint(default_base_url()),
        "https://api.minimax.chat/v1/text/chatcompletion_v2"
    );
    assert_eq!(authorization_value("k-123"), "Bearer k-123");
}

#[test]
fn http_and_health_failures() {
    match http_failure("404 Not Found", "missing") {
        ProviderError::RequestFailed(m) => assert_eq!(m, "HTTP 404 Not Found: missing"),
        other => panic!("unexpected: {:?}", other),
    }
    assert!(health_outcome(true, "200 OK").is_ok());
    match health_outcome(false, "500 Internal Server Error") {
        Err(ProviderError::RequestFailed(m)) => {
            assert_eq!(m, "Health check failed: 500 Internal Server Error")
        }
        other => panic!("unexpected: {:?}", other),
    }
}

#[test]
fn provider_kind_ignores_case() {
    assert_eq!(provider_kind("minimax"), Ok(ProviderKind::MiniMax));
    assert_eq!(provider_kind("MiniMax"), Ok(ProviderKind::MiniMax));
    assert_eq!(provider_kind("MINIMAX"), Ok(ProviderKind::MiniMax));
    assert_eq!(
        provider_kind("mini-max"),
        Err("Unsupported provider type: mini-max".to_string())
    );
    assert_eq!(
        provider_kind("OpenAI"),
        Err("Unsupported provider type: OpenAI".to_string())
    );
}
