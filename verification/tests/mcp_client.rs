use spacemolt_viewer::mcp_client::{
    call_step, CallAction, CallEvent, CallStage,
    can_recover, injects_session_id, interpret_tool_result, is_session_expiry_error, text_contains,
    McpError, ToolOutcome, MCP_ENDPOINT, SESSION_RECOVERY_MARKERS,
};

#[test]
fn test_session_expiry_detection() {
    assert!(is_session_expiry_error(&McpError::ToolError {
        tool: "get_status".into(),
        message: "session_required: please login again".into(),
    }));

    assert!(is_session_expiry_error(&McpError::ToolError {
        tool: "get_nearby".into(),
        message: "session_invalid".into(),
    }));

    assert!(!is_session_expiry_error(&McpError::ToolError {
        tool: "get_status".into(),
        message: "some other error".into(),
    }));

    assert!(!is_session_expiry_error(&McpError::NoContent { tool: "get_status".into() }));
}

#[test]
fn test_session_recovery_markers_complete() {
    assert_eq!(&SESSION_RECOVERY_MARKERS, &["session_required", "session_invalid"]);
}

#[test]
fn test_mcp_error_display() {
    let err = McpError::ToolError { tool: "get_status".into(), message: "session_required".into() };
    assert!(err.message().contains("get_status"));
    assert!(err.message().contains("session_required"));
}

#[test]
fn error_messages_are_exact() {
    assert_eq!(
        McpError::ToolError { tool: "t".into(), message: "m".into() }.message(),
        "MCP tool 't' failed: m"
    );
    assert_eq!(
        McpError::NoContent { tool: "t".into() }.message(),
        "MCP tool 't' returned no parseable content"
    );
    assert_eq!(
        McpError::RecoveryFailed { tool: "t".into(), message: "m".into() }.message(),
        "session recovery failed during 't': m"
    );
    assert_eq!(McpError::Transport("down".into()).message(), "MCP transport error: down");
}

#[test]
fn json_parse_error_message_carries_serde_text() {
    let source = serde_json::from_str::<serde_json::Value>("{").unwrap_err();
    let expected = format!("JSON parse error in 'get_map' response: {source}");
    let err = McpError::JsonParse { tool: "get_map".into(), source };
    assert_eq!(err.message(), expected);
    assert!(err.message().len() > "JSON parse error in 'get_map' response: ".len());
}

#[test]
fn transport_expiry_is_detected() {
    assert!(is_session_expiry_error(&McpError::Transport("HTTP 400: session_invalid".into())));
    assert!(!is_session_expiry_error(&McpError::RecoveryFailed {
        tool: "x".into(),
        message: "session_invalid".into(),
    }));
}

#[test]
fn recovery_rules() {
    let expired = McpError::ToolError { tool: "get_status".into(), message: "session_required".into() };
    let other = McpError::ToolError { tool: "get_status".into(), message: "boom".into() };
    assert!(can_recover("get_status", true, true, &expired));
    assert!(!can_recover("login", true, true, &expired));
    assert!(!can_recover("register", true, true, &expired));
    assert!(!can_recover("get_status", false, true, &expired));
    assert!(!can_recover("get_status", true, false, &expired));
    assert!(!can_recover("get_status", true, true, &other));
}

#[test]
fn session_id_injection() {
    assert!(injects_session_id("get_status", true));
    assert!(!injects_session_id("get_status", false));
    assert!(!injects_session_id("login", true));
    assert!(!injects_session_id("register", true));
}

#[test]
fn tool_result_reading() {
    match interpret_tool_result("get_cargo", true, None, true) {
        ToolOutcome::Failed(McpError::ToolError { tool, message }) => {
            assert_eq!(tool, "get_cargo");
            assert_eq!(message, "unknown error");
        }
        other => panic!("unexpected {other:?}"),
    }
    assert!(matches!(interpret_tool_result("t", false, Some("{}".into()), true), ToolOutcome::Structured));
    match interpret_tool_result("t", false, Some("[1]".into()), false) {
        ToolOutcome::ParseText(x) => assert_eq!(x, "[1]"),
        other => panic!("unexpected {other:?}"),
    }
    match interpret_tool_result("t", false, None, false) {
        ToolOutcome::Failed(McpError::NoContent { tool }) => assert_eq!(tool, "t"),
        other => panic!("unexpected {other:?}"),
    }
}

#[test]
fn substring_search() {
    assert!(text_contains("abc", ""));
    assert!(text_contains("xx session_required", "session_required"));
    assert!(!text_contains("sess", "session"));
    assert_eq!(MCP_ENDPOINT, "https://game.spacemolt.com/mcp");
}

#[test]
fn recovery_steps() {
    let expired = || McpError::ToolError { tool: "get_status".into(), message: "session_invalid".into() };
    let (stage, action) = call_step("get_status", true, true, CallStage::First, CallEvent::Failed(expired()));
    assert_eq!(stage, CallStage::Relogin);
    assert!(matches!(action, CallAction::LogIn));
    let (stage, action) = call_step("get_status", true, true, CallStage::Relogin, CallEvent::Succeeded);
    assert_eq!(stage, CallStage::Retry);
    assert!(matches!(action, CallAction::RetryCall));
    let (_, action) = call_step("get_status", true, true, CallStage::Retry, CallEvent::Failed(expired()));
    assert!(matches!(action, CallAction::Fail(McpError::ToolError { .. })));
    let (_, action) = call_step("get_status", true, true, CallStage::First, CallEvent::Succeeded);
    assert!(matches!(action, CallAction::Finish));
    let (_, action) = call_step("login", true, true, CallStage::First, CallEvent::Failed(expired()));
    assert!(matches!(action, CallAction::Fail(_)));
    let (_, action) = call_step(
        "get_map",
        true,
        true,
        CallStage::Relogin,
        CallEvent::Failed(McpError::Transport("down".into())),
    );
    match action {
        CallAction::Fail(McpError::RecoveryFailed { tool, message }) => {
            assert_eq!(tool, "get_map");
            assert_eq!(message, "re-login failed: MCP transport error: down");
        }
        other => panic!("unexpected {other:?}"),
    }
}
