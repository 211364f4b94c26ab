use rmcp::model::{CallToolResult, ContentBlock, ErrorCode};
use rmcp::ErrorData;
use rmcp_i3::{
    envelope, Action, AdapterError, ErrorKind, Event, FocusWindowParams, I3Server,
    KillWindowParams, NativeCommandResult, ToolResult,
};

#[test]
fn content_travels_in_a_success_envelope() {
    let out = envelope(Ok(ToolResult { content: "Toggled fullscreen".to_string() }));
    let result = out.expect("content is not an error");
    assert_eq!(result, CallToolResult::success(vec![ContentBlock::text("Toggled fullscreen")]));
    assert_eq!(result.is_error, Some(false));
    assert_eq!(result.content.len(), 1);
    match &result.content[0] {
        ContentBlock::Text(block) => assert_eq!(block.text, "Toggled fullscreen"),
        other => panic!("expected a text block, got {:?}", other),
    }
    assert!(result.structured_content.is_none());
}

#[test]
fn adapter_error_travels_as_protocol_error() {
    let kinds = vec![
        ErrorKind::InvalidParameter,
        ErrorKind::ConnectionFailed,
        ErrorKind::IoFailure,
        ErrorKind::SerializationFailure,
    ];
    for kind in kinds {
        let out = envelope(Err(AdapterError { kind, message: "Failed to get tree: eof".to_string() }));
        let error = out.expect_err("an adapter-level error is not content");
        assert_eq!(error, ErrorData::internal_error("Failed to get tree: eof", None));
        assert_eq!(error.code, ErrorCode::INTERNAL_ERROR);
        assert_eq!(error.message, "Failed to get tree: eof");
        assert!(error.data.is_none());
    }
}

#[test]
fn empty_content_is_still_content() {
    let result = envelope(Ok(ToolResult { content: String::new() })).unwrap();
    assert_eq!(result, CallToolResult::success(vec![ContentBlock::text("")]));
}

#[test]
fn native_failure_keeps_the_success_envelope() {
    let server = I3Server::new();
    let (call, _) = server.kill_window(KillWindowParams {
        criteria: "[title=\"nonexistent\"]".to_string(),
    });
    let (call, _) = call.step(Event::Connected).unwrap();
    let reply = vec![NativeCommandResult {
        success: false,
        error: Some("No matching window".to_string()),
    }];
    let (_, action) = call.step(Event::CommandReplied(reply)).unwrap();
    let response = match action {
        Action::Respond(response) => response,
        other => panic!("expected a response, got {:?}", other),
    };
    let result = envelope(response).expect("a native failure is content");
    assert_eq!(result.is_error, Some(false));
    assert_eq!(
        result.content,
        vec![ContentBlock::text("Failed to kill window: No matching window")]
    );
}

#[test]
fn missing_text_leaves_on_the_error_channel() {
    let server = I3Server::new();
    let (_, action) = server.focus_window(FocusWindowParams { criteria: String::new() });
    let response = match action {
        Action::Respond(response) => response,
        other => panic!("expected a response, got {:?}", other),
    };
    let error = envelope(response).expect_err("a rejected request is not content");
    assert_eq!(error.code, ErrorCode::INTERNAL_ERROR);
    assert_eq!(error.message, "Criteria must not be empty");
}

#[test]
fn connection_failure_leaves_on_the_error_channel() {
    let server = I3Server::new();
    let (call, _) = server.get_workspaces();
    let cause = "No such file or directory (os error 2)".to_string();
    let (_, action) = call.step(Event::ConnectFailed(cause)).unwrap();
    let response = match action {
        Action::Respond(response) => response,
        other => panic!("expected a response, got {:?}", other),
    };
    let error = envelope(response).expect_err("a connection failure is not content");
    assert_eq!(error.code, ErrorCode::INTERNAL_ERROR);
    assert_eq!(error.message, "Failed to connect to i3: No such file or directory (os error 2)");
}
