use browser_sessions::error::{SessionError, Stage, Status, ToolError};

#[test]
fn fixed_failures_have_fixed_messages() {
    assert_eq!(SessionError::NotFound.message(), "Browser instance not found");
    assert_eq!(SessionError::NoActivePage.message(), "No active page found");
}

#[test]
fn carried_messages_are_given_as_they_are() {
    assert_eq!(SessionError::ConfigurationError("bad size".to_string()).message(), "bad size");
    assert_eq!(SessionError::ConnectionError("lost".to_string()).message(), "lost");
    assert_eq!(SessionError::IoError("full".to_string()).message(), "full");
}

#[test]
fn each_stage_has_its_prefix() {
    assert_eq!(Stage::BuildConfig.prefix_text(), "Failed to build config: ");
    assert_eq!(Stage::Launch.prefix_text(), "Failed to launch browser: ");
    assert_eq!(Stage::CreatePage.prefix_text(), "Failed to create page: ");
    assert_eq!(Stage::Navigate.prefix_text(), "Failed to navigate: ");
    assert_eq!(Stage::ListPages.prefix_text(), "Failed to get pages: ");
    assert_eq!(Stage::Evaluate.prefix_text(), "Failed to execute JS: ");
    assert_eq!(Stage::Serialize.prefix_text(), "Failed to serialize result: ");
    assert_eq!(Stage::Capture.prefix_text(), "Failed to take screenshot: ");
    assert_eq!(Stage::WriteFile.prefix_text(), "Failed to write screenshot: ");
    assert_eq!(Stage::ReadContent.prefix_text(), "Failed to get content: ");
}

#[test]
fn only_storing_a_file_fails_as_io() {
    assert_eq!(
        Stage::WriteFile.failed("denied"),
        SessionError::IoError("Failed to write screenshot: denied".to_string())
    );
    for stage in [
        Stage::BuildConfig,
        Stage::Launch,
        Stage::CreatePage,
        Stage::Navigate,
        Stage::ListPages,
        Stage::Evaluate,
        Stage::Serialize,
        Stage::Capture,
        Stage::ReadContent,
    ] {
        let mut expected = stage.prefix_text().to_string();
        expected.push_str("why");
        assert_eq!(stage.failed("why"), SessionError::ConnectionError(expected));
    }
}

#[test]
fn tool_errors_carry_status_and_reason() {
    assert_eq!(
        ToolError::invalid("a".to_string()),
        ToolError { status: Status::InvalidArg, reason: "a".to_string() }
    );
    assert_eq!(
        ToolError::generic("b".to_string()),
        ToolError { status: Status::GenericFailure, reason: "b".to_string() }
    );
}

#[test]
fn only_the_callers_mistakes_are_invalid_arguments() {
    assert_eq!(SessionError::NotFound.status(), Status::InvalidArg);
    assert_eq!(SessionError::ConfigurationError("x".to_string()).status(), Status::InvalidArg);
    assert_eq!(SessionError::ConnectionError("x".to_string()).status(), Status::GenericFailure);
    assert_eq!(SessionError::NoActivePage.status(), Status::GenericFailure);
    assert_eq!(SessionError::IoError("x".to_string()).status(), Status::GenericFailure);
}
