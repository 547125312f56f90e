use sidecar_bootstrap::error::LaunchError;
use sidecar_bootstrap::report::{report, report_failure, STARTED_NOTE};

#[test]
fn success_is_logged_without_alert() {
    let told = report(&Ok(()));
    assert_eq!(told.log_line, "Server started successfully");
    assert_eq!(told.log_line, STARTED_NOTE);
    assert_eq!(told.alert, None);
}

#[test]
fn failure_is_logged_and_alerted() {
    let told = report(&Err(LaunchError::Spawn { reason: "denied".to_string() }));
    assert_eq!(told.log_line, "Failed to start server: Failed to spawn sidecar: denied");
    assert_eq!(
        told.alert,
        Some("alert('Server startup failed: Failed to spawn sidecar: denied')".to_string())
    );
}

#[test]
fn path_resolution_failure_is_alerted() {
    let told = report(&Err(LaunchError::PathResolution));
    assert_eq!(
        told.log_line,
        "Failed to start server: Failed to resolve the application directory"
    );
    assert_eq!(
        told.alert,
        Some(
            "alert('Server startup failed: Failed to resolve the application directory')"
                .to_string()
        )
    );
}

#[test]
fn missing_server_failure_names_the_path() {
    let told = report(&Err(LaunchError::ServerNotFound { path: "index.js".to_string() }));
    assert_eq!(told.log_line, "Failed to start server: Server file not found at: \"index.js\"");
    assert_eq!(
        told.alert,
        Some("alert('Server startup failed: Server file not found at: \"index.js\"')".to_string())
    );
}

#[test]
fn failure_report_takes_the_message_as_given() {
    let told = report_failure("boom");
    assert_eq!(told.log_line, "Failed to start server: boom");
    assert_eq!(told.alert, Some("alert('Server startup failed: boom')".to_string()));
}
