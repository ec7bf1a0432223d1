use scheduler::access::{
    auth_required, authorize, delete_outcome, found_or_not_found, login_outcome, write_error, AppError,
    LoginBody, LoginOutcome,
};

#[test]
fn without_token_everything_passes() {
    assert!(authorize("/api/v1/tasks", None, None, None));
    assert!(!auth_required(None));
    assert!(auth_required(Some("t")));
}

#[test]
fn open_paths_pass() {
    assert!(authorize("/api/v1/auth/login", Some("s3"), None, None));
    assert!(authorize("/api/v1/auth/check", Some("s3"), None, None));
    assert!(!authorize("/api/v1/auth/checks", Some("s3"), None, None));
}

#[test]
fn bearer_and_cookie() {
    assert!(authorize("/api/v1/tasks", Some("s3"), Some("Bearer s3"), None));
    assert!(!authorize("/api/v1/tasks", Some("s3"), Some("bearer s3"), None));
    assert!(!authorize("/api/v1/tasks", Some("s3"), Some("Bearer s3 "), None));
    assert!(authorize("/api/v1/tasks", Some("s3"), None, Some("theme=dark;  auth_token=s3 ")));
    assert!(authorize("/api/v1/tasks", Some("s3"), Some("Bearer wrong"), Some("auth_token=s3")));
    assert!(!authorize("/api/v1/tasks", Some("s3"), None, Some("auth_token=s4; x=s3")));
    assert!(!authorize("/api/v1/tasks", Some("s3"), None, None));
}

#[test]
fn login_answers() {
    let body = LoginBody { token: "abc".to_string() };
    assert_eq!(login_outcome(Some("abc"), &body), LoginOutcome::Accepted);
    assert_eq!(login_outcome(Some("abd"), &body), LoginOutcome::Rejected);
    assert_eq!(login_outcome(None, &body), LoginOutcome::NotConfigured);
    assert_eq!(LoginOutcome::Accepted.message(), Some("Login successful"));
    assert_eq!(LoginOutcome::NotConfigured.message(), Some("Auth not configured"));
    assert_eq!(LoginOutcome::Rejected.message(), None);
}

#[test]
fn error_mapping() {
    let c = write_error("UNIQUE constraint failed: tasks.name");
    assert_eq!((c.status, c.message.as_str()), (409, "Task name already exists"));
    let i = write_error("disk I/O error");
    assert_eq!((i.status, i.message.as_str()), (500, "disk I/O error"));
    let n: Result<u8, AppError> = found_or_not_found(None);
    let e = n.unwrap_err();
    assert_eq!((e.status, e.message.as_str()), (404, "Task not found"));
    assert_eq!(found_or_not_found(Some(5u8)).ok(), Some(5));
    assert_eq!(delete_outcome(true).ok(), Some(204));
    assert_eq!(delete_outcome(false).unwrap_err().status, 404);
    assert_eq!(AppError::bad_request("x").status, 400);
    assert_eq!(AppError::unavailable("Scheduler is not available").status, 503);
}

#[test]
fn a_task_needs_a_command_or_a_webhook() {
    let mut req = scheduler::model::CreateTaskRequest {
        name: "n".to_string(),
        description: None,
        trigger_type: scheduler::model::TriggerType::Interval,
        trigger_expr: "60".to_string(),
        cron_tz_mode: None,
        command_config: None,
        webhook_config: None,
        enabled: None,
        max_retries: None,
        timeout_secs: None,
        interval_mode: None,
    };
    let e = scheduler::access::check_create_request(&req).unwrap_err();
    assert_eq!(e.status, 400);
    assert_eq!(e.message, "Either command_config or webhook_config is required");
    req.webhook_config = Some("{\"url\":\"http://h\"}".to_string());
    assert!(scheduler::access::check_create_request(&req).is_ok());
    req.command_config = Some("{\"program\":\"true\"}".to_string());
    req.webhook_config = None;
    assert!(scheduler::access::check_create_request(&req).is_ok());
}
