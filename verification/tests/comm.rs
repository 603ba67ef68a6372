use webview_bridge::comm::{
    default_backoff_ms, default_max_attempts, BatchOperation, BatchRequest, EventMessage, JobManager,
    JobStatus, JobType, WebhookPayload, WebhookRetry,
};
use webview_bridge::error_codes;
use webview_bridge::event_types;

#[test]
fn test_job_lifecycle() {
    let mut manager = JobManager::new();

    let id = manager.create_job(JobType::Download, None);
    let job = manager.get_job(&id).unwrap();
    assert_eq!(job.status, JobStatus::Pending);

    manager.start_job(&id);
    let job = manager.get_job(&id).unwrap();
    assert_eq!(job.status, JobStatus::Running);

    manager.update_progress(&id, 50, Some(30));
    let job = manager.get_job(&id).unwrap();
    assert_eq!(job.percent, Some(50));

    manager.complete_job(&id, r#"{"file":"test.zip"}"#.to_string());
    let job = manager.get_job(&id).unwrap();
    assert_eq!(job.status, JobStatus::Completed);
    assert_eq!(job.percent, Some(100));
}

#[test]
fn test_job_fail() {
    let mut manager = JobManager::new();

    let id = manager.create_job(JobType::AiAnalysis, None);
    manager.start_job(&id);
    manager.fail_job(&id, "API error");

    let job = manager.get_job(&id).unwrap();
    assert_eq!(job.status, JobStatus::Failed);
    assert_eq!(job.error, Some("API error".to_string()));
}

#[test]
fn test_job_cancel() {
    let mut manager = JobManager::new();

    let id = manager.create_job(JobType::Extract, None);
    manager.start_job(&id);

    assert!(manager.cancel_job(&id));
    let job = manager.get_job(&id).unwrap();
    assert_eq!(job.status, JobStatus::Cancelled);
}

#[test]
fn test_job_cancel_completed_fails() {
    let mut manager = JobManager::new();

    let id = manager.create_job(JobType::Screenshot, None);
    manager.start_job(&id);
    manager.complete_job(&id, "{}".to_string());

    assert!(!manager.cancel_job(&id));
}

#[test]
fn test_job_list_all() {
    let mut manager = JobManager::new();

    manager.create_job(JobType::Download, None);
    manager.create_job(JobType::Extract, None);
    manager.create_job(JobType::AiAnalysis, None);

    let all_jobs = manager.list_jobs(None);
    assert_eq!(all_jobs.len(), 3);
}

#[test]
fn test_job_list_with_filter() {
    let mut manager = JobManager::new();

    let id1 = manager.create_job(JobType::Download, None);
    let id2 = manager.create_job(JobType::Extract, None);
    manager.create_job(JobType::AiAnalysis, None);

    manager.start_job(&id1);
    manager.start_job(&id2);
    manager.complete_job(&id1, "{}".to_string());

    let running = manager.list_jobs(Some(JobStatus::Running));
    assert_eq!(running.len(), 1);

    let completed = manager.list_jobs(Some(JobStatus::Completed));
    assert_eq!(completed.len(), 1);

    let pending = manager.list_jobs(Some(JobStatus::Pending));
    assert_eq!(pending.len(), 1);
}

#[test]
fn test_job_get_not_found() {
    let manager = JobManager::new();
    assert!(manager.get_job("nonexistent").is_none());
}

#[test]
fn test_webhook_payload() {
    let mut payload = WebhookPayload::new("job_completed", r#"{"job_id":"123"}"#.to_string());

    payload.sign("my_secret");
    assert!(payload.signature.is_some());
    assert!(payload.signature.unwrap().starts_with("sha256="));
}

#[test]
fn test_webhook_payload_consistent_signature() {
    let mut payload1 = WebhookPayload {
        event: "test".to_string(),
        timestamp: "12345".to_string(),
        data: "{}".to_string(),
        signature: None,
    };

    let mut payload2 = WebhookPayload {
        event: "test".to_string(),
        timestamp: "12345".to_string(),
        data: "{}".to_string(),
        signature: None,
    };

    payload1.sign("secret");
    payload2.sign("secret");

    assert_eq!(payload1.signature, payload2.signature);
}

#[test]
fn test_event_message() {
    let msg = EventMessage::new(
        event_types::DOWNLOAD_COMPLETED,
        Some("main".to_string()),
        r#"{"file":"test.zip"}"#.to_string(),
    );

    assert_eq!(msg.event_type, "download_completed");
    assert_eq!(msg.session, Some("main".to_string()));
}

#[test]
fn test_event_message_no_session() {
    let msg = EventMessage::new(event_types::ERROR, None, r#"{"message":"test error"}"#.to_string());

    assert_eq!(msg.event_type, "error");
    assert!(msg.session.is_none());
}

#[test]
fn test_event_types() {
    assert_eq!(event_types::DOWNLOAD_STARTED, "download_started");
    assert_eq!(event_types::JOB_COMPLETED, "job_completed");
    assert_eq!(event_types::SESSION_ACQUIRED, "session_acquired");
    assert_eq!(event_types::DOM_CHANGE, "dom_change");
}

#[test]
fn test_error_codes() {
    assert_eq!(error_codes::SESSION_NOT_FOUND, "WBP2_001");
    assert_eq!(error_codes::AI_NOT_AVAILABLE, "WBP2_100");
    assert_eq!(error_codes::DOWNLOAD_NOT_FOUND, "WBP2_110");
    assert_eq!(error_codes::JOB_NOT_FOUND, "WBP2_120");
    assert_eq!(error_codes::INTERNAL_ERROR, "WBP2_099");
}

#[test]
fn test_batch_operation() {
    let batch = BatchRequest {
        operations: vec![
            BatchOperation {
                id: "op1".to_string(),
                method: "POST".to_string(),
                path: "/v2/screenshot".to_string(),
                body: r#"{"session":"main"}"#.to_string(),
                depends_on: vec![],
            },
            BatchOperation {
                id: "op2".to_string(),
                method: "POST".to_string(),
                path: "/v2/download/trigger".to_string(),
                body: r#"{"session":"main","url":"https://example.com"}"#.to_string(),
                depends_on: vec!["op1".to_string()],
            },
        ],
        stop_on_error: true,
        parallel: false,
        webhook: None,
    };

    assert_eq!(batch.operations.len(), 2);
    assert_eq!(batch.operations[1].depends_on, vec!["op1"]);
}

#[test]
fn cancelled_job_cannot_be_cancelled_again() {
    let mut manager = JobManager::new();
    let id = manager.create_job(JobType::Download, None);
    assert!(manager.cancel_job(&id));
    assert!(!manager.cancel_job(&id));
    assert_eq!(manager.get_job(&id).unwrap().status, JobStatus::Cancelled);
}

#[test]
fn failed_and_unknown_jobs_cannot_be_cancelled() {
    let mut manager = JobManager::new();
    let id = manager.create_job(JobType::Download, None);
    manager.fail_job(&id, "boom");
    assert!(!manager.cancel_job(&id));
    assert!(!manager.cancel_job("missing"));
}

#[test]
fn signature_is_hex_after_prefix() {
    let mut payload = WebhookPayload::new("e", "{}".to_string());
    payload.sign("s");
    let sig = payload.signature.clone().unwrap();
    assert!(sig["sha256=".len()..].chars().all(|c| c.is_ascii_hexdigit()));
    let mut other = payload.clone();
    other.sign("t");
    assert_ne!(other.signature.unwrap(), sig);
}

#[test]
fn webhook_retry_defaults() {
    let retry = WebhookRetry::default();
    assert_eq!(retry.max_attempts, 3);
    assert_eq!(retry.backoff_ms, 1000);
    assert_eq!(default_max_attempts(), 3);
    assert_eq!(default_backoff_ms(), 1000);
}
