use tealdrive::audit::event::{AuditAction, AuditEvent, AuditReason, AuditStatus};
use tealdrive::audit::redaction::redact_secret;
use tealdrive::config::{RelativePath, RootId, UserContext};
use tealdrive::protocol::frame::RequestId;

fn alice() -> UserContext {
    UserContext {
        username: "alice".to_owned(),
        uid: 1000,
        gid: 1000,
    }
}

#[test]
fn audit_event_creation_works() {
    let event = AuditEvent::new(
        RequestId::new(),
        "alice",
        1000,
        1000,
        AuditAction::ListDirectory,
        AuditStatus::Success,
    );

    assert_eq!(event.username, "alice");
    assert_eq!(event.uid, 1000);
    assert_eq!(event.action, AuditAction::ListDirectory);
    assert_eq!(event.status, AuditStatus::Success);
    assert_eq!(event.timestamp, "1970-01-01T00:00:00Z");
    assert!(event.session_id_hash.is_empty());
}

#[test]
fn websocket_handshake_success_event_created() {
    let event = AuditEvent::websocket_handshake_success(RequestId::new(), "alice", 1000, 1000);

    assert_eq!(event.action, AuditAction::WebSocketHandshake);
    assert_eq!(event.status, AuditStatus::Success);
    assert_eq!(event.username, "alice");
}

#[test]
fn websocket_handshake_failure_event_created() {
    let event = AuditEvent::websocket_handshake_failure(RequestId::new(), "alice", AuditReason::HandshakeFailed);

    assert_eq!(event.action, AuditAction::WebSocketHandshake);
    assert_eq!(event.status, AuditStatus::Failed);
    assert_eq!(event.reason, Some(AuditReason::HandshakeFailed));
}

#[test]
fn file_metadata_audit_event_created() {
    let event = AuditEvent::file_metadata(
        RequestId::new(),
        &alice(),
        RootId::new("home"),
        RelativePath::new("file.txt"),
        AuditStatus::Success,
        None,
    );

    assert_eq!(event.action, AuditAction::FileMetadata);
    assert_eq!(event.status, AuditStatus::Success);
    assert_eq!(event.relative_path, Some(RelativePath::new("file.txt")));
}

#[test]
fn download_audit_event_records_bytes_out() {
    let event = AuditEvent::download(
        RequestId::new(),
        &alice(),
        RootId::new("home"),
        RelativePath::new("file.bin"),
        AuditStatus::Success,
        None,
        1024,
    );

    assert_eq!(event.action, AuditAction::Download);
    assert_eq!(event.bytes_out, 1024);
}

#[test]
fn text_preview_audit_event_records_bytes_in() {
    let event = AuditEvent::text_preview(
        RequestId::new(),
        &alice(),
        RootId::new("home"),
        RelativePath::new("notes.txt"),
        AuditStatus::Success,
        None,
        128,
    );

    assert_eq!(event.action, AuditAction::FilePreview);
    assert_eq!(event.bytes_in, 128);
}

#[test]
fn create_folder_audit_event_records_target_name() {
    let event = AuditEvent::create_folder(
        RequestId::new(),
        &alice(),
        RootId::new("home"),
        RelativePath::new("docs"),
        "new-folder",
        AuditStatus::Success,
        None,
    );

    assert_eq!(event.action, AuditAction::CreateFolder);
    assert_eq!(event.target_relative_path, Some(RelativePath::new("new-folder")));
}

#[test]
fn rename_audit_event_records_new_name() {
    let event = AuditEvent::rename(
        RequestId::new(),
        &alice(),
        RootId::new("home"),
        RelativePath::new("old.txt"),
        "new.txt",
        AuditStatus::Success,
        None,
    );

    assert_eq!(event.action, AuditAction::Rename);
    assert_eq!(event.relative_path, Some(RelativePath::new("old.txt")));
    assert_eq!(event.target_relative_path, Some(RelativePath::new("new.txt")));
}

#[test]
fn move_file_audit_event_records_source_and_target() {
    let event = AuditEvent::move_file(
        RequestId::new(),
        &alice(),
        RootId::new("home"),
        RelativePath::new("old.txt"),
        RelativePath::new("archive/old.txt"),
        AuditStatus::Success,
        None,
    );

    assert_eq!(event.action, AuditAction::MoveFile);
    assert_eq!(event.relative_path, Some(RelativePath::new("old.txt")));
    assert_eq!(event.target_relative_path, Some(RelativePath::new("archive/old.txt")));
    assert_eq!(event.status, AuditStatus::Success);
}

#[test]
fn copy_file_audit_event_records_source_and_target() {
    let event = AuditEvent::copy_file(
        RequestId::new(),
        &alice(),
        RootId::new("home"),
        RelativePath::new("orig.txt"),
        RelativePath::new("copies/orig.txt"),
        AuditStatus::Denied,
        Some(AuditReason::PolicyDenied),
    );

    assert_eq!(event.action, AuditAction::CopyFile);
    assert_eq!(event.relative_path, Some(RelativePath::new("orig.txt")));
    assert_eq!(event.target_relative_path, Some(RelativePath::new("copies/orig.txt")));
    assert_eq!(event.status, AuditStatus::Denied);
    assert_eq!(event.reason, Some(AuditReason::PolicyDenied));
}

#[test]
fn failures_and_expiry_carry_reasons() {
    let failed = AuditEvent::login_failure(RequestId::new(), "mallory", AuditReason::InvalidCredentials);
    assert_eq!((failed.uid, failed.gid), (0, 0));
    assert_eq!(failed.reason, Some(AuditReason::InvalidCredentials));
    let expired = AuditEvent::session_expired(RequestId::new(), "alice", 1000, 1000);
    assert_eq!(expired.status, AuditStatus::Failed);
    assert_eq!(expired.reason, Some(AuditReason::SessionExpired));
    let rejected = AuditEvent::websocket_rejection(RequestId::new(), "alice", 1000, 1000, AuditReason::OperationBeforeReady);
    assert_eq!(rejected.status, AuditStatus::Denied);
}

#[test]
fn secrets_are_redacted() {
    assert_eq!(redact_secret("password", "hunter2"), "[REDACTED]");
    assert_eq!(redact_secret("password", ""), "");
}

#[test]
fn request_ids_are_random() {
    assert_ne!(RequestId::new(), RequestId::new());
}
