use tealdrive::config::{AllowedRoot, AppConfig, RelativePath, RootId, WebRootPolicyConfig};
use tealdrive::errors::{ErrorKind, ErrorPayload, PolicyReason, TealDriveError};
use tealdrive::fs::filename::SafeFileName;
use tealdrive::policy::decision::{
    policy_denial_error_payload, FileOperation, PolicyDecision, PolicyEngine,
};
use tealdrive::policy::feature_gate::{DisabledOperation, FeatureFlags, FeatureGate, FeatureGateResult};
use tealdrive::policy::webroot::check_webroot_upload;
use tealdrive::protocol::frame::RequestId;
use tealdrive::protocol::message_type::MessageType;

fn config(root: AllowedRoot) -> AppConfig {
    AppConfig {
        roots: vec![root],
        ..AppConfig::default()
    }
}

fn root(read_only: bool, is_web_root: bool) -> AllowedRoot {
    AllowedRoot {
        root_id: RootId::new("root"),
        base_path: "/tmp".to_owned(),
        read_only,
        uploads_allowed: true,
        hidden_files_allowed: false,
        is_web_root,
    }
}

#[test]
fn read_only_allows_list() {
    let config = config(root(true, false));
    let engine = PolicyEngine::new(&config);

    assert_eq!(
        engine.check_operation(
            FileOperation::ListDirectory,
            &RootId::new("root"),
            &RelativePath::new(""),
            None,
            None,
            true
        ),
        Ok(PolicyDecision::Allow)
    );
}

#[test]
fn read_only_allows_download_if_not_sensitive_denied() {
    let config = config(root(true, false));
    let engine = PolicyEngine::new(&config);

    assert_eq!(
        engine.check_operation(
            FileOperation::DownloadFile,
            &RootId::new("root"),
            &RelativePath::new("notes.txt"),
            None,
            None,
            true
        ),
        Ok(PolicyDecision::Allow)
    );
}

#[test]
fn read_only_denies_write_operations() {
    let config = config(root(true, false));
    let engine = PolicyEngine::new(&config);
    for operation in [
        FileOperation::UploadFile,
        FileOperation::RenameFile,
        FileOperation::MoveToTrash,
    ] {
        assert_eq!(
            engine.check_operation(
                operation,
                &RootId::new("root"),
                &RelativePath::new("file.txt"),
                None,
                Some(&SafeFileName("file.txt".to_owned())),
                true
            ),
            Ok(PolicyDecision::Deny(PolicyReason::ReadOnlyRoot))
        );
    }
}

#[test]
fn feature_gate_denies_disabled_operations() {
    let config = config(root(false, false));
    let engine = PolicyEngine::new(&config);

    for operation in [
        FileOperation::SaveTextFile,
        FileOperation::ChmodFile,
        FileOperation::ExtractArchive,
        FileOperation::DeletePermanently,
    ] {
        assert_eq!(
            engine.check_operation(
                operation,
                &RootId::new("root"),
                &RelativePath::new("file.txt"),
                None,
                None,
                true
            ),
            Ok(PolicyDecision::Deny(PolicyReason::FeatureDisabled))
        );
    }
}

#[test]
fn webroot_script_upload_denied_by_policy_engine() {
    let config = config(root(false, true));
    let engine = PolicyEngine::new(&config);

    assert_eq!(
        engine.check_operation(
            FileOperation::UploadFile,
            &RootId::new("root"),
            &RelativePath::new(""),
            None,
            Some(&SafeFileName::parse("index.php").unwrap()),
            true
        ),
        Ok(PolicyDecision::Deny(PolicyReason::WebRootExecutableUpload))
    );
}

#[test]
fn unknown_root_is_invalid_root_id() {
    let config = config(root(false, false));
    let engine = PolicyEngine::new(&config);

    assert_eq!(
        engine.check_operation(
            FileOperation::ListDirectory,
            &RootId::new("elsewhere"),
            &RelativePath::new(""),
            None,
            None,
            true
        ),
        Err(TealDriveError::InvalidRootId)
    );
}

#[test]
fn hidden_path_denied_unless_allowed() {
    let config = config(root(false, false));
    let engine = PolicyEngine::new(&config);

    assert_eq!(
        engine.check_operation(
            FileOperation::ListDirectory,
            &RootId::new("root"),
            &RelativePath::new(".ssh"),
            None,
            None,
            false
        ),
        Ok(PolicyDecision::Deny(PolicyReason::HiddenFile))
    );
}

#[test]
fn policy_denial_converts_to_safe_error_payload() {
    let payload = policy_denial_error_payload(
        RequestId::new(),
        FileOperation::ReadTextFile,
        PolicyReason::SensitivePath,
    );

    assert_eq!(payload.policy_reason, Some(PolicyReason::SensitivePath));
    assert!(!payload.safe_message.contains("/tmp/secret/.env"));
}

#[test]
fn feature_disabled_error_payload_is_safe() {
    let request_id = RequestId::new();
    let payload = ErrorPayload::feature_disabled(request_id, "SAVE_TEXT_FILE");

    assert_eq!(payload.code, "FEATURE_DISABLED");
    assert_eq!(payload.error_kind, ErrorKind::FeatureDisabled);
    assert_eq!(payload.policy_reason, Some(PolicyReason::FeatureDisabled));
    assert!(!payload.safe_message.contains('/'));
}

#[test]
fn dangerous_v1_features_are_disabled_by_default() {
    let flags = FeatureFlags::default();

    assert_eq!(
        FeatureGate::check(MessageType::SaveTextFile, &flags),
        FeatureGateResult::Disabled {
            operation: DisabledOperation::SaveTextFile,
            reason: PolicyReason::FeatureDisabled,
        }
    );
    assert_eq!(
        FeatureGate::check(MessageType::ChmodFile, &flags),
        FeatureGateResult::Disabled {
            operation: DisabledOperation::ChmodFile,
            reason: PolicyReason::FeatureDisabled,
        }
    );
    assert_eq!(
        FeatureGate::check(MessageType::ExtractArchive, &flags),
        FeatureGateResult::Disabled {
            operation: DisabledOperation::ExtractArchive,
            reason: PolicyReason::FeatureDisabled,
        }
    );
    assert_eq!(
        FeatureGate::check(MessageType::DeletePermanently, &flags),
        FeatureGateResult::Disabled {
            operation: DisabledOperation::DeletePermanently,
            reason: PolicyReason::FeatureDisabled,
        }
    );
}

#[test]
fn php_upload_denied_in_webroot() {
    assert_eq!(
        check_webroot_upload(
            true,
            &SafeFileName::parse("index.php").unwrap(),
            &WebRootPolicyConfig::default()
        ),
        PolicyDecision::Deny(PolicyReason::WebRootExecutableUpload)
    );
}

#[test]
fn sh_upload_denied_in_webroot() {
    assert_eq!(
        check_webroot_upload(
            true,
            &SafeFileName::parse("deploy.sh").unwrap(),
            &WebRootPolicyConfig::default()
        ),
        PolicyDecision::Deny(PolicyReason::WebRootExecutableUpload)
    );
}

#[test]
fn text_upload_allowed_in_webroot_if_write_allowed() {
    assert_eq!(
        check_webroot_upload(
            true,
            &SafeFileName::parse("readme.txt").unwrap(),
            &WebRootPolicyConfig::default()
        ),
        PolicyDecision::Allow
    );
}

#[test]
fn upper_case_php_upload_denied_outside_webroot_allowed() {
    assert_eq!(
        check_webroot_upload(
            true,
            &SafeFileName::parse("INDEX.PHP").unwrap(),
            &WebRootPolicyConfig::default()
        ),
        PolicyDecision::Deny(PolicyReason::WebRootExecutableUpload)
    );
    assert_eq!(
        check_webroot_upload(
            false,
            &SafeFileName::parse("index.php").unwrap(),
            &WebRootPolicyConfig::default()
        ),
        PolicyDecision::Allow
    );
}
