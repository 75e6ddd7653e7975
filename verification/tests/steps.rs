use tealdrive::config::{AllowedRoot, AppConfig, RelativePath, RootId, UserContext};
use tealdrive::errors::{ErrorKind, TealDriveError};
use tealdrive::fs::create_folder::{folder_authorize, folder_plan};
use tealdrive::fs::move_copy::transfer_plan;
use tealdrive::fs::rename::rename_plan;
use tealdrive::fs::trash::trash_plan;
use tealdrive::helper::errors::helper_precheck;
use tealdrive::helper::types::{HelperCommand, HelperLimits, HelperPolicyContext, HelperRequest};
use tealdrive::policy::decision::PolicyEngine;
use tealdrive::protocol::frame::RequestId;
use tealdrive::protocol::payload::{
    CopyFileRequest, CreateFolderRequest, MoveFileRequest, MoveToTrashRequest, RenameFileRequest,
};

fn config_for(read_only: bool, hidden_allowed: bool) -> AppConfig {
    AppConfig {
        roots: vec![AllowedRoot {
            root_id: RootId::new("home"),
            base_path: "/srv/home".to_owned(),
            read_only,
            uploads_allowed: true,
            hidden_files_allowed: hidden_allowed,
            is_web_root: false,
        }],
        ..AppConfig::default()
    }
}

fn user() -> UserContext {
    UserContext {
        username: "alice".to_owned(),
        uid: 1000,
        gid: 1000,
    }
}

fn folder_request(parent: &str, name: &str) -> CreateFolderRequest {
    CreateFolderRequest {
        root_id: RootId::new("home"),
        parent_relative_path: RelativePath::new(parent),
        folder_name: name.to_owned(),
    }
}

/// The checks a folder creation makes before and after resolving its parent,
/// with the parent taken as resolved.
fn create_folder_checks(request: CreateFolderRequest, config: &AppConfig) -> Result<HelperRequest, TealDriveError> {
    let plan = folder_plan(&request, config)?;
    let engine = PolicyEngine::new(config);
    folder_authorize(RequestId::new(), &user(), &request.root_id, &plan, config, &engine)
}

#[test]
fn create_folder_unknown_root_rejected() {
    let config = config_for(false, false);
    let mut req = folder_request("", "new-folder");
    req.root_id = RootId::new("missing");
    assert_eq!(create_folder_checks(req, &config), Err(TealDriveError::InvalidRootId));
}

#[test]
fn create_folder_rejects_absolute_and_traversal_parent() {
    let config = config_for(false, false);
    assert_eq!(
        create_folder_checks(folder_request("/etc", "new"), &config),
        Err(TealDriveError::AbsolutePathRejected)
    );
    assert_eq!(
        create_folder_checks(folder_request("../etc", "new"), &config),
        Err(TealDriveError::TraversalRejected)
    );
}

#[test]
fn create_folder_rejects_invalid_names() {
    let config = config_for(false, false);
    assert_eq!(
        create_folder_checks(folder_request("", "bad/name"), &config),
        Err(TealDriveError::InvalidFilename)
    );
    assert_eq!(
        create_folder_checks(folder_request("", "bad\0name"), &config),
        Err(TealDriveError::NullByteRejected)
    );
    assert_eq!(
        create_folder_checks(folder_request("", "."), &config),
        Err(TealDriveError::ReservedNameRejected)
    );
    assert_eq!(
        create_folder_checks(folder_request("", ".."), &config),
        Err(TealDriveError::ReservedNameRejected)
    );
}

#[test]
fn read_only_root_denies_create_before_helper() {
    let config = config_for(true, false);
    assert_eq!(
        create_folder_checks(folder_request("", "new"), &config),
        Err(TealDriveError::PolicyDenied)
    );
}

#[test]
fn writable_root_lets_create_reach_the_helper() {
    let config = config_for(false, false);
    let sent = create_folder_checks(folder_request("docs", "new"), &config).unwrap();
    assert_eq!(sent.command, HelperCommand::CreateFolder);
    assert_eq!(sent.relative_path, RelativePath::new("docs"));
    assert_eq!(sent.target_relative_path, Some(RelativePath::new("new")));
    assert_eq!(sent.uid, 1000);
}

fn move_req(src: &str, dst: &str) -> MoveFileRequest {
    MoveFileRequest {
        root_id: RootId::new("home"),
        relative_path: RelativePath::new(src),
        target_root_id: RootId::new("home"),
        target_relative_path: RelativePath::new(dst),
    }
}

fn copy_req(src: &str, dst: &str) -> CopyFileRequest {
    CopyFileRequest {
        root_id: RootId::new("home"),
        relative_path: RelativePath::new(src),
        target_root_id: RootId::new("home"),
        target_relative_path: RelativePath::new(dst),
    }
}

#[test]
fn cross_root_move_denied() {
    let config = config_for(false, false);
    let mut req = move_req("old.txt", "new.txt");
    req.target_root_id = RootId::new("other");
    let plan = transfer_plan(
        &req.root_id,
        &req.relative_path,
        &req.target_root_id,
        &req.target_relative_path,
        &config,
    );
    assert_eq!(plan.err(), Some(TealDriveError::InvalidTarget));
}

#[test]
fn move_unknown_root_rejected() {
    let config = config_for(false, false);
    let mut req = move_req("old.txt", "new.txt");
    req.root_id = RootId::new("missing");
    req.target_root_id = RootId::new("missing");
    let plan = transfer_plan(
        &req.root_id,
        &req.relative_path,
        &req.target_root_id,
        &req.target_relative_path,
        &config,
    );
    assert_eq!(plan.err(), Some(TealDriveError::InvalidRootId));
}

#[test]
fn cross_root_copy_denied() {
    let config = config_for(false, false);
    let mut req = copy_req("orig.txt", "copy.txt");
    req.target_root_id = RootId::new("other");
    let plan = transfer_plan(
        &req.root_id,
        &req.relative_path,
        &req.target_root_id,
        &req.target_relative_path,
        &config,
    );
    assert_eq!(plan.err(), Some(TealDriveError::InvalidTarget));
}

fn rename_req(path: &str, new_name: &str) -> RenameFileRequest {
    RenameFileRequest {
        root_id: RootId::new("home"),
        relative_path: RelativePath::new(path),
        new_name: new_name.to_owned(),
    }
}

#[test]
fn rename_unknown_root_rejected() {
    let config = config_for(false, false);
    let mut req = rename_req("old.txt", "new.txt");
    req.root_id = RootId::new("missing");
    assert_eq!(rename_plan(&req, &config).err(), Some(TealDriveError::InvalidRootId));
}

#[test]
fn rename_rejects_absolute_and_traversal_source() {
    let config = config_for(false, false);
    assert_eq!(
        rename_plan(&rename_req("/etc", "new"), &config).err(),
        Some(TealDriveError::AbsolutePathRejected)
    );
    assert_eq!(
        rename_plan(&rename_req("../etc", "new"), &config).err(),
        Some(TealDriveError::TraversalRejected)
    );
}

fn trash_req(path: &str) -> MoveToTrashRequest {
    MoveToTrashRequest {
        root_id: RootId::new("home"),
        relative_path: RelativePath::new(path),
    }
}

#[test]
fn unknown_root_rejected() {
    let config = config_for(false, false);
    let mut req = trash_req("file.txt");
    req.root_id = RootId::new("missing");
    assert_eq!(trash_plan(&req, &config).err(), Some(TealDriveError::InvalidRootId));
}

#[test]
fn trash_traversal_rejected() {
    let config = config_for(false, false);
    assert_eq!(
        trash_plan(&trash_req("../etc/passwd"), &config).err(),
        Some(TealDriveError::TraversalRejected)
    );
}

fn helper_request(command: HelperCommand, uid: u32) -> HelperRequest {
    HelperRequest {
        request_id: RequestId::new(),
        username: "alice".to_owned(),
        uid,
        gid: 1000,
        command,
        root_id: RootId::new("home"),
        relative_path: RelativePath::new("file.txt"),
        target_relative_path: None,
        policy_context: HelperPolicyContext {
            read_only_root: false,
            is_web_root: false,
        },
        limits: HelperLimits {
            max_directory_page_size: 500,
            max_text_edit_size: 5 * 1024 * 1024,
            max_chunk_size: 256 * 1024,
            max_download_helper_bytes: 64 * 1024 * 1024,
        },
        list_options: None,
    }
}

fn helper_roots() -> Vec<AllowedRoot> {
    config_for(false, false).roots
}

fn refused_for_uid_zero(command: HelperCommand) -> Option<ErrorKind> {
    let roots = helper_roots();
    let request = helper_request(command, 0);
    match helper_precheck(&request, command, &roots) {
        Ok(_) => None,
        Err(response) => {
            assert!(!response.success);
            response.error_kind
        }
    }
}

#[test]
fn helper_download_uid_zero_rejected() {
    assert_eq!(refused_for_uid_zero(HelperCommand::DownloadFile), Some(ErrorKind::PermissionDenied));
}

#[test]
fn helper_file_metadata_uid_zero_rejected() {
    assert_eq!(refused_for_uid_zero(HelperCommand::FileMetadata), Some(ErrorKind::PermissionDenied));
}

#[test]
fn helper_text_uid_zero_rejected() {
    assert_eq!(refused_for_uid_zero(HelperCommand::ReadTextFile), Some(ErrorKind::PermissionDenied));
}

#[test]
fn helper_move_rejects_uid_zero() {
    assert_eq!(refused_for_uid_zero(HelperCommand::Move), Some(ErrorKind::PermissionDenied));
}

#[test]
fn helper_copy_rejects_uid_zero() {
    assert_eq!(refused_for_uid_zero(HelperCommand::Copy), Some(ErrorKind::PermissionDenied));
}

#[test]
fn helper_trash_rejects_uid_zero() {
    assert_eq!(refused_for_uid_zero(HelperCommand::MoveToTrash), Some(ErrorKind::PermissionDenied));
}

#[test]
fn helper_create_folder_rejects_uid_zero() {
    assert_eq!(refused_for_uid_zero(HelperCommand::CreateFolder), Some(ErrorKind::PermissionDenied));
}

#[test]
fn helper_rename_rejects_uid_zero() {
    assert_eq!(refused_for_uid_zero(HelperCommand::Rename), Some(ErrorKind::PermissionDenied));
}

#[test]
fn sensitive_target_denied_without_leaking_path() {
    let config = config_for(false, true);
    let error = create_folder_checks(folder_request("", ".env"), &config).expect_err("denied");
    let serialized = format!("{error:?}");
    assert_eq!(error, TealDriveError::PolicyDenied);
    assert!(!serialized.contains("/srv/home"));
}
