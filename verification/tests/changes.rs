use tealdrive::config::{AllowedRoot, AppConfig, RelativePath, RootId, UserContext};
use tealdrive::errors::{ErrorKind, TealDriveError};
use tealdrive::fs::changes::{
    copy_file_request_next, create_folder_request_next, move_file_request_next, move_to_trash_request_next,
    rename_file_request_next, ChangeFacts, ChangeNext,
};
use tealdrive::fs::filename::SafeFileName;
use tealdrive::fs::path::{ExistingPathResolution, NewTargetResolution, ResolvedRoot};
use tealdrive::helper::trash::trash_entry_response;
use tealdrive::helper::types::{HelperCommand, HelperRequest, HelperResponse};
use tealdrive::policy::decision::PolicyEngine;
use tealdrive::protocol::payload::{
    CopyFileRequest, CreateFolderRequest, MoveFileRequest, MoveToTrashRequest, RenameFileRequest,
};
use tealdrive::trash::model::TrashEntry;

fn home(read_only: bool, is_web_root: bool) -> AllowedRoot {
    AllowedRoot {
        root_id: RootId::new("home"),
        base_path: "/srv/home".to_owned(),
        read_only,
        uploads_allowed: true,
        hidden_files_allowed: false,
        is_web_root,
    }
}

fn config_for(read_only: bool, is_web_root: bool) -> AppConfig {
    AppConfig { roots: vec![home(read_only, is_web_root)], ..AppConfig::default() }
}

fn user() -> UserContext {
    UserContext { username: "alice".to_owned(), uid: 1000, gid: 1000 }
}

fn resolved(relative: &str) -> ExistingPathResolution {
    ExistingPathResolution {
        root: ResolvedRoot { root_id: RootId::new("home"), canonical_base: "/srv/home".to_owned(), root: home(false, false) },
        relative_path: RelativePath::new(relative),
        resolved_path: if relative.is_empty() { "/srv/home".to_owned() } else { format!("/srv/home/{relative}") },
        is_symlink: false,
    }
}

fn new_target(parent: &str, name: &str) -> NewTargetResolution {
    let resolved_parent = if parent.is_empty() { "/srv/home".to_owned() } else { format!("/srv/home/{parent}") };
    NewTargetResolution {
        root: resolved("").root,
        parent_relative_path: RelativePath::new(parent),
        filename: SafeFileName::parse(name).unwrap(),
        resolved_path: format!("{resolved_parent}/{name}"),
        resolved_parent,
    }
}

/// Plays a change against a pretend filesystem in which `existing` paths
/// exist and `present` names are already taken, with a helper that answers
/// `answer`; gives the outcome and the request the helper was sent.
fn play<T>(
    next: impl Fn(&ChangeFacts) -> ChangeNext<T>,
    answer: impl Fn(&HelperRequest) -> Result<HelperResponse, TealDriveError>,
    existing: &[&str],
    present: bool,
) -> (Result<T, TealDriveError>, Option<HelperRequest>) {
    let mut facts = ChangeFacts::new();
    let mut sent = None;
    for _ in 0..10 {
        match next(&facts) {
            ChangeNext::ResolveSource(root, path) => {
                assert_eq!(root.root_id, RootId::new("home"));
                facts.source = Some(if existing.contains(&path.0.as_str()) {
                    Ok(resolved(&path.0))
                } else {
                    Err(TealDriveError::NotFound)
                });
            }
            ChangeNext::ResolveTarget(_, parent, name) => facts.target = Some(Ok(new_target(&parent.0, &name))),
            ChangeNext::Exists(_) => facts.target_exists = Some(present),
            ChangeNext::AskHelper(request) => {
                facts.answer = Some((request.request_id, answer(&request)));
                sent = Some(request);
            }
            ChangeNext::Done(result) => return (result, sent),
        }
    }
    panic!("the change did not finish");
}

fn done(request: &HelperRequest) -> Result<HelperResponse, TealDriveError> {
    Ok(HelperResponse::operation_done(request, "Done."))
}

fn never(_: &HelperRequest) -> Result<HelperResponse, TealDriveError> {
    panic!("helper must not be called")
}

fn move_req(src: &str, dst: &str) -> MoveFileRequest {
    MoveFileRequest {
        root_id: RootId::new("home"),
        relative_path: RelativePath::new(src),
        target_root_id: RootId::new("home"),
        target_relative_path: RelativePath::new(dst),
    }
}

fn copy_req(src: &str, dst: &str) -> CopyFileRequest {
    CopyFileRequest {
        root_id: RootId::new("home"),
        relative_path: RelativePath::new(src),
        target_root_id: RootId::new("home"),
        target_relative_path: RelativePath::new(dst),
    }
}

#[test]
fn normal_file_move_succeeds() {
    let config = config_for(false, false);
    let engine = PolicyEngine::new(&config);
    let req = move_req("old.txt", "sub/new.txt");
    let (result, sent) = play(|f| move_file_request_next(&user(), &req, &config, &engine, f), done, &["old.txt"], false);
    let payload = result.unwrap();
    assert_eq!(payload.operation, "MOVE_FILE");
    assert_eq!(payload.safe_message.as_deref(), Some("Moved."));
    let sent = sent.unwrap();
    assert_eq!(sent.command, HelperCommand::Move);
    assert_eq!(sent.target_relative_path, Some(RelativePath::new("sub/new.txt")));
    assert_eq!(payload.request_id, sent.request_id);
}

#[test]
fn read_only_root_denies_move_before_helper() {
    let config = config_for(true, false);
    let engine = PolicyEngine::new(&config);
    let req = move_req("old.txt", "new.txt");
    let (result, _) = play(|f| move_file_request_next(&user(), &req, &config, &engine, f), never, &["old.txt"], false);
    assert_eq!(result, Err(TealDriveError::PolicyDenied));
}

#[test]
fn move_target_already_exists() {
    let config = config_for(false, false);
    let engine = PolicyEngine::new(&config);
    let req = move_req("old.txt", "new.txt");
    let (result, _) = play(|f| move_file_request_next(&user(), &req, &config, &engine, f), never, &["old.txt"], true);
    assert_eq!(result, Err(TealDriveError::AlreadyExists));
}

#[test]
fn source_sensitive_denies_move() {
    let config = config_for(false, false);
    let engine = PolicyEngine::new(&config);
    let req = move_req(".env", "env.txt");
    let (result, _) = play(|f| move_file_request_next(&user(), &req, &config, &engine, f), never, &[".env"], false);
    assert_eq!(result, Err(TealDriveError::PolicyDenied));
}

#[test]
fn webroot_move_to_php_denied() {
    let config = config_for(false, true);
    let engine = PolicyEngine::new(&config);
    let req = move_req("notes.txt", "shell.php");
    let (result, _) = play(|f| move_file_request_next(&user(), &req, &config, &engine, f), never, &["notes.txt"], false);
    assert_eq!(result, Err(TealDriveError::WebrootExecutableDenied));
}

#[test]
fn move_source_missing_maps_to_not_found() {
    let config = config_for(false, false);
    let engine = PolicyEngine::new(&config);
    let req = move_req("missing.txt", "new.txt");
    let (result, _) = play(|f| move_file_request_next(&user(), &req, &config, &engine, f), never, &[], false);
    assert_eq!(result, Err(TealDriveError::NotFound));
}

#[test]
fn normal_file_copy_succeeds() {
    let config = config_for(false, false);
    let engine = PolicyEngine::new(&config);
    let req = copy_req("orig.txt", "copy.txt");
    let (result, sent) = play(|f| copy_file_request_next(&user(), &req, &config, &engine, f), done, &["orig.txt"], false);
    assert_eq!(result.unwrap().operation, "COPY_FILE");
    assert_eq!(sent.unwrap().command, HelperCommand::Copy);
}

#[test]
fn read_only_root_denies_copy_before_helper() {
    let config = config_for(true, false);
    let engine = PolicyEngine::new(&config);
    let req = copy_req("orig.txt", "copy.txt");
    let (result, _) = play(|f| copy_file_request_next(&user(), &req, &config, &engine, f), never, &["orig.txt"], false);
    assert_eq!(result, Err(TealDriveError::PolicyDenied));
}

#[test]
fn copy_target_already_exists() {
    let config = config_for(false, false);
    let engine = PolicyEngine::new(&config);
    let req = copy_req("orig.txt", "copy.txt");
    let (result, _) = play(|f| copy_file_request_next(&user(), &req, &config, &engine, f), never, &["orig.txt"], true);
    assert_eq!(result, Err(TealDriveError::AlreadyExists));
}

#[test]
fn source_sensitive_denies_copy() {
    let config = config_for(false, false);
    let engine = PolicyEngine::new(&config);
    let req = copy_req("server.key", "copy.txt");
    let (result, _) = play(|f| copy_file_request_next(&user(), &req, &config, &engine, f), never, &["server.key"], false);
    assert_eq!(result, Err(TealDriveError::PolicyDenied));
}

#[test]
fn helper_failures_map_to_service_errors() {
    let config = config_for(false, false);
    let engine = PolicyEngine::new(&config);
    let req = copy_req("dir", "dir-copy");
    let refused = |r: &HelperRequest| {
        Ok(HelperResponse::error(r, ErrorKind::InvalidTarget, "Directories cannot be copied.", "directory_copy_unsupported"))
    };
    let (result, _) = play(|f| copy_file_request_next(&user(), &req, &config, &engine, f), refused, &["dir"], false);
    assert_eq!(result, Err(TealDriveError::InvalidTarget));
    let unreachable = |_: &HelperRequest| Err(TealDriveError::HelperSpawnFailed);
    let (result, _) = play(|f| copy_file_request_next(&user(), &req, &config, &engine, f), unreachable, &["dir"], false);
    assert_eq!(result, Err(TealDriveError::HelperSpawnFailed));
}

fn rename_req(path: &str, new_name: &str) -> RenameFileRequest {
    RenameFileRequest { root_id: RootId::new("home"), relative_path: RelativePath::new(path), new_name: new_name.to_owned() }
}

#[test]
fn normal_file_rename_succeeds() {
    let config = config_for(false, false);
    let engine = PolicyEngine::new(&config);
    let req = rename_req("docs/old.txt", "new.txt");
    let (result, sent) = play(|f| rename_file_request_next(&user(), &req, &config, &engine, f), done, &["docs/old.txt"], false);
    let payload = result.unwrap();
    assert_eq!(payload.operation, "RENAME_FILE");
    assert_eq!(payload.safe_message.as_deref(), Some("Renamed."));
    let sent = sent.unwrap();
    assert_eq!(sent.relative_path, RelativePath::new("docs/old.txt"));
    assert_eq!(sent.target_relative_path, Some(RelativePath::new("new.txt")));
}

#[test]
fn read_only_root_denies_rename_before_helper() {
    let config = config_for(true, false);
    let engine = PolicyEngine::new(&config);
    let req = rename_req("old.txt", "new.txt");
    let (result, _) = play(|f| rename_file_request_next(&user(), &req, &config, &engine, f), never, &["old.txt"], false);
    assert_eq!(result, Err(TealDriveError::PolicyDenied));
}

#[test]
fn target_already_exists_maps_to_already_exists() {
    let config = config_for(false, false);
    let engine = PolicyEngine::new(&config);
    let req = rename_req("old.txt", "new.txt");
    let (result, _) = play(|f| rename_file_request_next(&user(), &req, &config, &engine, f), never, &["old.txt"], true);
    assert_eq!(result, Err(TealDriveError::AlreadyExists));
}

#[test]
fn source_sensitive_denied() {
    let config = config_for(false, false);
    let engine = PolicyEngine::new(&config);
    let req = rename_req("id_rsa", "key.txt");
    let (result, _) = play(|f| rename_file_request_next(&user(), &req, &config, &engine, f), never, &["id_rsa"], false);
    assert_eq!(result, Err(TealDriveError::PolicyDenied));
}

#[test]
fn webroot_rename_to_php_denied() {
    let config = config_for(false, true);
    let engine = PolicyEngine::new(&config);
    let req = rename_req("notes.txt", "shell.php");
    let (result, _) = play(|f| rename_file_request_next(&user(), &req, &config, &engine, f), never, &["notes.txt"], false);
    assert_eq!(result, Err(TealDriveError::WebrootExecutableDenied));
}

#[test]
fn source_missing_maps_to_not_found() {
    let config = config_for(false, false);
    let engine = PolicyEngine::new(&config);
    let req = rename_req("missing.txt", "new.txt");
    let (result, _) = play(|f| rename_file_request_next(&user(), &req, &config, &engine, f), never, &[], false);
    assert_eq!(result, Err(TealDriveError::NotFound));
}

#[test]
fn rename_rejects_invalid_new_names() {
    let config = config_for(false, false);
    let engine = PolicyEngine::new(&config);
    for (name, error) in [
        ("bad/name", TealDriveError::InvalidFilename),
        ("bad\\name", TealDriveError::InvalidFilename),
        ("bad\0name", TealDriveError::NullByteRejected),
        (".", TealDriveError::ReservedNameRejected),
        ("..", TealDriveError::ReservedNameRejected),
    ] {
        let req = rename_req("old.txt", name);
        let (result, _) = play(|f| rename_file_request_next(&user(), &req, &config, &engine, f), never, &["old.txt"], false);
        assert_eq!(result, Err(error));
    }
}

fn trash_req(path: &str) -> MoveToTrashRequest {
    MoveToTrashRequest { root_id: RootId::new("home"), relative_path: RelativePath::new(path) }
}

#[test]
fn move_to_trash_success() {
    let config = config_for(false, false);
    let engine = PolicyEngine::new(&config);
    let req = trash_req("file.txt");
    let trashed = |r: &HelperRequest| {
        let entry = TrashEntry {
            trash_id: "id-1".to_owned(),
            original_root_id: RootId::new("home"),
            original_relative_path: RelativePath::new("file.txt"),
            trash_relative_path: RelativePath::new("files/id-1"),
            display_name: "file.txt".to_owned(),
            deleted_at: 5,
            username: "alice".to_owned(),
            uid: 1000,
        };
        Ok(trash_entry_response(r, entry))
    };
    let (result, sent) = play(|f| move_to_trash_request_next(&user(), &req, &config, &engine, f), trashed, &["file.txt"], false);
    let payload = result.unwrap();
    assert_eq!(payload.operation, "MOVE_TO_TRASH");
    assert_eq!(payload.display_name, "file.txt");
    assert!(!payload.trash_id.is_empty());
    assert_eq!(sent.unwrap().command, HelperCommand::MoveToTrash);
}

#[test]
fn read_only_root_denies_move_to_trash() {
    let config = config_for(true, false);
    let engine = PolicyEngine::new(&config);
    let req = trash_req("file.txt");
    let (result, _) = play(|f| move_to_trash_request_next(&user(), &req, &config, &engine, f), never, &["file.txt"], false);
    assert_eq!(result, Err(TealDriveError::PolicyDenied));
}

#[test]
fn sensitive_source_denies_move_to_trash() {
    let config = config_for(false, false);
    let engine = PolicyEngine::new(&config);
    let req = trash_req(".env");
    let (result, _) = play(|f| move_to_trash_request_next(&user(), &req, &config, &engine, f), never, &[".env"], false);
    assert_eq!(result, Err(TealDriveError::PolicyDenied));
}

#[test]
fn missing_file_returns_not_found() {
    let config = config_for(false, false);
    let engine = PolicyEngine::new(&config);
    let req = trash_req("missing.txt");
    let (result, _) = play(|f| move_to_trash_request_next(&user(), &req, &config, &engine, f), never, &[], false);
    assert_eq!(result, Err(TealDriveError::NotFound));
}

fn folder_req(parent: &str, name: &str) -> CreateFolderRequest {
    CreateFolderRequest {
        root_id: RootId::new("home"),
        parent_relative_path: RelativePath::new(parent),
        folder_name: name.to_owned(),
    }
}

#[test]
fn normal_create_folder_succeeds() {
    let config = config_for(false, false);
    let engine = PolicyEngine::new(&config);
    let req = folder_req("", "new-folder");
    let (result, sent) = play(|f| create_folder_request_next(&user(), &req, &config, &engine, f), done, &[""], false);
    assert_eq!(result.unwrap().operation, "CREATE_FOLDER");
    let sent = sent.unwrap();
    assert_eq!(sent.command, HelperCommand::CreateFolder);
    assert_eq!(sent.target_relative_path, Some(RelativePath::new("new-folder")));
}

#[test]
fn missing_parent_maps_not_found() {
    let config = config_for(false, false);
    let engine = PolicyEngine::new(&config);
    let req = folder_req("missing", "child");
    let (result, _) = play(|f| create_folder_request_next(&user(), &req, &config, &engine, f), never, &[], false);
    assert_eq!(result, Err(TealDriveError::NotFound));
}

#[test]
fn already_exists_maps_to_already_exists() {
    let config = config_for(false, false);
    let engine = PolicyEngine::new(&config);
    let req = folder_req("", "existing");
    let exists = |r: &HelperRequest| Ok(HelperResponse::error(r, ErrorKind::AlreadyExists, "Target already exists.", "already_exists"));
    let (result, _) = play(|f| create_folder_request_next(&user(), &req, &config, &engine, f), exists, &[""], false);
    assert_eq!(result, Err(TealDriveError::AlreadyExists));
}

#[test]
fn symlink_parent_denied() {
    let config = config_for(false, false);
    let engine = PolicyEngine::new(&config);
    let req = folder_req("link", "new");
    let mut facts = ChangeFacts::new();
    let ChangeNext::ResolveSource(_, parent) = create_folder_request_next(&user(), &req, &config, &engine, &facts) else {
        panic!("the parent is resolved first")
    };
    assert_eq!(parent, RelativePath::new("link"));
    facts.source = Some(Err(TealDriveError::SymlinkDenied));
    let ChangeNext::Done(result) = create_folder_request_next(&user(), &req, &config, &engine, &facts) else { panic!() };
    assert_eq!(result, Err(TealDriveError::SymlinkDenied));
}

#[test]
fn read_only_root_denies_create_before_the_helper_even_when_resolved() {
    let config = config_for(true, false);
    let engine = PolicyEngine::new(&config);
    let req = folder_req("", "new");
    let (result, _) = play(|f| create_folder_request_next(&user(), &req, &config, &engine, f), never, &[""], false);
    assert_eq!(result, Err(TealDriveError::PolicyDenied));
}
