use std::cell::RefCell;

use tealdrive::config::{AllowedRoot, AppConfig, RelativePath, RootId, UserContext};
use tealdrive::errors::{ErrorKind, TealDriveError};
use tealdrive::fs::listing::{effective_limit, list_directory_request, DirectoryListingHelper};
use tealdrive::fs::metadata::{file_metadata_request, MetadataHelper};
use tealdrive::fs::text::{read_text_file_request, TextPreviewHelper};
use tealdrive::fs::trash::{restore_from_trash_request, RestoreFromTrashHelper};
use tealdrive::helper::types::{
    HelperCommand, HelperDirectoryEntry, HelperDirectoryList, HelperRequest, HelperResponse,
    HelperTextFileContent,
};
use tealdrive::policy::decision::PolicyEngine;
use tealdrive::protocol::payload::{
    FileMetadataRequest, ListDirectoryRequest, ReadTextFileRequest, RestoreFromTrashRequest,
};
use tealdrive::protocol::schema::{CapabilitySet, FileFilter, FileKind, FilterMode, SortMode};

/// Answers every request with one canned answer and remembers the requests.
struct CannedHelper {
    answer: Box<dyn Fn(&HelperRequest) -> Result<HelperResponse, TealDriveError>>,
    seen: RefCell<Vec<HelperRequest>>,
}

impl CannedHelper {
    fn new(answer: impl Fn(&HelperRequest) -> Result<HelperResponse, TealDriveError> + 'static) -> Self {
        CannedHelper {
            answer: Box::new(answer),
            seen: RefCell::new(Vec::new()),
        }
    }

    fn run(&self, request: &HelperRequest) -> Result<HelperResponse, TealDriveError> {
        self.seen.borrow_mut().push(request.clone());
        (self.answer)(request)
    }
}

impl DirectoryListingHelper for CannedHelper {
    fn execute_helper(&self, request: &HelperRequest) -> Result<HelperResponse, TealDriveError> {
        self.run(request)
    }
}

impl MetadataHelper for CannedHelper {
    fn execute_helper(&self, request: &HelperRequest) -> Result<HelperResponse, TealDriveError> {
        self.run(request)
    }
}

impl TextPreviewHelper for CannedHelper {
    fn execute_helper(&self, request: &HelperRequest) -> Result<HelperResponse, TealDriveError> {
        self.run(request)
    }
}

impl RestoreFromTrashHelper for CannedHelper {
    fn execute_helper(&self, request: &HelperRequest) -> Result<HelperResponse, TealDriveError> {
        self.run(request)
    }
}

fn failing_if_called() -> CannedHelper {
    CannedHelper::new(|_| panic!("helper must not be called"))
}

fn config_for(read_only: bool, hidden_allowed: bool) -> AppConfig {
    AppConfig {
        roots: vec![AllowedRoot {
            root_id: RootId::new("home"),
            base_path: "/srv/home".to_owned(),
            read_only,
            uploads_allowed: true,
            hidden_files_allowed: hidden_allowed,
            is_web_root: false,
        }],
        ..AppConfig::default()
    }
}

fn user() -> UserContext {
    UserContext {
        username: "alice".to_owned(),
        uid: 1000,
        gid: 1000,
    }
}

fn list_request(include_hidden: bool) -> ListDirectoryRequest {
    ListDirectoryRequest {
        root_id: RootId::new("home"),
        relative_path: RelativePath::new(""),
        cursor: None,
        limit: 200,
        include_hidden,
        sort: SortMode::NameAsc,
        filter: FilterMode {
            query: None,
            file_kind: None,
            filter: Some(FileFilter::All),
        },
    }
}

fn entry(name: &str, size: u64) -> HelperDirectoryEntry {
    HelperDirectoryEntry {
        name: name.to_owned(),
        file_type: FileKind::File,
        size,
        modified: None,
        owner: None,
        group: None,
        mode: None,
        permissions: None,
        is_hidden: false,
        is_sensitive: false,
        is_protected: false,
        is_symlink: false,
        symlink_target: None,
        is_web_root: false,
        is_world_writable: false,
        capabilities: CapabilitySet::default(),
    }
}

#[test]
fn list_directory_unknown_root_rejected() {
    let config = config_for(false, false);
    let engine = PolicyEngine::new(&config);
    let mut req = list_request(false);
    req.root_id = RootId::new("missing");

    assert_eq!(
        list_directory_request(&user(), req, &config, &engine, &failing_if_called()),
        Err(TealDriveError::InvalidRootId)
    );
}

#[test]
fn list_directory_rejects_absolute_and_traversal() {
    let config = config_for(false, false);
    let engine = PolicyEngine::new(&config);
    let mut absolute = list_request(false);
    absolute.relative_path = RelativePath::new("/etc");
    let mut traversal = list_request(false);
    traversal.relative_path = RelativePath::new("../etc");

    assert_eq!(
        list_directory_request(&user(), absolute, &config, &engine, &failing_if_called()),
        Err(TealDriveError::AbsolutePathRejected)
    );
    assert_eq!(
        list_directory_request(&user(), traversal, &config, &engine, &failing_if_called()),
        Err(TealDriveError::TraversalRejected)
    );
}

#[test]
fn list_directory_passes_options_and_maps_entries() {
    let config = config_for(true, false);
    let engine = PolicyEngine::new(&config);
    let helper = CannedHelper::new(|request| {
        Ok(HelperResponse::directory_list(
            request,
            HelperDirectoryList {
                entries: vec![entry("a.txt", 3)],
                has_more: false,
                next_cursor: None,
                total_estimate: Some(1),
            },
        ))
    });
    let mut req = list_request(false);
    req.limit = 0;
    let response = list_directory_request(&user(), req, &config, &engine, &helper).expect("list");

    assert_eq!(response.entries.len(), 1);
    assert_eq!(response.entries[0].name, "a.txt");
    assert_eq!(response.entries[0].size, 3);
    assert!(!response.capabilities.can_upload);
    assert!(response.capabilities.can_list);
    let seen = helper.seen.borrow();
    assert_eq!(seen.len(), 1);
    assert_eq!(seen[0].command, HelperCommand::ListDirectory);
    assert_eq!(seen[0].list_options.as_ref().unwrap().limit, 200);
    assert!(seen[0].policy_context.read_only_root);
}

#[test]
fn listing_maps_missing_directory_to_invalid_path() {
    let config = config_for(false, false);
    let engine = PolicyEngine::new(&config);
    let helper = CannedHelper::new(|request| {
        Ok(HelperResponse::error(request, ErrorKind::NotFound, "Path not found.", "not_found"))
    });

    assert_eq!(
        list_directory_request(&user(), list_request(false), &config, &engine, &helper),
        Err(TealDriveError::InvalidPath)
    );
}

#[test]
fn effective_limit_uses_default_and_caps() {
    let config = AppConfig::default();
    assert_eq!(effective_limit(0, &config), 200);
    assert_eq!(effective_limit(10, &config), 10);
    assert_eq!(effective_limit(100000, &config), 500);
}

#[test]
fn file_metadata_unknown_root_rejected() {
    let config = config_for(false, false);
    let engine = PolicyEngine::new(&config);
    let req = FileMetadataRequest {
        root_id: RootId::new("missing"),
        relative_path: RelativePath::new("file.txt"),
    };

    assert_eq!(
        file_metadata_request(&user(), req, &config, &engine, &failing_if_called()),
        Err(TealDriveError::InvalidRootId)
    );
}

#[test]
fn file_metadata_rejects_absolute_and_traversal() {
    let config = config_for(false, false);
    let engine = PolicyEngine::new(&config);
    let request = |path: &str| FileMetadataRequest {
        root_id: RootId::new("home"),
        relative_path: RelativePath::new(path),
    };

    assert_eq!(
        file_metadata_request(&user(), request("/etc"), &config, &engine, &failing_if_called()),
        Err(TealDriveError::AbsolutePathRejected)
    );
    assert_eq!(
        file_metadata_request(&user(), request("../etc"), &config, &engine, &failing_if_called()),
        Err(TealDriveError::TraversalRejected)
    );
}

#[test]
fn file_metadata_reports_the_helper_entry() {
    let config = config_for(false, false);
    let engine = PolicyEngine::new(&config);
    let helper = CannedHelper::new(|request| Ok(HelperResponse::file_metadata(request, entry("file.txt", 5))));
    let payload = file_metadata_request(
        &user(),
        FileMetadataRequest {
            root_id: RootId::new("home"),
            relative_path: RelativePath::new("docs//file.txt"),
        },
        &config,
        &engine,
        &helper,
    )
    .expect("metadata");

    assert_eq!(payload.entry.name, "file.txt");
    assert_eq!(payload.entry.size, 5);
    assert_eq!(payload.relative_path, RelativePath::new("docs/file.txt"));
    assert_eq!(helper.seen.borrow()[0].relative_path, RelativePath::new("docs/file.txt"));
}

fn text_request(path: &str) -> ReadTextFileRequest {
    ReadTextFileRequest {
        root_id: RootId::new("home"),
        relative_path: RelativePath::new(path),
        max_bytes: None,
        encoding: None,
    }
}

#[test]
fn missing_preview_maps_not_found() {
    let config = config_for(false, false);
    let engine = PolicyEngine::new(&config);
    let helper = CannedHelper::new(|request| {
        assert_eq!(request.command, HelperCommand::FileMetadata);
        Ok(HelperResponse::error(request, ErrorKind::NotFound, "Path not found.", "not_found"))
    });

    assert_eq!(
        read_text_file_request(&user(), text_request("missing.txt"), &config, &engine, &helper),
        Err(TealDriveError::NotFound)
    );
}

#[test]
fn traversal_rejected_before_helper() {
    let config = config_for(false, false);
    let engine = PolicyEngine::new(&config);

    assert_eq!(
        read_text_file_request(&user(), text_request("../secret"), &config, &engine, &failing_if_called()),
        Err(TealDriveError::TraversalRejected)
    );
}

#[test]
fn text_preview_returns_helper_content() {
    let config = config_for(false, false);
    let engine = PolicyEngine::new(&config);
    let helper = CannedHelper::new(|request| {
        if request.command == HelperCommand::FileMetadata {
            Ok(HelperResponse::file_metadata(request, entry("notes.txt", 5)))
        } else {
            Ok(HelperResponse::text_file_content(
                request,
                HelperTextFileContent {
                    name: "notes.txt".to_owned(),
                    content: "hello".to_owned(),
                    encoding: "utf-8".to_owned(),
                    size: 5,
                    modified: None,
                    owner: None,
                    group: None,
                    mode: None,
                    permissions: None,
                    is_sensitive: false,
                    is_hidden: false,
                    is_read_only: false,
                    truncated: false,
                    line_count: Some(1),
                    language_hint: Some("text".to_owned()),
                },
            ))
        }
    });
    let mut req = text_request("notes.txt");
    req.max_bytes = Some(100);
    let payload = read_text_file_request(&user(), req, &config, &engine, &helper).expect("text");

    assert_eq!(payload.content, "hello");
    assert_eq!(payload.line_count, Some(1));
    let seen = helper.seen.borrow();
    assert_eq!(seen.len(), 2);
    assert_eq!(seen[1].command, HelperCommand::ReadTextFile);
    assert_eq!(seen[1].limits.max_text_edit_size, 100);
}

#[test]
fn text_preview_of_too_large_file_refused_before_reading() {
    let config = config_for(false, false);
    let engine = PolicyEngine::new(&config);
    let helper = CannedHelper::new(|request| {
        assert_eq!(request.command, HelperCommand::FileMetadata);
        Ok(HelperResponse::file_metadata(request, entry("big.txt", 50)))
    });
    let mut req = text_request("big.txt");
    req.max_bytes = Some(10);

    assert_eq!(
        read_text_file_request(&user(), req, &config, &engine, &helper),
        Err(TealDriveError::FileTooLarge)
    );
}

fn restore_req(trash_id: &str) -> RestoreFromTrashRequest {
    RestoreFromTrashRequest {
        trash_id: trash_id.to_owned(),
        target_root_id: Some(RootId::new("home")),
        target_relative_path: None,
    }
}

#[test]
fn read_only_root_denies_restore() {
    let config = config_for(true, false);
    let engine = PolicyEngine::new(&config);

    assert_eq!(
        restore_from_trash_request(
            &user(),
            restore_req("00000000-0000-0000-0000-000000000000"),
            &config,
            &engine,
            &failing_if_called()
        ),
        Err(TealDriveError::PolicyDenied)
    );
}

#[test]
fn missing_trash_entry_returns_not_found() {
    let config = config_for(false, false);
    let engine = PolicyEngine::new(&config);
    let helper = CannedHelper::new(|request| {
        Ok(HelperResponse::error(request, ErrorKind::NotFound, "Trash entry not found.", "not_found"))
    });

    assert_eq!(
        restore_from_trash_request(
            &user(),
            restore_req("00000000-0000-0000-0000-000000000000"),
            &config,
            &engine,
            &helper
        ),
        Err(TealDriveError::NotFound)
    );
}

#[test]
fn restore_without_target_root_id_returns_invalid_target() {
    let config = config_for(false, false);
    let engine = PolicyEngine::new(&config);

    assert_eq!(
        restore_from_trash_request(
            &user(),
            RestoreFromTrashRequest {
                trash_id: "00000000-0000-0000-0000-000000000000".to_owned(),
                target_root_id: None,
                target_relative_path: None,
            },
            &config,
            &engine,
            &failing_if_called()
        ),
        Err(TealDriveError::InvalidTarget)
    );
}

#[test]
fn restore_done_reports_its_request() {
    let config = config_for(false, false);
    let engine = PolicyEngine::new(&config);
    let helper = CannedHelper::new(|request| Ok(HelperResponse::operation_done(request, "Restored.")));
    let done = restore_from_trash_request(&user(), restore_req("abc"), &config, &engine, &helper)
        .expect("restored");

    assert_eq!(done.operation, "RESTORE_FROM_TRASH");
    assert_eq!(done.safe_message.as_deref(), Some("Restored."));
    assert_eq!(done.request_id, helper.seen.borrow()[0].request_id);
    assert_eq!(helper.seen.borrow()[0].relative_path, RelativePath::new("abc"));
}
