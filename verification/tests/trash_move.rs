use tealdrive::config::{AllowedRoot, RelativePath, RootId};
use tealdrive::errors::{ErrorKind, TealDriveError};
use tealdrive::fs::path::{ExistingPathResolution, ResolvedRoot};
use tealdrive::helper::errors::{IoErrorKind, IoFailure};
use tealdrive::helper::trash_move::{trash_move_next, RecordWrite, TrashMoveFacts, TrashMoveNext};
use tealdrive::helper::types::{
    HelperCommand, HelperLimits, HelperPolicyContext, HelperRequest, HelperResponse, HelperResponsePayload,
};
use tealdrive::protocol::frame::RequestId;

fn home() -> AllowedRoot {
    AllowedRoot {
        root_id: RootId::new("home"),
        base_path: "/srv/home".to_owned(),
        read_only: false,
        uploads_allowed: true,
        hidden_files_allowed: false,
        is_web_root: false,
    }
}

fn trash_request(path: &str) -> HelperRequest {
    HelperRequest {
        request_id: RequestId::new(),
        username: "alice".to_owned(),
        uid: 1000,
        gid: 1000,
        command: HelperCommand::MoveToTrash,
        root_id: RootId::new("home"),
        relative_path: RelativePath::new(path),
        target_relative_path: None,
        policy_context: HelperPolicyContext {
            read_only_root: false,
            is_web_root: false,
        },
        limits: HelperLimits {
            max_directory_page_size: 500,
            max_text_edit_size: 5 * 1024 * 1024,
            max_chunk_size: 256 * 1024,
            max_download_helper_bytes: 64 * 1024 * 1024,
        },
        list_options: None,
    }
}

fn resolved(relative: &str) -> ExistingPathResolution {
    ExistingPathResolution {
        root: ResolvedRoot {
            root_id: RootId::new("home"),
            canonical_base: "/srv/home".to_owned(),
            root: home(),
        },
        relative_path: RelativePath::new(relative),
        resolved_path: format!("/srv/home/{relative}"),
        is_symlink: false,
    }
}

fn finished(next: TrashMoveNext) -> (HelperResponse, Option<String>) {
    match next {
        TrashMoveNext::Finish { response, remove_record } => (response, remove_record),
        other => panic!("expected an answer, got {other:?}"),
    }
}

/// The facts of a move whose record has been written under `id`.
fn written(id: &str) -> TrashMoveFacts {
    let mut facts = TrashMoveFacts::new();
    facts.source = Some(Ok(resolved("docs/a.txt")));
    facts.files_dir_ready = Some(true);
    facts.info_dir_ready = Some(true);
    facts.trash_id = Some(id.to_owned());
    facts.now = Some(99);
    facts.record_written = Some(RecordWrite::Written);
    facts
}

#[test]
fn a_move_to_the_trash_writes_the_record_then_moves() {
    let request = trash_request("docs/a.txt");
    let roots = vec![home()];
    let mut facts = TrashMoveFacts::new();
    let TrashMoveNext::ResolveSource(root, path) = trash_move_next(&request, &roots, &facts) else { panic!() };
    assert_eq!(root, home());
    assert_eq!(path, RelativePath::new("docs/a.txt"));
    facts.source = Some(Ok(resolved("docs/a.txt")));
    let TrashMoveNext::CreateDir(files) = trash_move_next(&request, &roots, &facts) else { panic!() };
    assert_eq!(files, "/srv/home/.tealdrive-trash/files");
    facts.files_dir_ready = Some(true);
    let TrashMoveNext::CreateDir(info) = trash_move_next(&request, &roots, &facts) else { panic!() };
    assert_eq!(info, "/srv/home/.tealdrive-trash/info");
    facts.info_dir_ready = Some(true);
    let TrashMoveNext::UseTrashId(id) = trash_move_next(&request, &roots, &facts) else { panic!() };
    assert_eq!(id.len(), 36);
    facts.trash_id = Some(id.clone());
    assert!(matches!(trash_move_next(&request, &roots, &facts), TrashMoveNext::ReadClock));
    facts.now = Some(1234);
    let TrashMoveNext::WriteRecord { path, entry } = trash_move_next(&request, &roots, &facts) else { panic!() };
    assert_eq!(path, format!("/srv/home/.tealdrive-trash/info/{id}.msgpack"));
    assert_eq!(entry.trash_id, id);
    assert_eq!(entry.display_name, "a.txt");
    assert_eq!(entry.deleted_at, 1234);
    assert_eq!(entry.original_relative_path, RelativePath::new("docs/a.txt"));
    assert_eq!(entry.trash_relative_path, RelativePath::new(&format!("files/{id}")));
    facts.record_written = Some(RecordWrite::Written);
    let TrashMoveNext::MoveIn { from, to } = trash_move_next(&request, &roots, &facts) else { panic!() };
    assert_eq!(from, "/srv/home/docs/a.txt");
    assert_eq!(to, format!("/srv/home/.tealdrive-trash/files/{id}"));
    facts.moved = Some(Ok(()));
    let (response, remove) = finished(trash_move_next(&request, &roots, &facts));
    assert!(response.success);
    assert_eq!(remove, None);
    let HelperResponsePayload::TrashEntry(shown) = response.payload else { panic!("entry") };
    assert_eq!(shown.trash_id, id);
    assert_eq!(shown.deleted_at, 1234);
    assert!(!format!("{shown:?}").contains("/srv/home"));
}

#[test]
fn helper_trash_missing_source_returns_not_found() {
    let mut facts = TrashMoveFacts::new();
    facts.source = Some(Err(TealDriveError::NotFound));
    let (response, _) = finished(trash_move_next(&trash_request("missing.txt"), &[home()], &facts));
    assert!(!response.success);
    assert_eq!(response.error_kind, Some(ErrorKind::NotFound));
}

#[test]
fn trash_contents_cannot_be_trashed_again() {
    let mut facts = TrashMoveFacts::new();
    facts.source = Some(Ok(resolved(".tealdrive-trash/files/x")));
    let (response, _) = finished(trash_move_next(&trash_request(".tealdrive-trash/files/x"), &[home()], &facts));
    assert_eq!(response.safe_message.as_deref(), Some("Cannot move trash directory contents."));
}

#[test]
fn trash_failures_are_answered_and_clean_up_the_record() {
    let request = trash_request("docs/a.txt");
    let roots = vec![home()];
    let mut uid_zero = trash_request("docs/a.txt");
    uid_zero.uid = 0;
    let (r, _) = finished(trash_move_next(&uid_zero, &roots, &TrashMoveFacts::new()));
    assert_eq!(r.error_kind, Some(ErrorKind::PermissionDenied));

    let mut facts = written("id");
    facts.files_dir_ready = Some(false);
    let (r, _) = finished(trash_move_next(&request, &roots, &facts));
    assert_eq!(r.safe_message.as_deref(), Some("Failed to create trash directory."));

    let mut facts = written("id");
    facts.record_written = Some(RecordWrite::WriteFailed);
    let (r, remove) = finished(trash_move_next(&request, &roots, &facts));
    assert_eq!(r.safe_message.as_deref(), Some("Failed to write trash metadata."));
    assert_eq!(remove, None);

    let mut facts = written("id");
    facts.moved = Some(Err(IoFailure { kind: IoErrorKind::Other, raw_os_error: Some(28) }));
    let (r, remove) = finished(trash_move_next(&request, &roots, &facts));
    assert_eq!(r.error_kind, Some(ErrorKind::DiskFull));
    assert_eq!(remove, Some("/srv/home/.tealdrive-trash/info/id.msgpack".to_owned()));
}
