use tealdrive::config::{AllowedRoot, RelativePath, RootId};
use tealdrive::errors::ErrorKind;
use tealdrive::fs::filename::SafeFileName;
use tealdrive::helper::refusal::Refusal;
use tealdrive::helper::trash::{
    display_name, new_trash_entry, new_trash_id, original_path, original_root, restore_trash_id,
    source_in_trash, trash_entry_response, trash_item_paths, trash_paths, TRASH_DIR_NAME,
};
use tealdrive::helper::types::{
    HelperCommand, HelperLimits, HelperPolicyContext, HelperRequest, HelperResponsePayload,
};
use tealdrive::protocol::frame::RequestId;
use tealdrive::trash::model::TrashEntry;

fn root(id: &str, base: &str) -> AllowedRoot {
    AllowedRoot {
        root_id: RootId::new(id),
        base_path: base.to_owned(),
        read_only: false,
        uploads_allowed: true,
        hidden_files_allowed: false,
        is_web_root: false,
    }
}

fn request(command: HelperCommand, path: &str) -> HelperRequest {
    HelperRequest {
        request_id: RequestId::new(),
        username: "alice".to_owned(),
        uid: 1000,
        gid: 1000,
        command,
        root_id: RootId::new("home"),
        relative_path: RelativePath::new(path),
        target_relative_path: None,
        policy_context: HelperPolicyContext {
            read_only_root: false,
            is_web_root: false,
        },
        limits: HelperLimits {
            max_directory_page_size: 500,
            max_text_edit_size: 5 * 1024 * 1024,
            max_chunk_size: 256 * 1024,
            max_download_helper_bytes: 64 * 1024 * 1024,
        },
        list_options: None,
    }
}

fn entry(original: &str) -> TrashEntry {
    TrashEntry {
        trash_id: "id-1".to_owned(),
        original_root_id: RootId::new("home"),
        original_relative_path: RelativePath::new(original),
        trash_relative_path: RelativePath::new("files/id-1"),
        display_name: "a.txt".to_owned(),
        deleted_at: 7,
        username: "alice".to_owned(),
        uid: 1000,
    }
}

#[test]
fn trash_lives_in_its_own_directory_under_the_root() {
    assert_eq!(TRASH_DIR_NAME, ".tealdrive-trash");
    let paths = trash_paths("/srv/home");
    assert_eq!(paths.trash_dir, "/srv/home/.tealdrive-trash");
    assert_eq!(paths.files_dir, "/srv/home/.tealdrive-trash/files");
    assert_eq!(paths.info_dir, "/srv/home/.tealdrive-trash/info");
    let (file, info) = trash_item_paths(&paths, "abc");
    assert_eq!(file, "/srv/home/.tealdrive-trash/files/abc");
    assert_eq!(info, "/srv/home/.tealdrive-trash/info/abc.msgpack");
    assert!(source_in_trash("/srv/home/.tealdrive-trash/files/abc", &paths));
    assert!(source_in_trash("/srv/home/.tealdrive-trash", &paths));
    assert!(!source_in_trash("/srv/home/.tealdrive-trash-not", &paths));
    assert!(!source_in_trash("/srv/home/docs", &paths));
}

#[test]
fn trash_ids_are_fresh_uuids_and_valid_names() {
    let a = new_trash_id();
    let b = new_trash_id();
    assert_ne!(a, b);
    for id in [&a, &b] {
        assert_eq!(id.len(), 36);
        assert_eq!(id.as_bytes()[14], b'4');
        assert!(SafeFileName::parse(id).is_ok());
        for (i, c) in id.chars().enumerate() {
            if [8, 13, 18, 23].contains(&i) {
                assert_eq!(c, '-');
            } else {
                assert!(c.is_ascii_hexdigit() && !c.is_ascii_uppercase());
            }
        }
    }
}

#[test]
fn trash_entries_record_where_things_came_from() {
    let home = root("home", "/srv/home");
    let req = request(HelperCommand::MoveToTrash, "docs/a.txt");
    assert_eq!(display_name("/srv/home/docs/a.txt", &RelativePath::new("docs/a.txt")), "a.txt");
    assert_eq!(display_name("/", &RelativePath::new("docs")), "docs");
    let e = new_trash_entry("id-9", &home, &RelativePath::new("docs/a.txt"), "a.txt".to_owned(), 42, &req);
    assert_eq!(e.trash_id, "id-9");
    assert_eq!(e.trash_relative_path, RelativePath::new("files/id-9"));
    assert_eq!(e.original_root_id, RootId::new("home"));
    assert_eq!(e.deleted_at, 42);
    assert_eq!(e.uid, 1000);
    let r = trash_entry_response(&req, e);
    assert!(r.success);
    assert_eq!(r.safe_message.as_deref(), Some("Moved to trash."));
    let HelperResponsePayload::TrashEntry(shown) = r.payload else { panic!("trash entry") };
    assert_eq!(shown.trash_id, "id-9");
    assert_eq!(shown.display_name, "a.txt");
}

#[test]
fn restores_check_the_id_the_root_and_the_destination() {
    let ok = request(HelperCommand::RestoreFromTrash, "id-1");
    assert_eq!(restore_trash_id(&ok).unwrap(), "id-1");
    let bad = request(HelperCommand::RestoreFromTrash, "../x");
    let refused = restore_trash_id(&bad).unwrap_err();
    assert_eq!(refused.error_kind, Some(ErrorKind::ValidationError));
    assert_eq!(refused.safe_message.as_deref(), Some("Invalid trash id."));

    let roots = vec![root("home", "/srv/home")];
    assert_eq!(original_root(&roots, &entry("a.txt")).unwrap().root_id, RootId::new("home"));
    let mut elsewhere = entry("a.txt");
    elsewhere.original_root_id = RootId::new("gone");
    assert_eq!(original_root(&roots, &elsewhere), Err(Refusal::OriginalRootMissing));

    assert_eq!(original_path("/srv/home", &entry("docs/a.txt")), Ok("/srv/home/docs/a.txt".to_owned()));
    assert_eq!(original_path("/srv/home", &entry("/etc/passwd")), Err(Refusal::OriginalPathEscapesRoot));
}
