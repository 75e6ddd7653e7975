use tealdrive::fs::metadata::EntryType;
use tealdrive::fs::operations::{FsOperations, PlainStat};
use tealdrive::fs::path::{
    check_candidate_link, existing_path_candidate, finish_existing_resolution, finish_new_target,
    new_target_candidate, resolve_root,
};
use tealdrive::config::{AllowedRoot, RelativePath, RootId};
use tealdrive::errors::TealDriveError;
use tealdrive::helper::errors::{IoErrorKind, IoFailure};

#[test]
fn plain_listing_entry_guesses_mime() {
    let stat = PlainStat { is_dir: false, is_symlink: false, len: 10, modified_secs: 5 };
    let e = FsOperations::entry_for("/home/alice/notes.txt", "notes.txt".to_owned(), &stat);
    assert_eq!(e.mime, "text/plain");
    assert_eq!(e.entry_type, EntryType::File);
    assert_eq!(e.capabilities, vec!["READ".to_owned()]);
    let odd = FsOperations::entry_for("/home/alice/blob.zzzz", "blob.zzzz".to_owned(), &stat);
    assert_eq!(odd.mime, "application/octet-stream");
    let bare = FsOperations::entry_for("/home/alice/README", "README".to_owned(), &stat);
    assert_eq!(bare.mime, "application/octet-stream");
    let key = FsOperations::entry_for("/home/alice/.ssh", ".ssh".to_owned(), &PlainStat { is_dir: true, ..stat });
    assert!(key.is_sensitive);
    assert_eq!(key.entry_type, EntryType::Dir);
}

fn root() -> AllowedRoot {
    AllowedRoot {
        root_id: RootId::new("home"),
        base_path: "/srv/home".to_owned(),
        read_only: false,
        uploads_allowed: true,
        hidden_files_allowed: false,
        is_web_root: false,
    }
}

#[test]
fn resolution_steps_keep_paths_inside_the_root() {
    assert_eq!(resolve_root(&root(), None), Err(TealDriveError::InvalidRootId));
    let resolved = resolve_root(&root(), Some("/srv/home".to_owned())).unwrap();
    let (rel, candidate) = existing_path_candidate(&resolved, &RelativePath::new("docs//a.txt")).unwrap();
    assert_eq!(rel, RelativePath::new("docs/a.txt"));
    assert_eq!(candidate, "/srv/home/docs/a.txt");
    let (_, base) = existing_path_candidate(&resolved, &RelativePath::new("")).unwrap();
    assert_eq!(base, "/srv/home");
    assert_eq!(check_candidate_link(Ok(true), false), Err(TealDriveError::SymlinkDenied));
    let missing = IoFailure { kind: IoErrorKind::NotFound, raw_os_error: Some(2) };
    let denied = IoFailure { kind: IoErrorKind::PermissionDenied, raw_os_error: Some(13) };
    assert_eq!(check_candidate_link(Err(missing), false), Err(TealDriveError::NotFound));
    assert_eq!(check_candidate_link(Err(denied), false), Err(TealDriveError::InvalidPath));
    assert_eq!(check_candidate_link(Ok(true), true), Ok(true));
    assert_eq!(check_candidate_link(Ok(false), false), Ok(false));
    assert_eq!(
        finish_existing_resolution(resolved.clone(), rel.clone(), Some("/etc/passwd".to_owned()), true),
        Err(TealDriveError::SymlinkEscape)
    );
    assert_eq!(
        finish_existing_resolution(resolved.clone(), rel.clone(), Some("/srv/homework".to_owned()), false),
        Err(TealDriveError::PathEscapesRoot)
    );
    let ok = finish_existing_resolution(resolved.clone(), rel, Some("/srv/home/docs/a.txt".to_owned()), false).unwrap();
    assert_eq!(ok.resolved_path, "/srv/home/docs/a.txt");

    let (parent, name, parent_candidate) = new_target_candidate(&resolved, &RelativePath::new("docs"), "b.txt").unwrap();
    assert_eq!(parent_candidate, "/srv/home/docs");
    assert_eq!(new_target_candidate(&resolved, &RelativePath::new("docs"), ".."), Err(TealDriveError::ReservedNameRejected));
    assert_eq!(
        finish_new_target(resolved.clone(), parent.clone(), name.clone(), Err(missing)),
        Err(TealDriveError::NotFound)
    );
    assert_eq!(
        finish_new_target(resolved.clone(), parent.clone(), name.clone(), Ok("/etc".to_owned())),
        Err(TealDriveError::PathEscapesRoot)
    );
    let target = finish_new_target(resolved.clone(), parent, name, Ok("/srv/home/docs".to_owned())).unwrap();
    assert_eq!(target.resolved_path, "/srv/home/docs/b.txt");
}

#[test]
fn entry_with_mime_keeps_the_given_type() {
    let stat = PlainStat { is_dir: false, is_symlink: true, len: 12, modified_secs: 99 };
    let e = FsOperations::entry_with_mime("/srv/www/id_rsa", "id_rsa".to_owned(), &stat, "text/x-key".to_owned());
    assert_eq!(e.mime, "text/x-key");
    assert_eq!(e.id, "/srv/www/id_rsa");
    assert_eq!(e.entry_type, EntryType::Symlink);
    assert_eq!(e.size, 12);
    assert_eq!(e.modified, 99);
    assert!(e.is_sensitive);
    assert_eq!(e.capabilities, vec!["READ".to_owned()]);
}
