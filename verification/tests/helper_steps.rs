use tealdrive::config::{AllowedRoot, RelativePath, RootId, SensitivePolicyConfig};
use tealdrive::errors::{ErrorKind, TealDriveError};
use tealdrive::fs::filename::SafeFileName;
use tealdrive::fs::path::{ExistingPathResolution, NewTargetResolution, ResolvedRoot};
use tealdrive::helper::errors::{IoErrorKind, IoFailure};
use tealdrive::helper::listing::FileStat;
use tealdrive::helper::reads::{download_next, list_next, metadata_next, text_next, ReadFacts, ReadNext};
use tealdrive::helper::types::{
    HelperCommand, HelperLimits, HelperPolicyContext, HelperRequest, HelperResponse, HelperResponsePayload,
};
use tealdrive::helper::writes::{create_folder_next, rename_next, transfer_next, WriteFacts, WriteNext};
use tealdrive::protocol::frame::RequestId;

fn home() -> AllowedRoot {
    AllowedRoot {
        root_id: RootId::new("home"),
        base_path: "/srv/home".to_owned(),
        read_only: false,
        uploads_allowed: true,
        hidden_files_allowed: false,
        is_web_root: false,
    }
}

fn request(command: HelperCommand, path: &str) -> HelperRequest {
    HelperRequest {
        request_id: RequestId::new(),
        username: "alice".to_owned(),
        uid: 1000,
        gid: 1000,
        command,
        root_id: RootId::new("home"),
        relative_path: RelativePath::new(path),
        target_relative_path: None,
        policy_context: HelperPolicyContext {
            read_only_root: false,
            is_web_root: false,
        },
        limits: HelperLimits {
            max_directory_page_size: 500,
            max_text_edit_size: 5 * 1024 * 1024,
            max_chunk_size: 256 * 1024,
            max_download_helper_bytes: 64 * 1024 * 1024,
        },
        list_options: None,
    }
}

fn resolved_root() -> ResolvedRoot {
    ResolvedRoot {
        root_id: RootId::new("home"),
        canonical_base: "/srv/home".to_owned(),
        root: home(),
    }
}

fn resolved(relative: &str) -> ExistingPathResolution {
    ExistingPathResolution {
        root: resolved_root(),
        relative_path: RelativePath::new(relative),
        resolved_path: format!("/srv/home/{relative}"),
        is_symlink: false,
    }
}

fn new_target(parent: &str, name: &str) -> NewTargetResolution {
    let resolved_parent = if parent.is_empty() { "/srv/home".to_owned() } else { format!("/srv/home/{parent}") };
    NewTargetResolution {
        root: resolved_root(),
        parent_relative_path: RelativePath::new(parent),
        filename: SafeFileName::parse(name).unwrap(),
        resolved_path: format!("{resolved_parent}/{name}"),
        resolved_parent,
    }
}

fn file(len: u64) -> FileStat {
    FileStat {
        is_symlink: false,
        is_dir: false,
        is_file: true,
        len,
        modified_secs: Some(1700000000),
        mode: 0o644,
        uid: 1000,
        gid: 100,
    }
}

fn dir() -> FileStat {
    FileStat { is_dir: true, is_file: false, len: 4096, mode: 0o755, ..file(0) }
}

fn link() -> FileStat {
    FileStat { is_symlink: true, is_file: false, ..file(7) }
}

fn io(kind: IoErrorKind, code: i32) -> IoFailure {
    IoFailure { kind, raw_os_error: Some(code) }
}

fn answer(next: ReadNext) -> HelperResponse {
    match next {
        ReadNext::Answer(r) => r,
        other => panic!("expected an answer, got {other:?}"),
    }
}

fn written(next: WriteNext) -> HelperResponse {
    match next {
        WriteNext::Answer(r) => r,
        other => panic!("expected an answer, got {other:?}"),
    }
}

/// Read facts up to a described target.
fn described(path: &str, stat: FileStat) -> ReadFacts {
    let mut facts = ReadFacts::new();
    facts.source = Some(Ok(resolved(path)));
    facts.stat = Some(Ok(stat));
    facts
}

#[test]
fn helper_download_reads_file_chunks() {
    let mut req = request(HelperCommand::DownloadFile, "file.txt");
    req.limits.max_chunk_size = 5;
    let roots = vec![home()];
    let mut facts = ReadFacts::new();
    let ReadNext::ResolveSource(root, path) = download_next(&req, &roots, &facts) else { panic!() };
    assert_eq!((root, path), (home(), RelativePath::new("file.txt")));
    facts.source = Some(Ok(resolved("file.txt")));
    let ReadNext::StatNoFollow(p) = download_next(&req, &roots, &facts) else { panic!() };
    assert_eq!(p, "/srv/home/file.txt");
    facts.stat = Some(Ok(file(11)));
    let ReadNext::ReadFile(p) = download_next(&req, &roots, &facts) else { panic!() };
    assert_eq!(p, "/srv/home/file.txt");
    facts.bytes = Some(Ok(b"hello world".to_vec()));
    let response = answer(download_next(&req, &roots, &facts));
    assert!(response.success);
    let HelperResponsePayload::DownloadFile(download) = response.payload else { panic!("download") };
    assert_eq!(download.total_bytes, 11);
    assert_eq!(download.chunks.len(), 3);
    assert_eq!(download.chunks[1].offset, 5);
}

#[test]
fn helper_download_large_file_rejected() {
    let mut req = request(HelperCommand::DownloadFile, "big.bin");
    req.limits.max_download_helper_bytes = 8;
    let r = answer(download_next(&req, &[home()], &described("big.bin", file(16))));
    assert_eq!(r.error_kind, Some(ErrorKind::FileTooLarge));
}

#[test]
fn helper_download_symlink_denied() {
    let req = request(HelperCommand::DownloadFile, "link");
    let r = answer(download_next(&req, &[home()], &described("link", link())));
    assert_eq!(r.error_kind, Some(ErrorKind::PolicyDenied));
}

#[test]
fn helper_returns_text_content_for_utf8_file() {
    let req = request(HelperCommand::ReadTextFile, "main.rs");
    let mut facts = described("main.rs", file(13));
    facts.bytes = Some(Ok(b"fn main() {}\n".to_vec()));
    let r = answer(text_next(&req, &[home()], &SensitivePolicyConfig::default(), &facts));
    assert!(r.success);
    let HelperResponsePayload::TextFileContent(content) = r.payload else { panic!("text") };
    assert_eq!(content.content, "fn main() {}\n");
    assert_eq!(content.language_hint.as_deref(), Some("rust"));
    assert_eq!(content.line_count, Some(1));
    assert_eq!(content.name, "main.rs");
}

#[test]
fn helper_text_rejects_large_file() {
    let mut req = request(HelperCommand::ReadTextFile, "large.txt");
    req.limits.max_text_edit_size = 4;
    let r = answer(text_next(&req, &[home()], &SensitivePolicyConfig::default(), &described("large.txt", file(9))));
    assert_eq!(r.error_kind, Some(ErrorKind::FileTooLarge));
}

#[test]
fn helper_text_rejects_symlink() {
    let req = request(HelperCommand::ReadTextFile, "link");
    let mut facts = ReadFacts::new();
    facts.source = Some(Err(TealDriveError::SymlinkDenied));
    let r = answer(text_next(&req, &[home()], &SensitivePolicyConfig::default(), &facts));
    assert_eq!(r.error_kind, Some(ErrorKind::PolicyDenied));
    let r = answer(text_next(&req, &[home()], &SensitivePolicyConfig::default(), &described("link", link())));
    assert_eq!(r.error_kind, Some(ErrorKind::PolicyDenied));
}

#[test]
fn helper_text_rejects_invalid_utf8() {
    let req = request(HelperCommand::ReadTextFile, "bad.txt");
    let mut facts = described("bad.txt", file(3));
    facts.bytes = Some(Ok(vec![0xff, 0xfe, b'a']));
    let r = answer(text_next(&req, &[home()], &SensitivePolicyConfig::default(), &facts));
    assert_eq!(r.error_kind, Some(ErrorKind::InvalidTextEncoding));
}

#[test]
fn helper_text_error_does_not_return_file_content() {
    let req = request(HelperCommand::ReadTextFile, "binary.bin");
    let mut facts = described("binary.bin", file(12));
    facts.bytes = Some(Ok(b"SECRET\0VALUE".to_vec()));
    let r = answer(text_next(&req, &[home()], &SensitivePolicyConfig::default(), &facts));
    assert_eq!(r.error_kind, Some(ErrorKind::UnsupportedBinaryFile));
    assert!(!format!("{r:?}").contains("SECRET"));
}

#[test]
fn helper_missing_directory_maps_not_found() {
    let req = request(HelperCommand::ListDirectory, "missing");
    let mut facts = ReadFacts::new();
    facts.source = Some(Err(TealDriveError::NotFound));
    let r = answer(list_next(&req, &[home()], &SensitivePolicyConfig::default(), &facts));
    assert_eq!(r.error_kind, Some(ErrorKind::NotFound));
}

#[test]
fn helper_file_as_directory_maps_invalid_path() {
    let req = request(HelperCommand::ListDirectory, "file.txt");
    let roots = vec![home()];
    let mut facts = ReadFacts::new();
    facts.source = Some(Ok(resolved("file.txt")));
    let ReadNext::StatFollow(p) = list_next(&req, &roots, &SensitivePolicyConfig::default(), &facts) else { panic!() };
    assert_eq!(p, "/srv/home/file.txt");
    facts.stat = Some(Ok(file(5)));
    let r = answer(list_next(&req, &roots, &SensitivePolicyConfig::default(), &facts));
    assert_eq!(r.error_kind, Some(ErrorKind::InvalidPath));
}

#[test]
fn listings_keep_what_the_filter_passes_and_skip_unseen_hidden_names() {
    let mut req = request(HelperCommand::ListDirectory, "docs");
    let config = SensitivePolicyConfig::default();
    let roots = vec![home()];
    let mut facts = described("docs", dir());
    let ReadNext::ReadDir(p) = list_next(&req, &roots, &config, &facts) else { panic!() };
    assert_eq!(p, "/srv/home/docs");
    facts.dir_entries = Some(Ok(vec![
        ("b.txt".to_owned(), Ok(file(3))),
        (".cache".to_owned(), Err(io(IoErrorKind::PermissionDenied, 13))),
        ("a".to_owned(), Ok(dir())),
    ]));
    let r = answer(list_next(&req, &roots, &config, &facts));
    assert!(r.success);
    let HelperResponsePayload::DirectoryList(list) = r.payload else { panic!("list") };
    let names: Vec<_> = list.entries.iter().map(|e| e.name.as_str()).collect();
    assert_eq!(names, ["a", "b.txt"]);
    assert_eq!(list.total_estimate, Some(2));
    assert!(!list.has_more);

    let mut options = tealdrive::helper::listing::default_list_options(&req);
    options.include_hidden = true;
    req.list_options = Some(options);
    let r = answer(list_next(&req, &roots, &config, &facts));
    assert_eq!(r.error_kind, Some(ErrorKind::PermissionDenied));
}

#[test]
fn helper_file_metadata_missing_maps_not_found() {
    let req = request(HelperCommand::FileMetadata, "missing.txt");
    let roots = vec![home()];
    let mut facts = ReadFacts::new();
    let ReadNext::StatNoFollow(p) = metadata_next(&req, &roots, &SensitivePolicyConfig::default(), &facts) else { panic!() };
    assert_eq!(p, "/srv/home/missing.txt");
    facts.stat = Some(Err(io(IoErrorKind::NotFound, 2)));
    let r = answer(metadata_next(&req, &roots, &SensitivePolicyConfig::default(), &facts));
    assert_eq!(r.error_kind, Some(ErrorKind::NotFound));
}

#[test]
fn metadata_checks_the_entry_stays_in_its_root() {
    let config = SensitivePolicyConfig::default();
    let roots = vec![home()];
    let req = request(HelperCommand::FileMetadata, "docs/a.txt");
    let mut facts = ReadFacts::new();
    facts.stat = Some(Ok(file(4)));
    let ReadNext::CanonicalizeRoot(p) = metadata_next(&req, &roots, &config, &facts) else { panic!() };
    assert_eq!(p, "/srv/home");
    facts.canonical_base = Some(Some("/srv/home".to_owned()));
    let ReadNext::Canonicalize(p) = metadata_next(&req, &roots, &config, &facts) else { panic!() };
    assert_eq!(p, "/srv/home/docs/a.txt");
    facts.canonical_target = Some(Some("/srv/home/docs/a.txt".to_owned()));
    let r = answer(metadata_next(&req, &roots, &config, &facts));
    let HelperResponsePayload::FileMetadata(entry) = r.payload else { panic!("entry") };
    assert_eq!(entry.name, "a.txt");
    assert_eq!(entry.size, 4);

    let mut link_facts = ReadFacts::new();
    link_facts.stat = Some(Ok(link()));
    link_facts.canonical_base = Some(Some("/srv/home".to_owned()));
    let ReadNext::CanonicalizeParentOf(p) = metadata_next(&req, &roots, &config, &link_facts) else { panic!() };
    assert_eq!(p, "/srv/home/docs/a.txt");
    link_facts.canonical_target = Some(Some("/etc".to_owned()));
    let r = answer(metadata_next(&req, &roots, &config, &link_facts));
    assert_eq!(r.error_kind, Some(ErrorKind::InvalidPath));
    assert_eq!(r.safe_message.as_deref(), Some("Invalid path."));
}

fn write_request(command: HelperCommand, path: &str, target: Option<&str>) -> HelperRequest {
    let mut req = request(command, path);
    req.target_relative_path = target.map(RelativePath::new);
    req
}

#[test]
fn creating_a_folder_resolves_then_creates() {
    let req = write_request(HelperCommand::CreateFolder, "docs", Some("new"));
    let roots = vec![home()];
    let mut facts = WriteFacts::new();
    let WriteNext::ResolveTarget(root, parent, name) = create_folder_next(&req, &roots, &facts) else { panic!() };
    assert_eq!((root, parent, name.as_str()), (home(), RelativePath::new("docs"), "new"));
    facts.target = Some(Ok(new_target("docs", "new")));
    let WriteNext::CreateDir(p) = create_folder_next(&req, &roots, &facts) else { panic!() };
    assert_eq!(p, "/srv/home/docs/new");
    facts.done = Some(Ok(()));
    let r = written(create_folder_next(&req, &roots, &facts));
    assert_eq!(r.safe_message.as_deref(), Some("Folder created."));
}

#[test]
fn helper_create_folder_rejects_invalid_name() {
    let req = write_request(HelperCommand::CreateFolder, "", Some("a/b"));
    let r = written(create_folder_next(&req, &[home()], &WriteFacts::new()));
    assert_eq!(r.error_kind, Some(ErrorKind::ValidationError));
}

#[test]
fn helper_create_folder_returns_already_exists() {
    let req = write_request(HelperCommand::CreateFolder, "", Some("existing"));
    let mut facts = WriteFacts::new();
    facts.target = Some(Ok(new_target("", "existing")));
    facts.done = Some(Err(io(IoErrorKind::AlreadyExists, 17)));
    let r = written(create_folder_next(&req, &[home()], &facts));
    assert_eq!(r.error_kind, Some(ErrorKind::AlreadyExists));
    assert!(!format!("{r:?}").contains("/srv/home"));
}

#[test]
fn renaming_resolves_both_names_then_renames() {
    let req = write_request(HelperCommand::Rename, "docs/old.txt", Some("new.txt"));
    let roots = vec![home()];
    let mut facts = WriteFacts::new();
    assert!(matches!(rename_next(&req, &roots, &facts), WriteNext::ResolveSource(..)));
    facts.source = Some(Ok(resolved("docs/old.txt")));
    let WriteNext::ResolveTarget(_, parent, name) = rename_next(&req, &roots, &facts) else { panic!() };
    assert_eq!((parent, name.as_str()), (RelativePath::new("docs"), "new.txt"));
    facts.target = Some(Ok(new_target("docs", "new.txt")));
    let WriteNext::Exists(p) = rename_next(&req, &roots, &facts) else { panic!() };
    assert_eq!(p, "/srv/home/docs/new.txt");
    facts.target_exists = Some(false);
    let WriteNext::Rename { from, to } = rename_next(&req, &roots, &facts) else { panic!() };
    assert_eq!((from.as_str(), to.as_str()), ("/srv/home/docs/old.txt", "/srv/home/docs/new.txt"));
    facts.done = Some(Ok(()));
    assert_eq!(written(rename_next(&req, &roots, &facts)).safe_message.as_deref(), Some("Renamed."));
}

#[test]
fn helper_rename_rejects_target_exists() {
    let req = write_request(HelperCommand::Rename, "old.txt", Some("new.txt"));
    let mut facts = WriteFacts::new();
    facts.source = Some(Ok(resolved("old.txt")));
    facts.target = Some(Ok(new_target("", "new.txt")));
    facts.target_exists = Some(true);
    assert_eq!(written(rename_next(&req, &[home()], &facts)).error_kind, Some(ErrorKind::AlreadyExists));
}

#[test]
fn helper_rename_rejects_invalid_new_name() {
    let req = write_request(HelperCommand::Rename, "old.txt", Some("../x"));
    assert_eq!(
        written(rename_next(&req, &[home()], &WriteFacts::new())).error_kind,
        Some(ErrorKind::ValidationError)
    );
}

#[test]
fn moving_and_copying_stay_in_the_root_and_never_overwrite() {
    let roots = vec![home()];
    for copy in [false, true] {
        let command = if copy { HelperCommand::Copy } else { HelperCommand::Move };
        let req = write_request(command, "old.txt", Some("sub/new.txt"));
        let mut facts = WriteFacts::new();
        facts.source = Some(Ok(resolved("old.txt")));
        if copy {
            let WriteNext::IsDir(p) = transfer_next(&req, &roots, &facts, copy) else { panic!() };
            assert_eq!(p, "/srv/home/old.txt");
            facts.source_is_dir = Some(false);
        }
        let WriteNext::Exists(p) = transfer_next(&req, &roots, &facts, copy) else { panic!() };
        assert_eq!(p, "/srv/home/sub/new.txt");
        facts.target_exists = Some(false);
        let (from, to) = match transfer_next(&req, &roots, &facts, copy) {
            WriteNext::Copy { from, to } if copy => (from, to),
            WriteNext::Rename { from, to } if !copy => (from, to),
            other => panic!("unexpected {other:?}"),
        };
        assert_eq!((from.as_str(), to.as_str()), ("/srv/home/old.txt", "/srv/home/sub/new.txt"));
        facts.done = Some(Ok(()));
        let message = written(transfer_next(&req, &roots, &facts, copy)).safe_message;
        assert_eq!(message.as_deref(), Some(if copy { "Copied." } else { "Moved." }));
    }
}

#[test]
fn helper_move_source_not_found() {
    let req = write_request(HelperCommand::Move, "missing.txt", Some("new.txt"));
    let mut facts = WriteFacts::new();
    facts.source = Some(Err(TealDriveError::NotFound));
    assert_eq!(written(transfer_next(&req, &[home()], &facts, false)).error_kind, Some(ErrorKind::NotFound));
}

#[test]
fn helper_copy_source_not_found() {
    let req = write_request(HelperCommand::Copy, "missing.txt", Some("copy.txt"));
    let mut facts = WriteFacts::new();
    facts.source = Some(Err(TealDriveError::NotFound));
    assert_eq!(written(transfer_next(&req, &[home()], &facts, true)).error_kind, Some(ErrorKind::NotFound));
}

#[test]
fn helper_copy_directory_rejected() {
    let req = write_request(HelperCommand::Copy, "dir", Some("dir-copy"));
    let mut facts = WriteFacts::new();
    facts.source = Some(Ok(resolved("dir")));
    facts.source_is_dir = Some(true);
    assert_eq!(written(transfer_next(&req, &[home()], &facts, true)).error_kind, Some(ErrorKind::InvalidTarget));
}

#[test]
fn helper_move_target_exists() {
    let req = write_request(HelperCommand::Move, "old.txt", Some("new.txt"));
    let mut facts = WriteFacts::new();
    facts.source = Some(Ok(resolved("old.txt")));
    facts.target_exists = Some(true);
    assert_eq!(written(transfer_next(&req, &[home()], &facts, false)).error_kind, Some(ErrorKind::AlreadyExists));
}

#[test]
fn helper_copy_target_exists() {
    let req = write_request(HelperCommand::Copy, "orig.txt", Some("copy.txt"));
    let mut facts = WriteFacts::new();
    facts.source = Some(Ok(resolved("orig.txt")));
    facts.source_is_dir = Some(false);
    facts.target_exists = Some(true);
    assert_eq!(written(transfer_next(&req, &[home()], &facts, true)).error_kind, Some(ErrorKind::AlreadyExists));
}

#[test]
fn transfers_refuse_missing_empty_and_escaping_targets() {
    let r = written(transfer_next(&write_request(HelperCommand::Move, "a", None), &[home()], &WriteFacts::new(), false));
    assert_eq!(r.safe_message.as_deref(), Some("Target path is required."));
    let r = written(transfer_next(&write_request(HelperCommand::Move, "a", Some("")), &[home()], &WriteFacts::new(), false));
    assert_eq!(r.safe_message.as_deref(), Some("Target path cannot be empty."));
    let r = written(transfer_next(&write_request(HelperCommand::Move, "a", Some("../x")), &[home()], &WriteFacts::new(), false));
    assert_eq!(r.error_kind, Some(ErrorKind::PolicyDenied));
}
