use tealdrive::config::{AllowedRoot, RelativePath, RootId, SensitivePolicyConfig};
use tealdrive::errors::{ErrorKind, TealDriveError};
use tealdrive::helper::download::{chunk_download, download_chunk_size};
use tealdrive::helper::errors::{
    helper_error_from_io, helper_error_from_tealdrive, helper_precheck, IoContext, IoErrorKind,
    IoFailure,
};
use tealdrive::helper::ipc::{
    check_length_prefix, decode_length_prefixed, encode_length_prefixed, handle_helper_request,
    helper_decode_error, MAX_HELPER_REQUEST_SIZE,
};
use tealdrive::helper::listing::{
    cursor_for_offset, directory_entry_from_metadata, has_ext, listing_response, matches_filter,
    page_entries, parse_cursor_offset, permission_string, sort_entries, str_contains_ignore_case, FileStat,
};
use tealdrive::helper::refusal::{refuse, Refusal};
use tealdrive::helper::text::{language_hint, line_count, text_response, too_many_control_chars};
use tealdrive::helper::types::{
    command_disabled_in_v1, HelperCommand, HelperDirectoryEntry, HelperDirectoryList,
    HelperDownloadChunk, HelperDownloadFile, HelperLimits, HelperPolicyContext, HelperRequest,
    HelperResponse, HelperResponsePayload, HelperTextFileContent,
};
use tealdrive::protocol::frame::{RequestId, TransferId};
use tealdrive::protocol::schema::{CapabilitySet, DirectoryCursor, FileFilter, FileKind, FilterMode, SortMode};
use tealdrive::strings::decimal_string;

fn sample_request(command: HelperCommand) -> HelperRequest {
    HelperRequest {
        request_id: RequestId::new(),
        username: "alice".to_owned(),
        uid: 1000,
        gid: 1000,
        command,
        root_id: RootId::new("home"),
        relative_path: RelativePath::new("docs"),
        target_relative_path: None,
        policy_context: HelperPolicyContext {
            read_only_root: false,
            is_web_root: false,
        },
        limits: HelperLimits {
            max_directory_page_size: 500,
            max_text_edit_size: 5 * 1024 * 1024,
            max_chunk_size: 256 * 1024,
            max_download_helper_bytes: 64 * 1024 * 1024,
        },
        list_options: None,
    }
}

fn entry(name: &str, size: u64, kind: FileKind) -> HelperDirectoryEntry {
    HelperDirectoryEntry {
        name: name.to_owned(),
        file_type: kind,
        size,
        modified: None,
        owner: None,
        group: None,
        mode: None,
        permissions: None,
        is_hidden: false,
        is_sensitive: false,
        is_protected: false,
        is_symlink: false,
        symlink_target: None,
        is_web_root: false,
        is_world_writable: false,
        capabilities: CapabilitySet::default(),
    }
}

fn root() -> AllowedRoot {
    AllowedRoot {
        root_id: RootId::new("home"),
        base_path: "/srv/home".to_owned(),
        read_only: false,
        uploads_allowed: true,
        hidden_files_allowed: false,
        is_web_root: false,
    }
}

fn file_stat(len: u64) -> FileStat {
    FileStat {
        is_symlink: false,
        is_dir: false,
        is_file: true,
        len,
        modified_secs: Some(1700000000),
        mode: 0o644,
        uid: 1000,
        gid: 100,
    }
}

#[test]
fn disabled_command_response_shape() {
    let request = sample_request(HelperCommand::DeletePermanently);
    let response = HelperResponse::feature_disabled(&request);

    assert!(!response.success);
    assert_eq!(response.error_kind, Some(ErrorKind::FeatureDisabled));
    assert_eq!(
        response.audit_metadata.as_ref().map(|meta| meta.reason.as_deref()),
        Some(Some("feature_disabled"))
    );
}

#[test]
fn audit_metadata_creation() {
    let request = sample_request(HelperCommand::ListDirectory);
    let response = HelperResponse::not_implemented(&request);
    let metadata = response.audit_metadata.expect("metadata");

    assert_eq!(metadata.request_id, request.request_id);
    assert_eq!(metadata.command, HelperCommand::ListDirectory);
    assert_eq!(metadata.root_id, RootId::new("home"));
}

#[test]
fn directory_payload_response_shape() {
    let request = sample_request(HelperCommand::ListDirectory);
    let list = HelperDirectoryList {
        entries: vec![entry("file.txt", 4, FileKind::File)],
        has_more: false,
        next_cursor: None,
        total_estimate: Some(1),
    };
    let response = HelperResponse::directory_list(&request, list);

    assert!(response.success);
    assert!(matches!(response.payload, HelperResponsePayload::DirectoryList(_)));
}

#[test]
fn file_metadata_payload_response_shape() {
    let request = sample_request(HelperCommand::FileMetadata);
    let response = HelperResponse::file_metadata(&request, entry("file.txt", 4, FileKind::File));

    assert!(response.success);
    assert!(matches!(response.payload, HelperResponsePayload::FileMetadata(_)));
}

#[test]
fn download_payload_response_shape() {
    let request = sample_request(HelperCommand::DownloadFile);
    let download = HelperDownloadFile {
        transfer_id: TransferId::new(),
        total_bytes: 3,
        chunks: vec![HelperDownloadChunk {
            chunk_index: 0,
            offset: 0,
            chunk_bytes: b"abc".to_vec(),
        }],
    };
    let response = HelperResponse::download_file(&request, download);

    assert!(response.success);
    assert_eq!(response.bytes_read, 3);
    assert!(matches!(response.payload, HelperResponsePayload::DownloadFile(_)));
}

#[test]
fn text_file_content_payload_response_shape() {
    let request = sample_request(HelperCommand::ReadTextFile);
    let content = HelperTextFileContent {
        name: "notes.txt".to_owned(),
        content: "hello".to_owned(),
        encoding: "utf-8".to_owned(),
        size: 5,
        modified: None,
        owner: None,
        group: None,
        mode: None,
        permissions: None,
        is_sensitive: false,
        is_hidden: false,
        is_read_only: false,
        truncated: false,
        line_count: Some(1),
        language_hint: Some("text".to_owned()),
    };
    let response = HelperResponse::text_file_content(&request, content);

    assert!(response.success);
    assert_eq!(response.bytes_read, 5);
    assert!(matches!(response.payload, HelperResponsePayload::TextFileContent(_)));
}

#[test]
fn truncated_request_rejected() {
    assert_eq!(
        decode_length_prefixed(&[0, 0, 0, 10, 1, 2], MAX_HELPER_REQUEST_SIZE, TealDriveError::HelperRequestTooLarge),
        Err(TealDriveError::HelperMalformedResponse)
    );
}

#[test]
fn oversized_request_rejected() {
    let len = (MAX_HELPER_REQUEST_SIZE as u32) + 1;
    assert_eq!(
        decode_length_prefixed(&len.to_be_bytes(), MAX_HELPER_REQUEST_SIZE, TealDriveError::HelperRequestTooLarge),
        Err(TealDriveError::HelperRequestTooLarge)
    );
}

#[test]
fn big_endian_length_parsing() {
    let payload = vec![7_u8; 300];
    let encoded = encode_length_prefixed(&payload, MAX_HELPER_REQUEST_SIZE, TealDriveError::HelperRequestTooLarge)
        .expect("encoded");
    let parsed = u32::from_be_bytes(encoded[0..4].try_into().unwrap()) as usize;

    assert_eq!(parsed, encoded.len() - 4);
    assert_eq!(&encoded[0..4], &[0, 0, 1, 44]);
}

#[test]
fn length_prefixed_roundtrip() {
    let payload = b"hello helper".to_vec();
    let encoded = encode_length_prefixed(&payload, 64, TealDriveError::HelperResponseTooLarge).expect("encoded");
    assert_eq!(
        decode_length_prefixed(&encoded, 64, TealDriveError::HelperResponseTooLarge),
        Ok(payload)
    );
}

#[test]
fn length_prefix_edge_cases() {
    assert_eq!(
        encode_length_prefixed(&[], 64, TealDriveError::HelperResponseTooLarge),
        Err(TealDriveError::HelperEncodeFailed)
    );
    assert_eq!(
        encode_length_prefixed(&[1, 2, 3], 2, TealDriveError::HelperResponseTooLarge),
        Err(TealDriveError::HelperResponseTooLarge)
    );
    assert_eq!(
        decode_length_prefixed(&[0, 0, 0, 0], 64, TealDriveError::HelperResponseTooLarge),
        Err(TealDriveError::HelperMalformedResponse)
    );
    assert_eq!(check_length_prefix([0, 0, 1, 0], 1024, TealDriveError::HelperResponseTooLarge), Ok(256));
    assert_eq!(
        check_length_prefix([0, 0, 1, 0], 100, TealDriveError::HelperResponseTooLarge),
        Err(TealDriveError::HelperResponseTooLarge)
    );
    assert_eq!(helper_decode_error(TealDriveError::Protocol), TealDriveError::HelperDecodeFailed);
    assert_eq!(
        helper_decode_error(TealDriveError::HelperRequestTooLarge),
        TealDriveError::HelperRequestTooLarge
    );
}

#[test]
fn uid_zero_request_rejected() {
    let mut request = sample_request(HelperCommand::ListDirectory);
    request.uid = 0;
    let response = handle_helper_request(&request);

    assert!(!response.success);
    assert_eq!(response.error_kind, Some(ErrorKind::PermissionDenied));
}

#[test]
fn unsupported_command_returns_not_implemented() {
    let request = sample_request(HelperCommand::ListDirectory);
    let response = handle_helper_request(&request);

    assert!(!response.success);
    assert_eq!(response.error_kind, Some(ErrorKind::NotImplemented));
}

#[test]
fn disabled_command_returns_feature_disabled() {
    let request = sample_request(HelperCommand::ExtractArchive);
    let response = handle_helper_request(&request);

    assert!(!response.success);
    assert_eq!(response.error_kind, Some(ErrorKind::FeatureDisabled));
}

#[test]
fn disabled_commands_in_v1() {
    assert!(command_disabled_in_v1(HelperCommand::Chmod));
    assert!(command_disabled_in_v1(HelperCommand::DeletePermanently));
    assert!(!command_disabled_in_v1(HelperCommand::Move));
}

#[test]
fn precheck_refuses_wrong_command_uid_zero_and_unknown_root() {
    let roots = vec![root()];
    let request = sample_request(HelperCommand::Copy);
    let refused = helper_precheck(&request, HelperCommand::Move, &roots).unwrap_err();
    assert_eq!(refused.error_kind, Some(ErrorKind::NotImplemented));

    let mut request = sample_request(HelperCommand::Move);
    request.uid = 0;
    let refused = helper_precheck(&request, HelperCommand::Move, &roots).unwrap_err();
    assert_eq!(refused.safe_message.as_deref(), Some("Helper refuses uid 0."));

    let mut request = sample_request(HelperCommand::Move);
    request.root_id = RootId::new("other");
    let refused = helper_precheck(&request, HelperCommand::Move, &roots).unwrap_err();
    assert_eq!(refused.error_kind, Some(ErrorKind::InvalidPath));
    assert_eq!(
        refused.audit_metadata.unwrap().reason.as_deref(),
        Some("invalid_root_id")
    );

    let request = sample_request(HelperCommand::Move);
    assert_eq!(helper_precheck(&request, HelperCommand::Move, &roots).unwrap(), &roots[0]);
}

#[test]
fn path_and_io_failures_map_to_safe_responses() {
    let request = sample_request(HelperCommand::ListDirectory);
    let r = helper_error_from_tealdrive(&request, TealDriveError::SymlinkEscape);
    assert_eq!(r.error_kind, Some(ErrorKind::PolicyDenied));
    assert_eq!(r.safe_message.as_deref(), Some("Symlink access denied."));

    let missing = IoFailure { kind: IoErrorKind::NotFound, raw_os_error: Some(2) };
    let r = helper_error_from_io(&request, IoContext::Read, missing);
    assert_eq!(r.error_kind, Some(ErrorKind::NotFound));
    let cross = IoFailure { kind: IoErrorKind::Other, raw_os_error: Some(18) };
    let r = helper_error_from_io(&request, IoContext::Rename, cross);
    assert_eq!(r.error_kind, Some(ErrorKind::CrossDeviceMove));
    assert_eq!(r.safe_message.as_deref(), Some("Cross-device rename is not supported."));
    let full = IoFailure { kind: IoErrorKind::Other, raw_os_error: Some(28) };
    assert_eq!(helper_error_from_io(&request, IoContext::Copy, full).error_kind, Some(ErrorKind::DiskFull));
    let parent = IoFailure { kind: IoErrorKind::NotFound, raw_os_error: Some(2) };
    assert_eq!(
        helper_error_from_io(&request, IoContext::CreateFolder, parent).safe_message.as_deref(),
        Some("Parent not found.")
    );
}

#[test]
fn permission_strings_and_decimals() {
    assert_eq!(permission_string(0o644), "rw-r--r--");
    assert_eq!(permission_string(0o755), "rwxr-xr-x");
    assert_eq!(permission_string(0), "---------");
    assert_eq!(decimal_string(0), "0");
    assert_eq!(decimal_string(1700000000), "1700000000");
    assert_eq!(decimal_string(u64::MAX), u64::MAX.to_string());
}

#[test]
fn entry_from_metadata_describes_the_file() {
    let e = directory_entry_from_metadata(".profile".to_owned(), &file_stat(12), &root(), &SensitivePolicyConfig::default());
    assert_eq!(e.file_type, FileKind::File);
    assert_eq!(e.size, 12);
    assert!(e.is_hidden);
    assert_eq!(e.modified.as_deref(), Some("1700000000"));
    assert_eq!(e.owner.unwrap().0, "1000");
    assert_eq!(e.group.unwrap().0, "100");
    assert_eq!(e.permissions.as_deref(), Some("rw-r--r--"));
    assert!(!e.capabilities.can_list);
    assert!(e.capabilities.can_download);
    let mut dir = file_stat(4096);
    dir.is_file = false;
    dir.is_dir = true;
    dir.mode = 0o777;
    let d = directory_entry_from_metadata("docs".to_owned(), &dir, &root(), &SensitivePolicyConfig::default());
    assert_eq!(d.file_type, FileKind::Directory);
    assert_eq!(d.size, 0);
    assert!(d.is_world_writable);
    assert!(d.capabilities.can_list);
}

#[test]
fn filters_and_extensions() {
    let all = FilterMode { query: None, file_kind: None, filter: None };
    assert!(matches_filter("x", FileKind::File, &all, false, false));
    let code = FilterMode { query: None, file_kind: None, filter: Some(FileFilter::Code) };
    assert!(matches_filter("main.RS", FileKind::File, &code, false, false));
    assert!(!matches_filter("main.txt", FileKind::File, &code, false, false));
    let query = FilterMode { query: Some("REP".to_owned()), file_kind: Some(FileKind::File), filter: None };
    assert!(matches_filter("report.pdf", FileKind::File, &query, false, false));
    assert!(!matches_filter("report.pdf", FileKind::Directory, &query, false, false));
    assert!(!matches_filter("notes.pdf", FileKind::File, &query, false, false));
    assert!(has_ext("a.tar.GZ", &["gz"]));
    assert!(!has_ext("gz", &["gz"]));
    assert!(str_contains_ignore_case("Hello", ""));
    assert!(!str_contains_ignore_case("He", "Hello"));
}

#[test]
fn sorting_orders_entries() {
    let mut entries = vec![
        entry("b", 2, FileKind::File),
        entry("a", 3, FileKind::Directory),
        entry("c", 1, FileKind::Symlink),
    ];
    sort_entries(&mut entries, SortMode::NameAsc);
    let names: Vec<_> = entries.iter().map(|e| e.name.clone()).collect();
    assert_eq!(names, ["a", "b", "c"]);
    sort_entries(&mut entries, SortMode::SizeDesc);
    let sizes: Vec<_> = entries.iter().map(|e| e.size).collect();
    assert_eq!(sizes, [3, 2, 1]);
    sort_entries(&mut entries, SortMode::TypeDesc);
    let kinds: Vec<_> = entries.iter().map(|e| e.file_type).collect();
    assert_eq!(kinds, [FileKind::Symlink, FileKind::File, FileKind::Directory]);
}

#[test]
fn cursors_roundtrip_and_pages_continue() {
    let c = cursor_for_offset(42);
    assert_eq!(c.0, "offset:42");
    assert_eq!(parse_cursor_offset(Some(&c)), Some(42));
    assert_eq!(parse_cursor_offset(Some(&DirectoryCursor("offset:+7".to_owned()))), Some(7));
    assert_eq!(parse_cursor_offset(Some(&DirectoryCursor("page:7".to_owned()))), None);
    assert_eq!(parse_cursor_offset(Some(&DirectoryCursor("offset:x".to_owned()))), None);
    assert_eq!(parse_cursor_offset(None), None);

    let request = sample_request(HelperCommand::ListDirectory);
    let entries = vec![
        entry("d", 1, FileKind::File),
        entry("a", 1, FileKind::File),
        entry("c", 1, FileKind::File),
        entry("b", 1, FileKind::File),
    ];
    let first = listing_response(&request, entries.clone(), &None, SortMode::NameAsc, 3);
    let HelperResponsePayload::DirectoryList(list) = first.payload else { panic!("list") };
    assert_eq!(list.entries.iter().map(|e| e.name.as_str()).collect::<Vec<_>>(), ["a", "b", "c"]);
    assert!(list.has_more);
    assert_eq!(list.total_estimate, Some(4));
    let next = list.next_cursor.clone();
    assert_eq!(next, Some(DirectoryCursor("offset:3".to_owned())));
    let second = listing_response(&request, entries, &next, SortMode::NameAsc, 3);
    let HelperResponsePayload::DirectoryList(list) = second.payload else { panic!("list") };
    assert_eq!(list.entries.iter().map(|e| e.name.as_str()).collect::<Vec<_>>(), ["d"]);
    assert!(!list.has_more);
    assert_eq!(list.next_cursor, None);
}

#[test]
fn text_checks() {
    assert!(!too_many_control_chars(b""));
    assert!(!too_many_control_chars(b"line\nline\r\n\ttab"));
    assert!(too_many_control_chars(&[1, 2, b'a']));
    assert_eq!(line_count(""), 0);
    assert_eq!(line_count("a\n\nb"), 3);
    assert_eq!(line_count("a\n"), 1);
    assert_eq!(language_hint("main.RS").as_deref(), Some("rust"));
    assert_eq!(language_hint("config.yml").as_deref(), Some("yaml"));
    assert_eq!(language_hint("Makefile"), None);
    assert_eq!(language_hint("archive.zip"), None);
}

#[test]
fn text_response_decodes_utf8_and_refuses_binary() {
    let request = sample_request(HelperCommand::ReadTextFile);
    let ok = text_response(&request, &root(), &SensitivePolicyConfig::default(), "notes.md".to_owned(), &file_stat(8), "héllo\nx".as_bytes().to_vec());
    let HelperResponsePayload::TextFileContent(c) = ok.payload else { panic!("text") };
    assert_eq!(c.content, "héllo\nx");
    assert_eq!(c.line_count, Some(2));
    assert_eq!(c.language_hint.as_deref(), Some("markdown"));
    assert_eq!(ok.bytes_read, 8);

    let bad = text_response(&request, &root(), &SensitivePolicyConfig::default(), "a.txt".to_owned(), &file_stat(2), vec![0xff, 0xfe]);
    assert_eq!(bad.error_kind, Some(ErrorKind::InvalidTextEncoding));
    let binary = text_response(&request, &root(), &SensitivePolicyConfig::default(), "a.txt".to_owned(), &file_stat(3), vec![b'a', 0, b'b']);
    assert_eq!(binary.error_kind, Some(ErrorKind::UnsupportedBinaryFile));
}

#[test]
fn downloads_are_cut_into_chunks() {
    assert_eq!(download_chunk_size(0), 1);
    assert_eq!(download_chunk_size(usize::MAX), 256 * 1024);
    let id = TransferId::new();
    let bytes: Vec<u8> = (0..10).collect();
    let file = chunk_download(&bytes, 4, 10, id).expect("chunks");
    assert_eq!(file.chunks.len(), 3);
    assert_eq!(file.chunks[1].offset, 4);
    assert_eq!(file.chunks[2].chunk_index, 2);
    assert_eq!(file.chunks[2].chunk_bytes, vec![8, 9]);
    let joined: Vec<u8> = file.chunks.iter().flat_map(|c| c.chunk_bytes.clone()).collect();
    assert_eq!(joined, bytes);
    assert!(chunk_download(&[], 4, 0, id).unwrap().chunks.is_empty());
}

#[test]
fn pages_tile_the_listing() {
    let all: Vec<HelperDirectoryEntry> = ["a", "b", "c", "d", "e"]
        .iter()
        .map(|n| entry(n, 1, FileKind::File))
        .collect();
    let (first, more) = page_entries(all.clone(), 1, 2);
    assert!(more);
    assert_eq!(first.len(), 2);
    let (second, _) = page_entries(all.clone(), 3, 2);
    let (both, _) = page_entries(all.clone(), 1, 4);
    let joined: Vec<HelperDirectoryEntry> = first.into_iter().chain(second).collect();
    assert_eq!(joined, both);
    let (last, more) = page_entries(all.clone(), 3, 5);
    assert!(!more);
    assert_eq!(last.iter().map(|e| e.name.as_str()).collect::<Vec<_>>(), ["d", "e"]);
    let (past, more) = page_entries(all, 9, 5);
    assert!(past.is_empty());
    assert!(!more);
}

#[test]
fn refusal_and_failure_messages_name_no_path() {
    let request = sample_request(HelperCommand::RestoreFromTrash);
    for refusal in [
        Refusal::TargetEscapesRoot,
        Refusal::OriginalPathEscapesRoot,
        Refusal::RootUnreachable,
        Refusal::TrashFileMissing,
        Refusal::DownloadTooLarge,
    ] {
        let r = refuse(&request, refusal);
        assert!(!r.safe_message.unwrap().contains('/'));
    }
    for error in [TealDriveError::PathEscapesRoot, TealDriveError::SymlinkEscape, TealDriveError::NotFound] {
        let r = helper_error_from_tealdrive(&request, error);
        assert!(!r.safe_message.unwrap().contains('/'));
    }
    let failure = IoFailure { kind: IoErrorKind::Other, raw_os_error: Some(18) };
    let r = helper_error_from_io(&request, IoContext::Move, failure);
    assert_eq!(r.safe_message.as_deref(), Some("Cross-device move is not supported."));
}

#[test]
fn sorting_keeps_ties_in_the_order_they_came() {
    let mut entries = vec![
        entry("z", 5, FileKind::File),
        entry("m", 1, FileKind::Directory),
        entry("b", 5, FileKind::File),
        entry("k", 2, FileKind::File),
        entry("a", 9, FileKind::Directory),
    ];
    sort_entries(&mut entries, SortMode::TypeAsc);
    let names: Vec<_> = entries.iter().map(|e| e.name.as_str()).collect();
    assert_eq!(names, ["m", "a", "z", "b", "k"]);
    sort_entries(&mut entries, SortMode::SizeDesc);
    let names: Vec<_> = entries.iter().map(|e| e.name.as_str()).collect();
    assert_eq!(names, ["a", "z", "b", "k", "m"]);
}

#[test]
fn following_the_cursor_matches_one_bigger_page() {
    let request = sample_request(HelperCommand::ListDirectory);
    let entries = vec![
        entry("q", 3, FileKind::File),
        entry("p", 1, FileKind::Directory),
        entry("c", 3, FileKind::File),
        entry("x", 2, FileKind::Symlink),
        entry("b", 3, FileKind::File),
        entry("a", 7, FileKind::Directory),
    ];
    let names = |r: HelperResponse| -> (Vec<String>, bool, Option<DirectoryCursor>) {
        let HelperResponsePayload::DirectoryList(list) = r.payload else { panic!("list") };
        (list.entries.iter().map(|e| e.name.clone()).collect(), list.has_more, list.next_cursor)
    };
    let (first, more, next) = names(listing_response(&request, entries.clone(), &None, SortMode::TypeAsc, 3));
    assert!(more);
    let (second, more2, _) = names(listing_response(&request, entries.clone(), &next, SortMode::TypeAsc, 2));
    let (both, more_both, _) = names(listing_response(&request, entries, &None, SortMode::TypeAsc, 5));
    let walked: Vec<String> = first.into_iter().chain(second).collect();
    assert_eq!(walked, both);
    assert_eq!(both, ["p", "a", "q", "c", "b"]);
    assert_eq!(more2, more_both);
    assert!(more_both);
}
