use tealdrive::config::RelativePath;
use tealdrive::errors::TealDriveError;
use tealdrive::fs::filename::SafeFileName;
use tealdrive::fs::path::{is_hidden_relative, join_relative_name, parent_relative_path, validate_relative_path};

#[test]
fn filename_with_slash_rejected() {
    assert_eq!(
        SafeFileName::parse("bad/name"),
        Err(TealDriveError::InvalidFilename)
    );
}

#[test]
fn filename_with_nul_rejected() {
    assert_eq!(
        SafeFileName::parse("bad\0name"),
        Err(TealDriveError::NullByteRejected)
    );
}

#[test]
fn filename_parent_component_rejected() {
    assert_eq!(
        SafeFileName::parse(".."),
        Err(TealDriveError::ReservedNameRejected)
    );
}

#[test]
fn valid_filename_accepted() {
    assert_eq!(
        SafeFileName::parse("notes.txt"),
        Ok(SafeFileName("notes.txt".to_owned()))
    );
}

#[test]
fn empty_filename_rejected() {
    assert_eq!(SafeFileName::parse(""), Err(TealDriveError::InvalidFilename));
}

#[test]
fn absolute_path_rejected() {
    assert_eq!(
        validate_relative_path(&RelativePath::new("/etc/passwd")),
        Err(TealDriveError::AbsolutePathRejected)
    );
}

#[test]
fn path_traversal_rejected() {
    assert_eq!(
        validate_relative_path(&RelativePath::new("../etc")),
        Err(TealDriveError::TraversalRejected)
    );
}

#[test]
fn nul_byte_rejected() {
    assert_eq!(
        validate_relative_path(&RelativePath::new("bad\0path")),
        Err(TealDriveError::NullByteRejected)
    );
}

#[test]
fn empty_relative_path_allowed_as_root() {
    assert_eq!(
        validate_relative_path(&RelativePath::new("")),
        Ok(RelativePath::new(""))
    );
}

#[test]
fn normal_relative_path_accepted() {
    assert_eq!(
        validate_relative_path(&RelativePath::new("docs/file.txt")),
        Ok(RelativePath::new("docs/file.txt"))
    );
}

#[test]
fn repeated_separators_are_normalized() {
    assert_eq!(
        validate_relative_path(&RelativePath::new("docs//file.txt")),
        Ok(RelativePath::new("docs/file.txt"))
    );
}

#[test]
fn validation_is_idempotent_on_a_sample() {
    let once = validate_relative_path(&RelativePath::new("./a//b/./c/")).unwrap();
    assert_eq!(once, RelativePath::new("a/b/c"));
    assert_eq!(validate_relative_path(&once), Ok(once.clone()));
}

#[test]
fn inner_parent_reference_rejected() {
    assert_eq!(
        validate_relative_path(&RelativePath::new("docs/../etc")),
        Err(TealDriveError::TraversalRejected)
    );
}

#[test]
fn join_then_parent_gives_parent_back() {
    let parent = RelativePath::new("docs/sub");
    let joined = join_relative_name(&parent, &SafeFileName("a.txt".to_owned()));
    assert_eq!(joined, RelativePath::new("docs/sub/a.txt"));
    assert_eq!(parent_relative_path(&joined), parent);
    let top = join_relative_name(&RelativePath::new(""), &SafeFileName("a.txt".to_owned()));
    assert_eq!(top, RelativePath::new("a.txt"));
    assert_eq!(parent_relative_path(&top), RelativePath::new(""));
}

#[test]
fn hidden_relative_paths_detected() {
    assert!(is_hidden_relative(&RelativePath::new(".ssh/id_rsa")));
    assert!(is_hidden_relative(&RelativePath::new("./.config")));
    assert!(!is_hidden_relative(&RelativePath::new("//.config")));
    assert!(!is_hidden_relative(&RelativePath::new("docs/.env")));
    assert!(!is_hidden_relative(&RelativePath::new("../.env")));
}

#[test]
fn backslash_in_file_name_rejected() {
    assert_eq!(SafeFileName::parse("bad\\name"), Err(TealDriveError::InvalidFilename));
    assert_eq!(SafeFileName::parse("."), Err(TealDriveError::ReservedNameRejected));
}
