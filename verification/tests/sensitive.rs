use tealdrive::config::{AllowedRoot, RelativePath, RootId, SensitivePolicyConfig};
use tealdrive::errors::{map_errno_name, ErrorKind, PolicyReason, TealDriveError};
use tealdrive::fs::components::{path_join, path_starts_with};
use tealdrive::policy::decision::PolicyDecision;
use tealdrive::policy::roots::{require_allowed_root, RootConfig, RootPolicy};
use tealdrive::policy::sensitive::{
    detect_sensitive, hidden_policy_decision, sensitive_edit_decision, sensitive_read_decision,
    SensitivePolicy, SensitivePolicyDecision,
};
use tealdrive::policy::webroot::{check_webroot_archive_extract, check_webroot_chmod_executable};

#[test]
fn sensitive_names_are_found_by_exact_name_or_suffix() {
    let config = SensitivePolicyConfig::default();
    let env = detect_sensitive(&RelativePath::new("app/.env"), &config);
    assert!(env.is_sensitive && env.deny_edit && env.warn_read);
    let key = detect_sensitive(&RelativePath::new("certs/server.key"), &config);
    assert!(key.is_sensitive && key.deny_edit && key.warn_read);
    let rsa = detect_sensitive(&RelativePath::new(".ssh/id_rsa"), &config);
    assert!(rsa.is_sensitive && rsa.deny_edit && !rsa.warn_read);
    let plain = detect_sensitive(&RelativePath::new("docs/.env.example"), &config);
    assert!(!plain.is_sensitive);
    let dir = detect_sensitive(&RelativePath::new(".env/notes.txt"), &config);
    assert!(!dir.is_sensitive);
}

#[test]
fn sensitive_reads_warn_and_edits_are_refused() {
    let config = SensitivePolicyConfig::default();
    let env = RelativePath::new(".env");
    let rsa = RelativePath::new("id_rsa");
    let notes = RelativePath::new("notes.txt");
    assert_eq!(sensitive_read_decision(&env, &config, false), SensitivePolicyDecision::Warn);
    assert_eq!(sensitive_read_decision(&rsa, &config, false), SensitivePolicyDecision::Deny);
    assert_eq!(sensitive_read_decision(&rsa, &config, true), SensitivePolicyDecision::Allow);
    assert_eq!(sensitive_read_decision(&notes, &config, false), SensitivePolicyDecision::Allow);
    assert_eq!(sensitive_edit_decision(&env, &config), SensitivePolicyDecision::Deny);
    assert_eq!(sensitive_edit_decision(&notes, &config), SensitivePolicyDecision::Allow);
}

#[test]
fn hidden_paths_need_to_be_asked_for() {
    let hidden = RelativePath::new(".cache/x");
    assert_eq!(hidden_policy_decision(false, &hidden), SensitivePolicyDecision::Deny);
    assert_eq!(hidden_policy_decision(true, &hidden), SensitivePolicyDecision::Allow);
    assert_eq!(hidden_policy_decision(false, &RelativePath::new("docs/x")), SensitivePolicyDecision::Allow);
    assert_eq!(hidden_policy_decision(false, &RelativePath::new("docs/.cache")), SensitivePolicyDecision::Allow);
}

#[test]
fn system_secrets_are_known_by_name() {
    assert!(SensitivePolicy::is_sensitive("/home/alice/.env.local"));
    assert!(SensitivePolicy::is_sensitive("/home/alice/.ssh"));
    assert!(SensitivePolicy::is_sensitive("/etc/shadow"));
    assert!(!SensitivePolicy::is_sensitive("/etc/hosts"));
    assert!(!SensitivePolicy::is_sensitive("/"));
}

#[test]
fn web_roots_refuse_executable_modes_and_archives() {
    assert_eq!(
        check_webroot_chmod_executable(true, 0o755),
        PolicyDecision::Deny(PolicyReason::WebRootExecutableUpload)
    );
    assert_eq!(check_webroot_chmod_executable(true, 0o644), PolicyDecision::Allow);
    assert_eq!(check_webroot_chmod_executable(false, 0o755), PolicyDecision::Allow);
    assert_eq!(
        check_webroot_archive_extract(true),
        PolicyDecision::Deny(PolicyReason::WebRootExecutableUpload)
    );
    assert_eq!(check_webroot_archive_extract(false), PolicyDecision::Allow);
}

#[test]
fn roots_are_found_by_id_and_by_path() {
    let roots = vec![AllowedRoot {
        root_id: RootId::new("home"),
        base_path: "/srv/home".to_owned(),
        read_only: false,
        uploads_allowed: true,
        hidden_files_allowed: false,
        is_web_root: false,
    }];
    assert_eq!(require_allowed_root(&roots, &RootId::new("home")).unwrap().base_path, "/srv/home");
    assert_eq!(require_allowed_root(&roots, &RootId::new("other")), Err(TealDriveError::InvalidRootId));

    let policy = RootPolicy {
        roots: vec![
            RootConfig { id: "www".to_owned(), path: "/var/www".to_owned(), name: "Web".to_owned(), readonly: true },
            RootConfig { id: "home".to_owned(), path: "/home/alice".to_owned(), name: "Home".to_owned(), readonly: false },
        ],
    };
    assert!(policy.is_allowed("/home/alice/docs"));
    assert!(!policy.is_allowed("/home/alicia"));
    assert_eq!(policy.get_root_for_path("/var/www/index.html").map(|r| r.id.as_str()), Some("www"));
    assert!(policy.get_root_for_path("/etc").is_none());
    let home = RootPolicy::new("bob");
    assert_eq!(home.roots[0].path, "/home/bob");
}

#[test]
fn paths_join_and_nest_by_component() {
    assert_eq!(path_join("/srv/home", "docs/a.txt"), "/srv/home/docs/a.txt");
    assert_eq!(path_join("/srv/home/", "a"), "/srv/home/a");
    assert_eq!(path_join("/srv/home", "/etc"), "/etc");
    assert!(path_starts_with("/srv/home/docs", "/srv/home"));
    assert!(path_starts_with("/srv/home", "/srv/home/"));
    assert!(!path_starts_with("/srv/homework", "/srv/home"));
}

#[test]
fn errno_names_map_to_error_kinds() {
    assert_eq!(map_errno_name("EACCES"), ErrorKind::PermissionDenied);
    assert_eq!(map_errno_name("EPERM"), ErrorKind::PermissionDenied);
    assert_eq!(map_errno_name("ENOENT"), ErrorKind::NotFound);
    assert_eq!(map_errno_name("ENOTDIR"), ErrorKind::InvalidPath);
    assert_eq!(map_errno_name("EIO"), ErrorKind::InternalError);
}
