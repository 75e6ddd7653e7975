use vstd::prelude::*;

use crate::limits::Limits;
use crate::policy::feature_gate::FeatureFlags;

verus! {

/// The identifier of a configured root.
#[derive(Debug, Clone, PartialEq, Eq, Hash)]
pub struct RootId(pub String);

impl RootId {
    pub fn new(value: &str) -> (id: Self)
        ensures
            id.0@ == value@,
    {
        RootId(value.to_owned())
    }
}

/// A path relative to a configured root, as the client sent it or as
/// validation normalised it.
#[derive(Debug, Clone, PartialEq, Eq, Hash)]
pub struct RelativePath(pub String);

impl RelativePath {
    pub fn new(value: &str) -> (path: Self)
        ensures
            path.0@ == value@,
    {
        RelativePath(value.to_owned())
    }
}

/// A copy of a root id.
pub fn clone_root_id(id: &RootId) -> (c: RootId)
    ensures
        c == *id,
{
    RootId(id.0.clone())
}

/// A copy of a relative path.
pub fn clone_relative_path(path: &RelativePath) -> (c: RelativePath)
    ensures
        c == *path,
{
    RelativePath(path.0.clone())
}

/// A copy of an optional relative path.
pub fn clone_opt_relative_path(path: &Option<RelativePath>) -> (c: Option<RelativePath>)
    ensures
        c == *path,
{
    match path {
        Some(p) => Some(clone_relative_path(p)),
        None => None,
    }
}

/// A copy of an optional string.
pub fn clone_opt_string(s: &Option<String>) -> (c: Option<String>)
    ensures
        c == *s,
{
    match s {
        Some(v) => Some(v.clone()),
        None => None,
    }
}

/// A copy of a root's configuration.
pub fn clone_allowed_root(root: &AllowedRoot) -> (c: AllowedRoot)
    ensures
        c == *root,
{
    AllowedRoot {
        root_id: clone_root_id(&root.root_id),
        base_path: root.base_path.clone(),
        read_only: root.read_only,
        uploads_allowed: root.uploads_allowed,
        hidden_files_allowed: root.hidden_files_allowed,
        is_web_root: root.is_web_root,
    }
}

/// The account a request acts for.
#[derive(Debug, Clone, PartialEq, Eq)]
pub struct UserContext {
    pub username: String,
    pub uid: u32,
    pub gid: u32,
}

#[derive(Debug, Clone, PartialEq, Eq)]
pub struct AppConfig {
    pub server: ServerConfig,
    pub session: SessionConfig,
    pub security: SecurityConfig,
    pub roots: Vec<AllowedRoot>,
    pub sensitive_policy: SensitivePolicyConfig,
    pub webroot_policy: WebRootPolicyConfig,
    pub account_policy: AccountPolicyConfig,
    pub features: FeatureFlags,
    pub limits: Limits,
}

impl AppConfig {
    /// The roots that requests may name.
    pub fn allowed_roots(&self) -> (roots: &[AllowedRoot])
        ensures
            roots@ == self.roots@,
    {
        self.roots.as_slice()
    }
}

impl Default for AppConfig {
    fn default() -> (c: Self)
        ensures
            c.server.bind_addr@ == "127.0.0.1:3000"@,
            c.server.behind_tls_proxy,
            c.session.cookie_name@ == "tealdrive_session"@,
            c.session.idle_timeout_seconds == 1800,
            c.session.absolute_timeout_seconds == 43200,
            c.session.secure_cookies,
            c.session.same_site == SameSitePolicy::Strict,
            c.security.production_wire_protocol == WireProtocol::Tdrv1Binary,
            c.security.allow_plain_ws_localhost_only,
            c.roots@.len() == 1,
            AllowedRoot::is_default(c.roots@[0]),
            SensitivePolicyConfig::is_default(c.sensitive_policy),
            WebRootPolicyConfig::is_default(c.webroot_policy),
            AccountPolicyConfig::is_default(c.account_policy),
            FeatureFlags::all_disabled(c.features),
            c.limits == Limits::spec_v1(),
    {
        AppConfig {
            server: ServerConfig::default(),
            session: SessionConfig::default(),
            security: SecurityConfig::default(),
            roots: vec![AllowedRoot::default()],
            sensitive_policy: SensitivePolicyConfig::default(),
            webroot_policy: WebRootPolicyConfig::default(),
            account_policy: AccountPolicyConfig::default(),
            features: FeatureFlags::default(),
            limits: Limits::default(),
        }
    }
}

#[derive(Debug, Clone, PartialEq, Eq)]
pub struct ServerConfig {
    pub bind_addr: String,
    pub behind_tls_proxy: bool,
}

impl Default for ServerConfig {
    fn default() -> (c: Self)
        ensures
            c.bind_addr@ == "127.0.0.1:3000"@,
            c.behind_tls_proxy,
    {
        ServerConfig { bind_addr: "127.0.0.1:3000".to_owned(), behind_tls_proxy: true }
    }
}

#[derive(Debug, Clone, PartialEq, Eq)]
pub struct SessionConfig {
    pub cookie_name: String,
    pub idle_timeout_seconds: u64,
    pub absolute_timeout_seconds: u64,
    pub secure_cookies: bool,
    pub same_site: SameSitePolicy,
}

impl Default for SessionConfig {
    fn default() -> (c: Self)
        ensures
            c.cookie_name@ == "tealdrive_session"@,
            c.idle_timeout_seconds == 1800,
            c.absolute_timeout_seconds == 43200,
            c.secure_cookies,
            c.same_site == SameSitePolicy::Strict,
    {
        SessionConfig {
            cookie_name: "tealdrive_session".to_owned(),
            idle_timeout_seconds: 30 * 60,
            absolute_timeout_seconds: 12 * 60 * 60,
            secure_cookies: true,
            same_site: SameSitePolicy::Strict,
        }
    }
}

#[derive(Debug, Clone, Copy, PartialEq, Eq, Structural)]
pub enum SameSitePolicy {
    Strict,
    Lax,
}

#[derive(Debug, Clone, PartialEq, Eq, Structural)]
pub struct SecurityConfig {
    pub production_wire_protocol: WireProtocol,
    pub allow_plain_ws_localhost_only: bool,
}

impl Default for SecurityConfig {
    fn default() -> (c: Self)
        ensures
            c.production_wire_protocol == WireProtocol::Tdrv1Binary,
            c.allow_plain_ws_localhost_only,
    {
        SecurityConfig {
            production_wire_protocol: WireProtocol::Tdrv1Binary,
            allow_plain_ws_localhost_only: true,
        }
    }
}

#[derive(Debug, Clone, Copy, PartialEq, Eq, Structural)]
pub enum WireProtocol {
    Tdrv1Binary,
}

/// A directory tree that requests may reach, with what it allows.
/// `base_path` is the tree's absolute path on this machine.
#[derive(Debug, Clone, PartialEq, Eq)]
pub struct AllowedRoot {
    pub root_id: RootId,
    pub base_path: String,
    pub read_only: bool,
    pub uploads_allowed: bool,
    pub hidden_files_allowed: bool,
    pub is_web_root: bool,
}

impl AllowedRoot {
    /// The default root: the writable `/home` tree named `home`.
    pub open spec fn is_default(r: AllowedRoot) -> bool {
        &&& r.root_id.0@ == "home"@
        &&& r.base_path@ == "/home"@
        &&& !r.read_only
        &&& r.uploads_allowed
        &&& !r.hidden_files_allowed
        &&& !r.is_web_root
    }
}

impl Default for AllowedRoot {
    fn default() -> (r: Self)
        ensures
            AllowedRoot::is_default(r),
    {
        AllowedRoot {
            root_id: RootId::new("home"),
            base_path: "/home".to_owned(),
            read_only: false,
            uploads_allowed: true,
            hidden_files_allowed: false,
            is_web_root: false,
        }
    }
}

/// The views of a list of strings.
pub open spec fn string_views(v: Seq<String>) -> Seq<Seq<char>> {
    v.map_values(|s: String| s@)
}

/// File name patterns that mark a file as sensitive: `*.ext` matches by
/// extension, any other pattern matches the whole name.
#[derive(Debug, Clone, PartialEq, Eq)]
pub struct SensitivePolicyConfig {
    pub deny_edit_patterns: Vec<String>,
    pub warn_read_patterns: Vec<String>,
}

impl SensitivePolicyConfig {
    pub open spec fn is_default(c: SensitivePolicyConfig) -> bool {
        &&& string_views(c.deny_edit_patterns@) == seq![
            ".env"@,
            "id_rsa"@,
            "id_ed25519"@,
            "*.pem"@,
            "*.key"@,
        ]
        &&& string_views(c.warn_read_patterns@) == seq![".env"@, "*.pem"@, "*.key"@]
    }
}

impl Default for SensitivePolicyConfig {
    fn default() -> (c: Self)
        ensures
            SensitivePolicyConfig::is_default(c),
    {
        let c = SensitivePolicyConfig {
            deny_edit_patterns: vec![
                ".env".to_owned(),
                "id_rsa".to_owned(),
                "id_ed25519".to_owned(),
                "*.pem".to_owned(),
                "*.key".to_owned(),
            ],
            warn_read_patterns: vec![".env".to_owned(), "*.pem".to_owned(), "*.key".to_owned()],
        };
        assert(string_views(c.deny_edit_patterns@) =~= seq![
            ".env"@,
            "id_rsa"@,
            "id_ed25519"@,
            "*.pem"@,
            "*.key"@,
        ]);
        assert(string_views(c.warn_read_patterns@) =~= seq![".env"@, "*.pem"@, "*.key"@]);
        c
    }
}

/// Which uploads a web root refuses: names whose extension is listed.
#[derive(Debug, Clone, PartialEq, Eq)]
pub struct WebRootPolicyConfig {
    pub block_executable_uploads: bool,
    pub blocked_extensions: Vec<String>,
}

impl WebRootPolicyConfig {
    pub open spec fn is_default(c: WebRootPolicyConfig) -> bool {
        &&& c.block_executable_uploads
        &&& string_views(c.blocked_extensions@) == seq!["php"@, "cgi"@, "pl"@, "py"@, "sh"@]
    }
}

impl Default for WebRootPolicyConfig {
    fn default() -> (c: Self)
        ensures
            WebRootPolicyConfig::is_default(c),
    {
        let c = WebRootPolicyConfig {
            block_executable_uploads: true,
            blocked_extensions: vec![
                "php".to_owned(),
                "cgi".to_owned(),
                "pl".to_owned(),
                "py".to_owned(),
                "sh".to_owned(),
            ],
        };
        assert(string_views(c.blocked_extensions@) =~= seq!["php"@, "cgi"@, "pl"@, "py"@, "sh"@]);
        c
    }
}

/// Which accounts may log in.
#[derive(Debug, Clone, Copy, PartialEq, Eq, Structural)]
pub struct AccountPolicyConfig {
    pub reject_root: bool,
    pub reject_system_accounts: bool,
    pub reject_disabled_shells: bool,
    pub minimum_regular_uid: u32,
}

impl AccountPolicyConfig {
    pub open spec fn is_default(c: AccountPolicyConfig) -> bool {
        &&& c.reject_root
        &&& c.reject_system_accounts
        &&& c.reject_disabled_shells
        &&& c.minimum_regular_uid == 1000
    }
}

impl Default for AccountPolicyConfig {
    fn default() -> (c: Self)
        ensures
            AccountPolicyConfig::is_default(c),
    {
        AccountPolicyConfig {
            reject_root: true,
            reject_system_accounts: true,
            reject_disabled_shells: true,
            minimum_regular_uid: 1000,
        }
    }
}

} // verus!
