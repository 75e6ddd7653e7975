use vstd::prelude::*;

use crate::config::AccountPolicyConfig;
use crate::strings::{concat, str_eq};
use vstd::hash_map::StringHashMap;

verus! {

/// Checks a login request against an account store.
pub trait Authenticator {
    fn authenticate(&self, request: &AuthRequest) -> Result<AuthSuccess, AuthError>;
}

/// A login attempt. It has no `Debug`, so the password cannot be printed.
#[derive(Clone, PartialEq, Eq)]
pub struct AuthRequest {
    pub username: String,
    pub password: String,
    pub ip: Option<String>,
}

impl AuthRequest {
    pub fn new(username: &str, password: &str) -> (r: Self)
        ensures
            r.username@ == username@,
            r.password@ == password@,
            r.ip is None,
    {
        AuthRequest { username: username.to_owned(), password: password.to_owned(), ip: None }
    }
}

/// The account a successful login acts for.
#[derive(Debug, Clone, PartialEq, Eq)]
pub struct AuthSuccess {
    pub username: String,
    pub uid: u32,
    pub primary_gid: u32,
    pub home_dir: Option<String>,
    pub shell: Option<String>,
    pub groups: Vec<String>,
}

#[derive(Debug, Clone, Copy, PartialEq, Eq, Structural)]
pub enum AuthFailure {
    InvalidCredentials,
    AccountLocked,
    AccountExpired,
    DisabledShell,
    RootLoginDisabled,
    SystemAccountDisabled,
    AuthBackendUnavailable,
}

#[derive(Debug, Clone, Copy, PartialEq, Eq, Structural)]
pub enum AuthError {
    InvalidCredentials,
    AccountLocked,
    AccountExpired,
    DisabledShell,
    RootLoginDisabled,
    SystemAccountDisabled,
    AuthBackendUnavailable,
}

pub open spec fn spec_failure_kind(e: AuthError) -> AuthFailure {
    match e {
        AuthError::InvalidCredentials => AuthFailure::InvalidCredentials,
        AuthError::AccountLocked => AuthFailure::AccountLocked,
        AuthError::AccountExpired => AuthFailure::AccountExpired,
        AuthError::DisabledShell => AuthFailure::DisabledShell,
        AuthError::RootLoginDisabled => AuthFailure::RootLoginDisabled,
        AuthError::SystemAccountDisabled => AuthFailure::SystemAccountDisabled,
        AuthError::AuthBackendUnavailable => AuthFailure::AuthBackendUnavailable,
    }
}

pub open spec fn spec_failure_to_error(f: AuthFailure) -> AuthError {
    match f {
        AuthFailure::InvalidCredentials => AuthError::InvalidCredentials,
        AuthFailure::AccountLocked => AuthError::AccountLocked,
        AuthFailure::AccountExpired => AuthError::AccountExpired,
        AuthFailure::DisabledShell => AuthError::DisabledShell,
        AuthFailure::RootLoginDisabled => AuthError::RootLoginDisabled,
        AuthFailure::SystemAccountDisabled => AuthError::SystemAccountDisabled,
        AuthFailure::AuthBackendUnavailable => AuthError::AuthBackendUnavailable,
    }
}

impl AuthError {
    pub fn failure_kind(&self) -> (f: AuthFailure)
        ensures
            f == spec_failure_kind(*self),
    {
        match self {
            AuthError::InvalidCredentials => AuthFailure::InvalidCredentials,
            AuthError::AccountLocked => AuthFailure::AccountLocked,
            AuthError::AccountExpired => AuthFailure::AccountExpired,
            AuthError::DisabledShell => AuthFailure::DisabledShell,
            AuthError::RootLoginDisabled => AuthFailure::RootLoginDisabled,
            AuthError::SystemAccountDisabled => AuthFailure::SystemAccountDisabled,
            AuthError::AuthBackendUnavailable => AuthFailure::AuthBackendUnavailable,
        }
    }
}

fn auth_failure_to_error(failure: AuthFailure) -> (e: AuthError)
    ensures
        e == spec_failure_to_error(failure),
{
    match failure {
        AuthFailure::InvalidCredentials => AuthError::InvalidCredentials,
        AuthFailure::AccountLocked => AuthError::AccountLocked,
        AuthFailure::AccountExpired => AuthError::AccountExpired,
        AuthFailure::DisabledShell => AuthError::DisabledShell,
        AuthFailure::RootLoginDisabled => AuthError::RootLoginDisabled,
        AuthFailure::SystemAccountDisabled => AuthError::SystemAccountDisabled,
        AuthFailure::AuthBackendUnavailable => AuthError::AuthBackendUnavailable,
    }
}

/// Failures and errors name the same refusals, one for one.
pub proof fn lemma_failure_error_inverse(f: AuthFailure, e: AuthError)
    ensures
        spec_failure_kind(spec_failure_to_error(f)) == f,
        spec_failure_to_error(spec_failure_kind(e)) == e,
{
}

#[derive(Debug, Clone, Copy, PartialEq, Eq, Structural)]
pub enum AccountStatus {
    Active,
    Locked,
    Expired,
}

#[derive(Debug, Clone, Copy, PartialEq, Eq, Structural)]
pub enum AccountPolicyResult {
    Allowed,
    Rejected(AuthFailure),
}

/// An account of the in-memory store used in development and tests.
#[derive(Debug, Clone, PartialEq, Eq)]
pub struct MockUser {
    pub username: String,
    pub password: String,
    pub uid: u32,
    pub primary_gid: u32,
    pub home_dir: Option<String>,
    pub shell: Option<String>,
    pub groups: Vec<String>,
    pub status: AccountStatus,
}

impl MockUser {
    /// An active regular account: uid and gid 1000, home `/home/<name>`,
    /// shell `/bin/bash`, in a group of its own name.
    pub fn regular(username: &str, password: &str) -> (u: Self)
        ensures
            u.username@ == username@,
            u.password@ == password@,
            u.uid == 1000,
            u.primary_gid == 1000,
            u.home_dir matches Some(h) && h@ == "/home/"@ + username@,
            u.shell matches Some(s) && s@ == "/bin/bash"@,
            u.groups@.len() == 1 && u.groups@[0]@ == username@,
            u.status == AccountStatus::Active,
    {
        let mut groups: Vec<String> = Vec::new();
        groups.push(username.to_owned());
        MockUser {
            username: username.to_owned(),
            password: password.to_owned(),
            uid: 1000,
            primary_gid: 1000,
            home_dir: Some(concat("/home/", username)),
            shell: Some("/bin/bash".to_owned()),
            groups,
            status: AccountStatus::Active,
        }
    }
}

/// The shells that mean an account may not log in.
pub open spec fn spec_is_disabled_shell(shell: Option<Seq<char>>) -> bool {
    match shell {
        Some(s) => s == "/usr/sbin/nologin"@ || s == "/sbin/nologin"@ || s == "/bin/false"@ || s
            == "false"@,
        None => false,
    }
}

pub fn is_disabled_shell(shell: Option<&str>) -> (disabled: bool)
    ensures
        disabled == spec_is_disabled_shell(
            match shell {
                Some(s) => Some(s@),
                None => None,
            },
        ),
{
    match shell {
        Some(value) => str_eq(value, "/usr/sbin/nologin") || str_eq(value, "/sbin/nologin")
            || str_eq(value, "/bin/false") || str_eq(value, "false"),
        None => false,
    }
}

/// Locked and expired accounts first, then root, system accounts and
/// disabled shells, each as the policy asks.
pub open spec fn spec_account_policy(user: MockUser, policy: AccountPolicyConfig) -> AccountPolicyResult {
    if user.status == AccountStatus::Locked {
        AccountPolicyResult::Rejected(AuthFailure::AccountLocked)
    } else if user.status == AccountStatus::Expired {
        AccountPolicyResult::Rejected(AuthFailure::AccountExpired)
    } else if policy.reject_root && user.uid == 0 {
        AccountPolicyResult::Rejected(AuthFailure::RootLoginDisabled)
    } else if policy.reject_system_accounts && user.uid < policy.minimum_regular_uid {
        AccountPolicyResult::Rejected(AuthFailure::SystemAccountDisabled)
    } else if policy.reject_disabled_shells && spec_is_disabled_shell(
        match user.shell {
            Some(s) => Some(s@),
            None => None,
        },
    ) {
        AccountPolicyResult::Rejected(AuthFailure::DisabledShell)
    } else {
        AccountPolicyResult::Allowed
    }
}

pub fn evaluate_account_policy(user: &MockUser, policy: &AccountPolicyConfig) -> (r: AccountPolicyResult)
    ensures
        r == spec_account_policy(*user, *policy),
{
    if user.status == AccountStatus::Locked {
        return AccountPolicyResult::Rejected(AuthFailure::AccountLocked);
    }
    if user.status == AccountStatus::Expired {
        return AccountPolicyResult::Rejected(AuthFailure::AccountExpired);
    }
    if policy.reject_root && user.uid == 0 {
        return AccountPolicyResult::Rejected(AuthFailure::RootLoginDisabled);
    }
    if policy.reject_system_accounts && user.uid < policy.minimum_regular_uid {
        return AccountPolicyResult::Rejected(AuthFailure::SystemAccountDisabled);
    }
    let shell = match &user.shell {
        Some(s) => Some(s.as_str()),
        None => None,
    };
    if policy.reject_disabled_shells && is_disabled_shell(shell) {
        return AccountPolicyResult::Rejected(AuthFailure::DisabledShell);
    }
    AccountPolicyResult::Allowed
}

/// Copies a list of strings.
pub fn clone_strings(v: &Vec<String>) -> (c: Vec<String>)
    ensures
        c@ == v@,
{
    let mut out: Vec<String> = Vec::new();
    let mut i: usize = 0;
    while i < v.len()
        invariant
            i <= v@.len(),
            out@ == v@.subrange(0, i as int),
        decreases v@.len() - i,
    {
        out.push(v[i].clone());
        i = i + 1;
        assert(out@ =~= v@.subrange(0, i as int));
    }
    assert(out@ =~= v@);
    out
}

/// An account store held in memory, at most one account per user name.
pub struct MockAuthenticator {
    users: StringHashMap<MockUser>,
    policy: AccountPolicyConfig,
}

impl MockAuthenticator {
    /// The accounts, by user name.
    pub closed spec fn accounts(self) -> Map<Seq<char>, MockUser> {
        self.users@
    }

    pub closed spec fn account_policy(self) -> AccountPolicyConfig {
        self.policy
    }

    pub fn new(policy: AccountPolicyConfig) -> (a: Self)
        ensures
            a.accounts() == Map::<Seq<char>, MockUser>::empty(),
            a.account_policy() == policy,
    {
        MockAuthenticator { users: StringHashMap::new(), policy }
    }

    /// The store with `user` added, replacing any account of the same name.
    pub fn with_user(self, user: MockUser) -> (a: Self)
        ensures
            a.accounts() == self.accounts().insert(user.username@, user),
            a.account_policy() == self.account_policy(),
    {
        let MockAuthenticator { users, policy } = self;
        let mut users = users;
        users.insert(user.username.clone(), user);
        MockAuthenticator { users, policy }
    }
}

/// What a login gives: unknown users and wrong passwords are invalid
/// credentials; otherwise the account policy decides, and an allowed login
/// yields the account's identity.
pub open spec fn spec_authenticate(
    accounts: Map<Seq<char>, MockUser>,
    policy: AccountPolicyConfig,
    username: Seq<char>,
    password: Seq<char>,
) -> Result<MockUser, AuthError> {
    if !accounts.dom().contains(username) {
        Err(AuthError::InvalidCredentials)
    } else {
        let user = accounts[username];
        if user.password@ != password {
            Err(AuthError::InvalidCredentials)
        } else {
            match spec_account_policy(user, policy) {
                AccountPolicyResult::Allowed => Ok(user),
                AccountPolicyResult::Rejected(f) => Err(spec_failure_to_error(f)),
            }
        }
    }
}

/// The identity of an account, as a successful login reports it.
pub open spec fn success_of(user: MockUser) -> AuthSuccess {
    AuthSuccess {
        username: user.username,
        uid: user.uid,
        primary_gid: user.primary_gid,
        home_dir: user.home_dir,
        shell: user.shell,
        groups: user.groups,
    }
}

impl Authenticator for MockAuthenticator {
    /// Checks a login against the store and the account policy.
    fn authenticate(&self, request: &AuthRequest) -> (res: Result<AuthSuccess, AuthError>)
        ensures
            match (res, spec_authenticate(self.accounts(), self.account_policy(), request.username@, request.password@)) {
                (Ok(s), Ok(u)) => s.username@ == u.username@ && s.uid == u.uid && s.primary_gid
                    == u.primary_gid && s.home_dir == u.home_dir && s.shell == u.shell && s.groups@
                    == u.groups@,
                (Err(e), Err(f)) => e == f,
                _ => false,
            },
    {
        let user = match self.users.get(request.username.as_str()) {
            Some(user) => user,
            None => {
                return Err(AuthError::InvalidCredentials);
            },
        };
        if !str_eq(user.password.as_str(), request.password.as_str()) {
            return Err(AuthError::InvalidCredentials);
        }
        match evaluate_account_policy(user, &self.policy) {
            AccountPolicyResult::Allowed => Ok(
                AuthSuccess {
                    username: user.username.clone(),
                    uid: user.uid,
                    primary_gid: user.primary_gid,
                    home_dir: user.home_dir.clone(),
                    shell: user.shell.clone(),
                    groups: clone_strings(&user.groups),
                },
            ),
            AccountPolicyResult::Rejected(failure) => Err(auth_failure_to_error(failure)),
        }
    }
}

} // verus!
