use tealdrive::auth::account::{
    AccountStatus, AuthError, AuthRequest, Authenticator, MockAuthenticator, MockUser,
};
use tealdrive::config::AccountPolicyConfig;

fn auth_with(user: MockUser) -> MockAuthenticator {
    MockAuthenticator::new(AccountPolicyConfig::default()).with_user(user)
}

#[test]
fn mock_authenticator_successful_login() {
    let auth = auth_with(MockUser::regular("alice", "secret"));
    let success = auth
        .authenticate(&AuthRequest::new("alice", "secret"))
        .expect("login should pass");

    assert_eq!(success.username, "alice");
    assert_eq!(success.uid, 1000);
}

#[test]
fn mock_authenticator_invalid_password_failure() {
    let auth = auth_with(MockUser::regular("alice", "secret"));
    let err = auth
        .authenticate(&AuthRequest::new("alice", "wrong"))
        .expect_err("login should fail");

    assert_eq!(err, AuthError::InvalidCredentials);
}

#[test]
fn locked_account_failure() {
    let mut user = MockUser::regular("alice", "secret");
    user.status = AccountStatus::Locked;
    let auth = auth_with(user);

    assert_eq!(
        auth.authenticate(&AuthRequest::new("alice", "secret")),
        Err(AuthError::AccountLocked)
    );
}

#[test]
fn expired_account_failure() {
    let mut user = MockUser::regular("alice", "secret");
    user.status = AccountStatus::Expired;
    let auth = auth_with(user);

    assert_eq!(
        auth.authenticate(&AuthRequest::new("alice", "secret")),
        Err(AuthError::AccountExpired)
    );
}

#[test]
fn disabled_shell_failure() {
    let mut user = MockUser::regular("alice", "secret");
    user.shell = Some("/usr/sbin/nologin".to_owned());
    let auth = auth_with(user);

    assert_eq!(
        auth.authenticate(&AuthRequest::new("alice", "secret")),
        Err(AuthError::DisabledShell)
    );
}

#[test]
fn root_login_rejected_by_policy() {
    let mut user = MockUser::regular("root", "secret");
    user.uid = 0;
    user.primary_gid = 0;
    let auth = auth_with(user);

    assert_eq!(
        auth.authenticate(&AuthRequest::new("root", "secret")),
        Err(AuthError::RootLoginDisabled)
    );
}

#[test]
fn system_account_rejected_by_policy() {
    let mut user = MockUser::regular("daemon", "secret");
    user.uid = 999;
    let auth = auth_with(user);

    assert_eq!(
        auth.authenticate(&AuthRequest::new("daemon", "secret")),
        Err(AuthError::SystemAccountDisabled)
    );
}

#[test]
fn unknown_user_is_invalid_credentials() {
    let auth = auth_with(MockUser::regular("alice", "secret"));

    assert_eq!(
        auth.authenticate(&AuthRequest::new("bob", "secret")),
        Err(AuthError::InvalidCredentials)
    );
}
