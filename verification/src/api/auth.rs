use vstd::prelude::*;

use crate::auth::session::{Session, SessionManager};

verus! {

/// A sign-in request: a Linux account name and its password.
pub struct LoginRequest {
    pub username: String,
    pub password: String,
}

/// How a sign-in ends.
#[derive(Debug)]
pub enum LoginAnswer {
    /// The password was accepted and a session was opened.
    SignedIn(Session),
    /// The password was accepted but the system has no such account.
    UserNotFound,
    /// The password was refused.
    InvalidCredentials,
}

impl LoginAnswer {
    /// The HTTP status of the answer.
    pub fn status(&self) -> (code: u16)
        ensures
            code == match self {
                LoginAnswer::SignedIn(_) => 200u16,
                LoginAnswer::UserNotFound => 500u16,
                LoginAnswer::InvalidCredentials => 401u16,
            },
    {
        match self {
            LoginAnswer::SignedIn(_) => 200,
            LoginAnswer::UserNotFound => 500,
            LoginAnswer::InvalidCredentials => 401,
        }
    }
}

/// Signs a user in: `authenticated` is whether the account's password was
/// accepted, `account` the user and group ids the system has for the name
/// (looked up only once the password was accepted). A session is opened only
/// for an accepted password and a known account.
pub fn login_answer(
    sessions: &mut SessionManager,
    username: String,
    authenticated: bool,
    account: Option<(u32, u32)>,
) -> (answer: LoginAnswer)
    ensures
        !authenticated ==> answer is InvalidCredentials && final(sessions)@ == old(sessions)@,
        authenticated && account is None ==> answer is UserNotFound && final(sessions)@ == old(
            sessions,
        )@,
        authenticated ==> match account {
            Some((uid, gid)) => answer matches LoginAnswer::SignedIn(s) && s.username@ == username@
                && s.uid == uid && s.gid == gid && final(sessions)@ == old(sessions)@.insert(s.id@, s@),
            None => true,
        },
{
    if !authenticated {
        return LoginAnswer::InvalidCredentials;
    }
    match account {
        None => LoginAnswer::UserNotFound,
        Some((uid, gid)) => LoginAnswer::SignedIn(sessions.create_session(username, uid, gid)),
    }
}

} // verus!
