//! Signing in through the system's PAM stack, as the decisions around the PAM
//! calls: which service to open, when to check the password, what the answer is.
use vstd::prelude::*;

verus! {

/// A PAM service a sign-in may go through.
#[derive(Debug, Clone, Copy, PartialEq, Eq, Structural)]
pub enum PamService {
    /// `system-auth`, tried first.
    SystemAuth,
    /// `login`, tried when `system-auth` cannot be opened.
    Login,
}

impl PamService {
    /// The service's name as PAM knows it.
    pub fn name(&self) -> (name: &'static str)
        ensures
            *self == PamService::SystemAuth ==> name@ == "system-auth"@,
            *self == PamService::Login ==> name@ == "login"@,
    {
        match self {
            PamService::SystemAuth => "system-auth",
            PamService::Login => "login",
        }
    }
}

/// What the last PAM call of a sign-in gave.
#[derive(Debug, Clone, Copy, PartialEq, Eq, Structural)]
pub enum PamEvent {
    /// Nothing was asked yet.
    Started,
    /// Opening a service: whether it worked.
    Opened { service: PamService, ok: bool },
    /// Whether PAM accepted the user's name and password.
    Authenticated(bool),
}

/// The next step of a sign-in through PAM.
#[derive(Debug, Clone, Copy, PartialEq, Eq, Structural)]
pub enum PamStep {
    /// Open this service for a password conversation.
    Open(PamService),
    /// Hand the user's name and password to the open service and let it decide.
    Authenticate,
    /// The sign-in is over: whether the password was accepted.
    Finish(bool),
}

/// Signing in with a Linux account's password through PAM.
pub struct PamAuth;

impl PamAuth {
    /// The step after `event`. `system-auth` is tried first and `login` when it
    /// cannot be opened; when neither opens, the password is refused.
    pub fn next_step(event: PamEvent) -> (step: PamStep)
        ensures
            event == PamEvent::Started ==> step == PamStep::Open(PamService::SystemAuth),
            event == (PamEvent::Opened { service: PamService::SystemAuth, ok: false })
                ==> step == PamStep::Open(PamService::Login),
            event == (PamEvent::Opened { service: PamService::Login, ok: false }) ==> step
                == PamStep::Finish(false),
            event matches PamEvent::Opened { ok: true, .. } ==> step == PamStep::Authenticate,
            event matches PamEvent::Authenticated(accepted) ==> step == PamStep::Finish(accepted),
    {
        match event {
            PamEvent::Started => PamStep::Open(PamService::SystemAuth),
            PamEvent::Opened { service, ok } => {
                if ok {
                    PamStep::Authenticate
                } else {
                    match service {
                        PamService::SystemAuth => PamStep::Open(PamService::Login),
                        PamService::Login => PamStep::Finish(false),
                    }
                }
            },
            PamEvent::Authenticated(accepted) => PamStep::Finish(accepted),
        }
    }
}

} // verus!
