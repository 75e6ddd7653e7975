use tealdrive::auth::pam_steps::{PamAuth, PamEvent, PamService, PamStep};

#[test]
fn sign_in_opens_system_auth_first() {
    assert_eq!(PamAuth::next_step(PamEvent::Started), PamStep::Open(PamService::SystemAuth));
    assert_eq!(PamService::SystemAuth.name(), "system-auth");
    assert_eq!(PamService::Login.name(), "login");
}

#[test]
fn login_service_is_the_fallback() {
    assert_eq!(
        PamAuth::next_step(PamEvent::Opened { service: PamService::SystemAuth, ok: false }),
        PamStep::Open(PamService::Login)
    );
    assert_eq!(
        PamAuth::next_step(PamEvent::Opened { service: PamService::Login, ok: false }),
        PamStep::Finish(false)
    );
}

#[test]
fn opened_service_decides_the_password() {
    assert_eq!(
        PamAuth::next_step(PamEvent::Opened { service: PamService::Login, ok: true }),
        PamStep::Authenticate
    );
    assert_eq!(PamAuth::next_step(PamEvent::Authenticated(true)), PamStep::Finish(true));
    assert_eq!(PamAuth::next_step(PamEvent::Authenticated(false)), PamStep::Finish(false));
}
