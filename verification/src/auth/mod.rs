pub mod account;
pub mod pam_steps;
pub mod session;

pub use account::{
    AccountPolicyResult, AccountStatus, AuthError, AuthFailure, AuthRequest, AuthSuccess,
    Authenticator, MockAuthenticator, MockUser,
};
pub use self::pam_steps::PamAuth;
pub use session::{Session, SessionManager};
