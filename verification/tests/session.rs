use tealdrive::api::auth::{login_answer, LoginAnswer};
use tealdrive::auth::{Session, SessionManager};

fn has_v4_marks(id: &[u8; 16]) -> bool {
    id[6] & 0xf0 == 0x40 && id[8] & 0xc0 == 0x80
}

#[test]
fn created_session_is_found_with_its_fields() {
    let mut sessions = SessionManager::new();
    let session = sessions.create_session("alice".to_owned(), 1000, 100);
    assert_eq!(session.username, "alice");
    assert_eq!(session.uid, 1000);
    assert_eq!(session.gid, 100);
    assert!(has_v4_marks(&session.id));

    let found: Session = sessions.get_session(&session.id).expect("session is filed");
    assert_eq!(found.id, session.id);
    assert_eq!(found.username, "alice");
    assert_eq!(found.uid, 1000);
    assert_eq!(found.gid, 100);
    assert_eq!(found.created_at, session.created_at);
}

#[test]
fn unknown_session_is_not_found() {
    let sessions = SessionManager::default();
    assert!(sessions.get_session(&[7u8; 16]).is_none());
}

#[test]
fn removed_session_is_gone_and_others_stay() {
    let mut sessions = SessionManager::new();
    let first = sessions.create_session("alice".to_owned(), 1000, 100);
    let second = sessions.create_session("bob".to_owned(), 1001, 100);
    assert_ne!(first.id, second.id);

    sessions.remove_session(&first.id);
    assert!(sessions.get_session(&first.id).is_none());
    let kept = sessions.get_session(&second.id).expect("other session stays");
    assert_eq!(kept.username, "bob");

    sessions.remove_session(&first.id);
    assert!(sessions.get_session(&second.id).is_some());
}

#[test]
fn session_creation_time_is_after_the_epoch() {
    let mut sessions = SessionManager::new();
    let session = sessions.create_session("carol".to_owned(), 1002, 100);
    assert!(session.created_at > 1_600_000_000);
}

#[test]
fn refused_password_opens_no_session() {
    let mut sessions = SessionManager::new();
    let answer = login_answer(&mut sessions, "alice".to_owned(), false, Some((1000, 100)));
    assert!(matches!(answer, LoginAnswer::InvalidCredentials));
    assert_eq!(answer.status(), 401);
}

#[test]
fn unknown_account_opens_no_session() {
    let mut sessions = SessionManager::new();
    let answer = login_answer(&mut sessions, "ghost".to_owned(), true, None);
    assert!(matches!(answer, LoginAnswer::UserNotFound));
    assert_eq!(answer.status(), 500);
}

#[test]
fn accepted_login_opens_a_findable_session() {
    let mut sessions = SessionManager::new();
    let answer = login_answer(&mut sessions, "alice".to_owned(), true, Some((1000, 100)));
    assert_eq!(answer.status(), 200);
    let LoginAnswer::SignedIn(session) = answer else {
        panic!("expected a session");
    };
    assert_eq!(session.username, "alice");
    assert_eq!((session.uid, session.gid), (1000, 100));
    let found = sessions.get_session(&session.id).expect("session is filed");
    assert_eq!(found.username, "alice");
}
