use z2p::authentication::{AuthError, Unexpected, UserId};
use z2p::login::{landing_location, login, LoginError};
use z2p::session::{SessionHandle, SessionStore};

#[test]
fn failed_login_message_and_location() {
    let e = LoginError::from_auth_error(AuthError::InvalidCredentials);
    assert_eq!(e, LoginError::AuthError);
    assert_eq!(e.message(), "Authentication failed");
    assert_eq!(e.error_location(), Some("/login"));
    assert_eq!(e.status_code(), 303);
}

#[test]
fn unexpected_login_failure_message() {
    let e = LoginError::from_auth_error(AuthError::UnexpectedError(Unexpected::Storage));
    assert_eq!(e, LoginError::UnexpectedError(Unexpected::Storage));
    assert_eq!(e.message(), "Something went wrong");
    assert_eq!(e.status_code(), 500);
    assert_eq!(e.error_location(), None);
}

#[test]
fn successful_login_establishes_a_session() {
    let mut sessions = SessionStore::new();
    let presented = SessionHandle(77);
    let handle = login(Ok(UserId(4)), &mut sessions, Some(presented)).unwrap();
    assert_ne!(handle, presented);
    assert_eq!(sessions.current_identity(handle), Some(UserId(4)));
    assert_eq!(landing_location(), "/admin/dashboard");
}

#[test]
fn failed_login_leaves_sessions() {
    let mut sessions = SessionStore::new();
    sessions.establish_with(None, SessionHandle(1), UserId(1)).unwrap();
    let r = login(Err(AuthError::InvalidCredentials), &mut sessions, Some(SessionHandle(1)));
    assert_eq!(r, Err(LoginError::AuthError));
    assert_eq!(sessions.current_identity(SessionHandle(1)), Some(UserId(1)));
}

