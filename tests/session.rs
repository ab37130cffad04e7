use z2p::authentication::UserId;
use z2p::session::{HandleInUse, Rejected, SessionHandle, SessionStore};

#[test]
fn session_lifecycle_from_anonymous_to_logout() {
    let mut sessions = SessionStore::new();
    let anonymous = SessionHandle(42);
    assert_eq!(sessions.require_identity(anonymous), Err(Rejected));
    assert_eq!(sessions.current_identity(anonymous), None);

    let handle = sessions.establish(Some(anonymous), UserId(5)).unwrap();
    assert_ne!(handle, anonymous);
    assert_eq!(sessions.require_identity(handle), Ok(UserId(5)));
    assert_eq!(sessions.require_identity(anonymous), Err(Rejected));

    sessions.terminate(handle);
    assert_eq!(sessions.require_identity(handle), Err(Rejected));
    assert_eq!(sessions.current_identity(handle), None);
}

#[test]
fn login_rotates_the_presented_handle() {
    let mut sessions = SessionStore::new();
    assert_eq!(sessions.establish_with(None, SessionHandle(1), UserId(10)), Ok(()));
    assert_eq!(sessions.establish_with(Some(SessionHandle(1)), SessionHandle(2), UserId(11)), Ok(()));
    assert_eq!(sessions.current_identity(SessionHandle(1)), None);
    assert_eq!(sessions.current_identity(SessionHandle(2)), Some(UserId(11)));
}

#[test]
fn rotation_onto_a_live_or_the_same_handle_is_refused() {
    let mut sessions = SessionStore::new();
    sessions.establish_with(None, SessionHandle(1), UserId(10)).unwrap();
    sessions.establish_with(None, SessionHandle(2), UserId(20)).unwrap();
    assert_eq!(sessions.establish_with(Some(SessionHandle(3)), SessionHandle(2), UserId(30)), Err(HandleInUse));
    assert_eq!(sessions.establish_with(Some(SessionHandle(1)), SessionHandle(1), UserId(30)), Err(HandleInUse));
    assert_eq!(sessions.current_identity(SessionHandle(1)), Some(UserId(10)));
    assert_eq!(sessions.current_identity(SessionHandle(2)), Some(UserId(20)));
}

#[test]
fn drawn_handles_differ() {
    let mut sessions = SessionStore::new();
    let a = sessions.establish(None, UserId(1)).unwrap();
    let b = sessions.establish(None, UserId(1)).unwrap();
    assert_ne!(a, b);
    assert_eq!(sessions.current_identity(a), Some(UserId(1)));
    assert_eq!(sessions.current_identity(b), Some(UserId(1)));
}
