use z2p::authentication::{AuthError, Credentials, DefaultHash, StorageError, Unexpected, UserId};
use z2p::credential_store::{CredentialStore, DuplicateUser, UnknownUser};
use z2p::hasher::{hash, verify, HashWork};
use z2p::password_change::{
    change_password, check_new_password, commit_change, current_password_outcome,
    password_changed_message, prepare_change, resolve_username, ChangeError, FormData,
    ValidationError, MAX_PASSWORD_LENGTH, MIN_PASSWORD_LENGTH,
};

const ALICE: UserId = UserId(0xa11ce);

fn store_with_alice() -> CredentialStore {
    let mut store = CredentialStore::new();
    store.add_user(ALICE, "alice".to_string(), hash("correct-horse").unwrap()).unwrap();
    store
}

fn creds(username: &str, password: &str) -> Credentials {
    Credentials { username: username.to_string(), password: password.to_string() }
}

fn form(current: &str, new: &str, confirmation: &str) -> FormData {
    FormData {
        current_password: current.to_string(),
        new_password: new.to_string(),
        new_password_validate: confirmation.to_string(),
    }
}

fn stored_hash(store: &CredentialStore) -> String {
    store.lookup("alice").unwrap().password_hash
}

#[test]
fn end_to_end_alice_changes_her_password() {
    let default_hash = DefaultHash::new();
    let mut store = store_with_alice();
    assert_eq!(store.validate(creds("alice", "correct-horse"), &default_hash, &mut HashWork::new()), Ok(ALICE));
    assert_eq!(store.validate(creds("alice", "wrong"), &default_hash, &mut HashWork::new()), Err(AuthError::InvalidCredentials));
    assert_eq!(store.validate(creds("bob", "anything"), &default_hash, &mut HashWork::new()), Err(AuthError::InvalidCredentials));

    let r = change_password(&mut store, Some(ALICE), form("correct-horse", "newpassword1", "newpassword1"), &default_hash);
    assert_eq!(r, Ok(()));
    assert_eq!(store.validate(creds("alice", "newpassword1"), &default_hash, &mut HashWork::new()), Ok(ALICE));
    assert_eq!(store.validate(creds("alice", "correct-horse"), &default_hash, &mut HashWork::new()), Err(AuthError::InvalidCredentials));
}

#[test]
fn anonymous_change_is_unauthorized() {
    let mut store = store_with_alice();
    let before = stored_hash(&store);
    let r = change_password(&mut store, None, form("correct-horse", "newpassword1", "newpassword1"), &DefaultHash::new());
    assert_eq!(r, Err(ChangeError::Unauthorized));
    assert_eq!(stored_hash(&store), before);
    assert_eq!(ChangeError::Unauthorized.redirect_location(), Some("/login"));
}

#[test]
fn mismatched_fields_are_refused() {
    let mut store = store_with_alice();
    let before = stored_hash(&store);
    let r = change_password(&mut store, Some(ALICE), form("correct-horse", "newpassword1", "newpassword2"), &DefaultHash::new());
    assert_eq!(r, Err(ChangeError::ValidationError(ValidationError::FieldsMustMatch)));
    assert_eq!(stored_hash(&store), before);
}

#[test]
fn too_short_new_password_is_refused() {
    let mut store = store_with_alice();
    let before = stored_hash(&store);
    let r = change_password(&mut store, Some(ALICE), form("correct-horse", "aaa", "aaa"), &DefaultHash::new());
    assert_eq!(r, Err(ChangeError::ValidationError(ValidationError::LengthOutOfRange)));
    assert_eq!(stored_hash(&store), before);
}

#[test]
fn too_long_new_password_is_refused() {
    let mut store = store_with_alice();
    let before = stored_hash(&store);
    let long = "a".repeat(129);
    let r = change_password(&mut store, Some(ALICE), form("correct-horse", &long, &long), &DefaultHash::new());
    assert_eq!(r, Err(ChangeError::ValidationError(ValidationError::LengthOutOfRange)));
    assert_eq!(stored_hash(&store), before);
}

#[test]
fn wrong_current_password_is_refused() {
    let mut store = store_with_alice();
    let before = stored_hash(&store);
    let r = change_password(&mut store, Some(ALICE), form("wrong", "newpassword1", "newpassword1"), &DefaultHash::new());
    assert_eq!(r, Err(ChangeError::ValidationError(ValidationError::CurrentPasswordIncorrect)));
    assert_eq!(stored_hash(&store), before);
}

#[test]
fn session_of_a_vanished_user_is_unexpected() {
    let mut store = store_with_alice();
    let r = change_password(&mut store, Some(UserId(1)), form("correct-horse", "newpassword1", "newpassword1"), &DefaultHash::new());
    assert_eq!(r, Err(ChangeError::UnexpectedError(Unexpected::UnknownUser)));
}

#[test]
fn length_bounds_are_inclusive_and_count_characters() {
    assert_eq!(MIN_PASSWORD_LENGTH, 12);
    assert_eq!(MAX_PASSWORD_LENGTH, 128);
    let twelve = "a".repeat(12);
    let eleven = "a".repeat(11);
    let max = "a".repeat(128);
    assert_eq!(check_new_password(&twelve, &twelve), Ok(()));
    assert_eq!(check_new_password(&max, &max), Ok(()));
    assert_eq!(
        check_new_password(&eleven, &eleven),
        Err(ChangeError::ValidationError(ValidationError::LengthOutOfRange))
    );
    // twelve characters, twenty-four bytes
    let accented = "é".repeat(12);
    assert_eq!(check_new_password(&accented, &accented), Ok(()));
    // mismatch is reported before length
    assert_eq!(
        check_new_password(&"a".to_string(), &"b".to_string()),
        Err(ChangeError::ValidationError(ValidationError::FieldsMustMatch))
    );
}

#[test]
fn current_password_outcome_maps_each_failure() {
    assert_eq!(current_password_outcome(Ok(ALICE)), Ok(()));
    assert_eq!(
        current_password_outcome(Err(AuthError::InvalidCredentials)),
        Err(ChangeError::ValidationError(ValidationError::CurrentPasswordIncorrect))
    );
    assert_eq!(
        current_password_outcome(Err(AuthError::UnexpectedError(Unexpected::Storage))),
        Err(ChangeError::UnexpectedError(Unexpected::Storage))
    );
}

#[test]
fn change_messages_and_redirects() {
    let v = |e| ChangeError::ValidationError(e);
    assert_eq!(v(ValidationError::FieldsMustMatch).flash_message(), Some("Password fields must match."));
    assert_eq!(
        v(ValidationError::LengthOutOfRange).flash_message(),
        Some(format!("New password must be between {} and {} characters.", MIN_PASSWORD_LENGTH, MAX_PASSWORD_LENGTH).as_str())
    );
    assert_eq!(v(ValidationError::CurrentPasswordIncorrect).flash_message(), Some("Current password is incorrect."));
    assert_eq!(v(ValidationError::CurrentPasswordIncorrect).redirect_location(), Some("/admin/password"));
    assert_eq!(ChangeError::UnexpectedError(Unexpected::Hashing).redirect_location(), None);
    assert_eq!(ChangeError::Unauthorized.flash_message(), None);
    assert_eq!(password_changed_message(), "Your password has been changed.");
}

#[test]
fn store_refuses_duplicates_and_unknown_users() {
    let mut store = store_with_alice();
    assert_eq!(store.add_user(ALICE, "alice2".to_string(), "h".to_string()), Err(DuplicateUser));
    assert_eq!(store.add_user(UserId(2), "alice".to_string(), "h".to_string()), Err(DuplicateUser));
    assert_eq!(store.add_user(UserId(2), "bob".to_string(), "h".to_string()), Ok(()));
    assert_eq!(store.username_of(UserId(2)), Some("bob".to_string()));
    assert_eq!(store.username_of(UserId(3)), None);
    assert_eq!(store.update_hash(UserId(3), "x".to_string()), Err(UnknownUser));
    assert_eq!(store.update_hash(UserId(2), "x".to_string()), Ok(()));
    assert_eq!(store.lookup("bob").unwrap().password_hash, "x");
    assert_eq!(store.lookup("alice").unwrap().user_id, ALICE);
    assert!(store.lookup("carol").is_none());
}

#[test]
fn prepare_change_checks_identity_then_shape() {
    let good = form("x", "newpassword1", "newpassword1");
    assert_eq!(prepare_change(None, &good), Err(ChangeError::Unauthorized));
    assert_eq!(prepare_change(Some(ALICE), &good), Ok(ALICE));
    assert_eq!(
        prepare_change(Some(ALICE), &form("x", "newpassword1", "newpassword2")),
        Err(ChangeError::ValidationError(ValidationError::FieldsMustMatch))
    );
    assert_eq!(
        prepare_change(None, &form("x", "a", "b")),
        Err(ChangeError::Unauthorized)
    );
}

#[test]
fn resolve_username_maps_each_lookup() {
    assert_eq!(resolve_username(Ok(Some("alice".to_string()))), Ok("alice".to_string()));
    assert_eq!(resolve_username(Ok(None)), Err(ChangeError::UnexpectedError(Unexpected::UnknownUser)));
    assert_eq!(resolve_username(Err(StorageError)), Err(ChangeError::UnexpectedError(Unexpected::Storage)));
}

#[test]
fn commit_change_hashes_only_after_a_correct_current_password() {
    let h = commit_change(Ok(ALICE), "newpassword1").unwrap();
    assert_eq!(verify("newpassword1", &h, &mut HashWork::new()), Ok(()));
    assert_eq!(
        commit_change(Err(AuthError::InvalidCredentials), "newpassword1"),
        Err(ChangeError::ValidationError(ValidationError::CurrentPasswordIncorrect))
    );
    assert_eq!(
        commit_change(Err(AuthError::UnexpectedError(Unexpected::WorkerPool)), "newpassword1"),
        Err(ChangeError::UnexpectedError(Unexpected::WorkerPool))
    );
}
