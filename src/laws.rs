//! Properties that hold across the library's operations, proved from the
//! contracts of the functions they speak of.
use vstd::prelude::*;
use crate::authentication::{
    hash_to_verify, validation_outcome, AuthError, StoredCredentials, UserId,
};
use crate::credential_store::{user_ids_unique, username_for, validation_in};
use crate::hasher::argon2_accepts;
use crate::password_change::{
    change_check, change_outcome, ChangeError, FormData, ValidationError, MAX_PASSWORD_LENGTH,
    MIN_PASSWORD_LENGTH,
};
use crate::session::{identity_of, without_session, SessionHandle};

verus! {

/// Validation against a store succeeds exactly when the username has a
/// record and the password verifies against its stored hash, and then
/// yields that record's user; every other attempt is `InvalidCredentials`.
pub proof fn validation_accepts_only_matching_passwords(
    m: Map<Seq<char>, (UserId, Seq<char>)>,
    username: Seq<char>,
    password: Seq<char>,
)
    ensures
        validation_in(m, username, password) is Ok <==> m.contains_key(username) && argon2_accepts(
            password,
            m[username].1,
        ),
        validation_in(m, username, password) matches Ok(id) ==> id == m[username].0,
        validation_in(m, username, password) is Err ==> validation_in(m, username, password) == Err::<
            UserId,
            AuthError,
        >(AuthError::InvalidCredentials),
{
}

/// An unknown username and a wrong password give the same answer; the hash
/// the password is verified against is the stored one, or the default one
/// when there is no record.
pub proof fn unknown_user_indistinguishable_from_wrong_password(
    record: StoredCredentials,
    default_hash: Seq<char>,
    password: Seq<char>,
)
    requires
        !argon2_accepts(password, record.password_hash@),
    ensures
        validation_outcome(Ok(None), password) == validation_outcome(Ok(Some(record)), password),
        validation_outcome(Ok(None), password) == Err::<UserId, AuthError>(
            AuthError::InvalidCredentials,
        ),
        hash_to_verify(Some(record), default_hash) == record.password_hash@,
        hash_to_verify(None, default_hash) == default_hash,
{
}

/// A session lives from login to logout: a handle with no identity is
/// anonymous; after a login the new handle carries the identity while the
/// handle presented before it carries none; after logout the handle carries
/// none again.
pub proof fn session_lifecycle(
    sessions: Map<u128, UserId>,
    presented: Option<SessionHandle>,
    fresh: SessionHandle,
    user_id: UserId,
)
    requires
        presented != Some(fresh),
        !sessions.contains_key(fresh.0),
    ensures
        identity_of(sessions, fresh) is None,
        identity_of(without_session(sessions, presented).insert(fresh.0, user_id), fresh) == Some(
            user_id,
        ),
        presented matches Some(h) ==> identity_of(
            without_session(sessions, presented).insert(fresh.0, user_id),
            h,
        ) is None,
        identity_of(without_session(sessions, presented).insert(fresh.0, user_id).remove(fresh.0), fresh)
            is None,
{
}

/// A password change is refused when the new password and its confirmation
/// differ, when the new password is shorter than `MIN_PASSWORD_LENGTH` or
/// longer than `MAX_PASSWORD_LENGTH` characters, or when the current
/// password does not verify; in each case the store is left as it was.
pub proof fn refused_change_keeps_store(
    m: Map<Seq<char>, (UserId, Seq<char>)>,
    user_id: UserId,
    form: FormData,
    r: Result<(), ChangeError>,
    m2: Map<Seq<char>, (UserId, Seq<char>)>,
)
    requires
        change_outcome(m, Some(user_id), form, r, m2),
    ensures
        form.new_password@ != form.new_password_validate@ ==> r == Err::<(), ChangeError>(
            ChangeError::ValidationError(ValidationError::FieldsMustMatch),
        ) && m2 == m,
        form.new_password@ == form.new_password_validate@ && form.new_password@.len()
            < MIN_PASSWORD_LENGTH ==> r == Err::<(), ChangeError>(
            ChangeError::ValidationError(ValidationError::LengthOutOfRange),
        ) && m2 == m,
        form.new_password@ == form.new_password_validate@ && form.new_password@.len()
            > MAX_PASSWORD_LENGTH ==> r == Err::<(), ChangeError>(
            ChangeError::ValidationError(ValidationError::LengthOutOfRange),
        ) && m2 == m,
        ({
            &&& form.new_password@ == form.new_password_validate@
            &&& MIN_PASSWORD_LENGTH <= form.new_password@.len() <= MAX_PASSWORD_LENGTH
            &&& m.contains_key(username_for(m, user_id))
            &&& m[username_for(m, user_id)].0 == user_id
            &&& !argon2_accepts(form.current_password@, m[username_for(m, user_id)].1)
        }) ==> r == Err::<(), ChangeError>(
            ChangeError::ValidationError(ValidationError::CurrentPasswordIncorrect),
        ) && m2 == m,
{
}

/// A password change with matching fields, a new password of
/// `MIN_PASSWORD_LENGTH` to `MAX_PASSWORD_LENGTH` characters and the right
/// current password succeeds. Then the user's username validates with the
/// new password, and with the old one only if the fresh hash happens to
/// accept it too.
pub proof fn accepted_change_takes_new_password(
    m: Map<Seq<char>, (UserId, Seq<char>)>,
    user_id: UserId,
    form: FormData,
    r: Result<(), ChangeError>,
    m2: Map<Seq<char>, (UserId, Seq<char>)>,
)
    requires
        user_ids_unique(m),
        change_outcome(m, Some(user_id), form, r, m2),
    ensures
        ({
            &&& form.new_password@ == form.new_password_validate@
            &&& MIN_PASSWORD_LENGTH <= form.new_password@.len() <= MAX_PASSWORD_LENGTH
            &&& m.contains_key(username_for(m, user_id))
            &&& m[username_for(m, user_id)].0 == user_id
            &&& argon2_accepts(form.current_password@, m[username_for(m, user_id)].1)
        }) ==> r is Ok,
        r is Ok ==> validation_in(m2, username_for(m, user_id), form.new_password@) == Ok::<
            UserId,
            AuthError,
        >(user_id),
        r is Ok ==> (validation_in(m2, username_for(m, user_id), form.current_password@) is Ok
            <==> argon2_accepts(form.current_password@, m2[username_for(m, user_id)].1)),
{
    if r is Ok {
        let name = username_for(m, user_id);
        assert(change_check(m, Some(user_id), form) is Ok);
        assert(m.contains_key(name) && m[name].0 == user_id);
        assert(m2.contains_key(name));
        assert(m2[name].0 == user_id);
    }
}

} // verus!
