//! The password-change workflow: checks the shape of the new password,
//! re-verifies the current one, and only then overwrites the stored hash.
use vstd::prelude::*;
use crate::authentication::{
    validate_credentials, AuthError, Credentials, DefaultHash, StorageError, UserId, Unexpected,
};
use crate::credential_store::{has_user_id, username_for, with_hash, CredentialStore};
use crate::hasher::{argon2_accepts, hash, HashWork, MAX_HASHABLE_CHARS};

verus! {

pub const MIN_PASSWORD_LENGTH: usize = 12;

pub const MAX_PASSWORD_LENGTH: usize = 128;

/// The fields of a password-change request.
pub struct FormData {
    pub current_password: String,
    pub new_password: String,
    pub new_password_validate: String,
}

/// A rule of the password-change form that the request breaks.
#[derive(Debug, Clone, Copy, PartialEq, Eq, Structural)]
pub enum ValidationError {
    FieldsMustMatch,
    LengthOutOfRange,
    CurrentPasswordIncorrect,
}

#[derive(Debug, Clone, Copy, PartialEq, Eq, Structural)]
pub enum ChangeError {
    /// No authenticated identity.
    Unauthorized,
    ValidationError(ValidationError),
    UnexpectedError(Unexpected),
}

/// The message shown once after a successful change.
pub fn password_changed_message() -> (r: &'static str)
    ensures
        r@ == "Your password has been changed."@,
{
    "Your password has been changed."
}

impl ChangeError {
    /// The message shown once on the page the refusal redirects to; `None`
    /// for the refusals that show none.
    pub fn flash_message(&self) -> (r: Option<&'static str>)
        ensures
            match self {
                ChangeError::ValidationError(ValidationError::FieldsMustMatch) => r matches Some(m)
                    && m@ == "Password fields must match."@,
                ChangeError::ValidationError(ValidationError::LengthOutOfRange) => r matches Some(m)
                    && m@ == "New password must be between 12 and 128 characters."@,
                ChangeError::ValidationError(ValidationError::CurrentPasswordIncorrect) => r matches Some(
                    m,
                ) && m@ == "Current password is incorrect."@,
                _ => r is None,
            },
    {
        match self {
            ChangeError::ValidationError(ValidationError::FieldsMustMatch) => Some(
                "Password fields must match.",
            ),
            ChangeError::ValidationError(ValidationError::LengthOutOfRange) => Some(
                "New password must be between 12 and 128 characters.",
            ),
            ChangeError::ValidationError(ValidationError::CurrentPasswordIncorrect) => Some(
                "Current password is incorrect.",
            ),
            _ => None,
        }
    }

    /// Where the refusal sends the client: the login page when there is no
    /// authenticated identity, the password-change page after a broken
    /// rule; `None` for an unexpected failure, which is answered with an
    /// internal error instead.
    pub fn redirect_location(&self) -> (r: Option<&'static str>)
        ensures
            match self {
                ChangeError::Unauthorized => r matches Some(l) && l@ == "/login"@,
                ChangeError::ValidationError(_) => r matches Some(l) && l@ == "/admin/password"@,
                ChangeError::UnexpectedError(_) => r is None,
            },
    {
        match self {
            ChangeError::Unauthorized => Some("/login"),
            ChangeError::ValidationError(_) => Some("/admin/password"),
            ChangeError::UnexpectedError(_) => None,
        }
    }
}

/// The checks on the new password alone, in their order.
pub open spec fn new_password_check(new_password: Seq<char>, confirmation: Seq<char>) -> Result<
    (),
    ChangeError,
> {
    if new_password != confirmation {
        Err(ChangeError::ValidationError(ValidationError::FieldsMustMatch))
    } else if !(MIN_PASSWORD_LENGTH <= new_password.len() <= MAX_PASSWORD_LENGTH) {
        Err(ChangeError::ValidationError(ValidationError::LengthOutOfRange))
    } else {
        Ok(())
    }
}

/// What a failed re-verification of the current password becomes.
pub open spec fn current_password_error(e: AuthError) -> ChangeError {
    match e {
        AuthError::InvalidCredentials => ChangeError::ValidationError(
            ValidationError::CurrentPasswordIncorrect,
        ),
        AuthError::UnexpectedError(cause) => ChangeError::UnexpectedError(cause),
    }
}

/// Every check of a password change, in order, against the store `m`:
/// `Ok` when the change may be committed.
pub open spec fn change_check(
    m: Map<Seq<char>, (UserId, Seq<char>)>,
    identity: Option<UserId>,
    form: FormData,
) -> Result<(), ChangeError> {
    match identity {
        None => Err(ChangeError::Unauthorized),
        Some(id) => if new_password_check(form.new_password@, form.new_password_validate@) is Err {
            new_password_check(form.new_password@, form.new_password_validate@)
        } else if !has_user_id(m, id) {
            Err(ChangeError::UnexpectedError(Unexpected::UnknownUser))
        } else if !argon2_accepts(form.current_password@, m[username_for(m, id)].1) {
            Err(ChangeError::ValidationError(ValidationError::CurrentPasswordIncorrect))
        } else {
            Ok(())
        },
    }
}

/// What a password change that returned `r` may have done to the store `m`,
/// leaving it as `m2`: a failed check is reported as it is and changes
/// nothing; once every check passed, the change succeeds and overwrites the
/// hash of the user, and of no one else, with one that verifies for the new
/// password.
pub open spec fn change_outcome(
    m: Map<Seq<char>, (UserId, Seq<char>)>,
    identity: Option<UserId>,
    form: FormData,
    r: Result<(), ChangeError>,
    m2: Map<Seq<char>, (UserId, Seq<char>)>,
) -> bool {
    &&& change_check(m, identity, form) is Err ==> r == change_check(m, identity, form)
    &&& change_check(m, identity, form) is Ok ==> r is Ok
    &&& r is Err ==> m2 == m
    &&& r is Ok ==> {
        let id = identity->Some_0;
        let new_hash = m2[username_for(m, id)].1;
        &&& argon2_accepts(form.new_password@, new_hash)
        &&& m2 == with_hash(m, id, new_hash)
    }
}

/// Checks that the two new-password fields match and that the new password
/// has between `MIN_PASSWORD_LENGTH` and `MAX_PASSWORD_LENGTH` characters.
pub fn check_new_password(new_password: &String, confirmation: &String) -> (r: Result<(), ChangeError>)
    ensures
        r == new_password_check(new_password@, confirmation@),
{
    if *new_password != *confirmation {
        return Err(ChangeError::ValidationError(ValidationError::FieldsMustMatch));
    }
    let length = new_password.as_str().unicode_len();
    if length < MIN_PASSWORD_LENGTH || length > MAX_PASSWORD_LENGTH {
        return Err(ChangeError::ValidationError(ValidationError::LengthOutOfRange));
    }
    Ok(())
}

/// Maps the re-verification of the current password to the workflow's
/// outcome: wrong credentials are an incorrect current password.
pub fn current_password_outcome(validation: Result<UserId, AuthError>) -> (r: Result<(), ChangeError>)
    ensures
        r == match validation {
            Ok(_) => Ok::<(), ChangeError>(()),
            Err(e) => Err(current_password_error(e)),
        },
{
    match validation {
        Ok(_) => Ok(()),
        Err(AuthError::InvalidCredentials) => Err(
            ChangeError::ValidationError(ValidationError::CurrentPasswordIncorrect),
        ),
        Err(AuthError::UnexpectedError(cause)) => Err(ChangeError::UnexpectedError(cause)),
    }
}

/// The checks that need no stored record, in order: an authenticated
/// identity, then the shape of the new password. Yields the identity.
pub fn prepare_change(identity: Option<UserId>, form: &FormData) -> (r: Result<UserId, ChangeError>)
    ensures
        r == match identity {
            None => Err(ChangeError::Unauthorized),
            Some(id) => match new_password_check(form.new_password@, form.new_password_validate@) {
                Err(e) => Err(e),
                Ok(()) => Ok::<UserId, ChangeError>(id),
            },
        },
{
    let id = match identity {
        None => {
            return Err(ChangeError::Unauthorized);
        },
        Some(id) => id,
    };
    match check_new_password(&form.new_password, &form.new_password_validate) {
        Err(e) => Err(e),
        Ok(()) => Ok(id),
    }
}

/// The username of the authenticated user, from reading it by user id; a
/// user without a record is unexpected.
pub fn resolve_username(lookup: Result<Option<String>, StorageError>) -> (r: Result<String, ChangeError>)
    ensures
        match lookup {
            Err(_) => r == Err::<String, ChangeError>(ChangeError::UnexpectedError(Unexpected::Storage)),
            Ok(None) => r == Err::<String, ChangeError>(
                ChangeError::UnexpectedError(Unexpected::UnknownUser),
            ),
            Ok(Some(name)) => r matches Ok(n) && n@ == name@,
        },
{
    match lookup {
        Err(_) => Err(ChangeError::UnexpectedError(Unexpected::Storage)),
        Ok(None) => Err(ChangeError::UnexpectedError(Unexpected::UnknownUser)),
        Ok(Some(name)) => Ok(name),
    }
}

/// The last decision of a change: given the re-verification of the current
/// password, the hash to store for `new_password`, fresh and salted anew.
pub fn commit_change(validation: Result<UserId, AuthError>, new_password: &str) -> (r: Result<
    String,
    ChangeError,
>)
    ensures
        validation matches Err(e) ==> r == Err::<String, ChangeError>(current_password_error(e)),
        validation is Ok && new_password@.len() <= MAX_HASHABLE_CHARS ==> r is Ok,
        validation is Ok ==> r is Ok || r == Err::<String, ChangeError>(
            ChangeError::UnexpectedError(Unexpected::Hashing),
        ),
        r matches Ok(h) ==> argon2_accepts(new_password@, h@),
{
    match current_password_outcome(validation) {
        Err(e) => Err(e),
        Ok(()) => match hash(new_password) {
            Ok(h) => Ok(h),
            Err(_) => Err(ChangeError::UnexpectedError(Unexpected::Hashing)),
        },
    }
}

/// Changes the password of the session's `identity`. Each check runs in
/// order and stops at the first failure; the store is written only after
/// all of them passed, with a fresh hash of the new password.
pub fn change_password(
    store: &mut CredentialStore,
    identity: Option<UserId>,
    form: FormData,
    default_hash: &DefaultHash,
) -> (r: Result<(), ChangeError>)
    requires
        old(store).well_formed(),
    ensures
        final(store).well_formed(),
        change_outcome(old(store)@, identity, form, r, final(store)@),
{
    let ghost before = store@;
    let id = match prepare_change(identity, &form) {
        Err(e) => {
            return Err(e);
        },
        Ok(id) => id,
    };
    let username = match resolve_username(Ok(store.username_of(id))) {
        Err(e) => {
            return Err(e);
        },
        Ok(name) => name,
    };
    proof {
        store.lemma_ids_unique();
    }
    assert(username@ == username_for(before, id));
    let lookup = store.lookup(username.as_str());
    let FormData { current_password, new_password, new_password_validate: _ } = form;
    let mut work = HashWork::new();
    let verification = validate_credentials(
        Credentials { username, password: current_password },
        Ok(lookup),
        default_hash,
        &mut work,
    );
    let new_hash = match commit_change(verification, new_password.as_str()) {
        Err(e) => {
            return Err(e);
        },
        Ok(h) => h,
    };
    let ghost h = new_hash@;
    let written = store.update_hash(id, new_hash);
    assert(written is Ok);
    proof {
        assert(store@[username_for(before, id)].1 == h);
    }
    Ok(())
}

} // verus!
