//! The login step: what a validation outcome does to the session store and
//! where the client is sent afterwards.
use vstd::prelude::*;
use crate::authentication::{AuthError, UserId, Unexpected};
use crate::session::{without_session, SessionHandle, SessionStore};

verus! {

/// The fields of the login form.
pub struct FormData {
    pub username: String,
    pub password: String,
}

#[derive(Debug, Clone, Copy, PartialEq, Eq, Structural)]
pub enum LoginError {
    AuthError,
    UnexpectedError(Unexpected),
}

/// Where a successful login sends the client.
pub fn landing_location() -> (r: &'static str)
    ensures
        r@ == "/admin/dashboard"@,
{
    "/admin/dashboard"
}

/// What a failed validation becomes at login.
pub open spec fn login_error_of(e: AuthError) -> LoginError {
    match e {
        AuthError::InvalidCredentials => LoginError::AuthError,
        AuthError::UnexpectedError(cause) => LoginError::UnexpectedError(cause),
    }
}

impl LoginError {
    pub fn from_auth_error(e: AuthError) -> (r: LoginError)
        ensures
            r == login_error_of(e),
    {
        match e {
            AuthError::InvalidCredentials => LoginError::AuthError,
            AuthError::UnexpectedError(cause) => LoginError::UnexpectedError(cause),
        }
    }

    /// The message shown once on the login page; it never says which part
    /// of the credentials was wrong.
    pub fn message(&self) -> (r: &'static str)
        ensures
            r@ == self.message_text(),
    {
        match self {
            LoginError::AuthError => "Authentication failed",
            LoginError::UnexpectedError(_) => "Something went wrong",
        }
    }

    /// Wrong credentials redirect back to the login page (`303 See
    /// Other`); an unexpected failure is an opaque internal error (`500`).
    pub fn status_code(&self) -> (r: u16)
        ensures
            r == match self {
                LoginError::AuthError => 303u16,
                LoginError::UnexpectedError(_) => 500u16,
            },
    {
        match self {
            LoginError::AuthError => 303,
            LoginError::UnexpectedError(_) => 500,
        }
    }

    /// Where a failed login sends the client: back to the login page, the
    /// message travelling only as a one-time flash; `None` for an
    /// unexpected failure, which is answered with an internal error.
    pub fn error_location(&self) -> (r: Option<&'static str>)
        ensures
            match self {
                LoginError::AuthError => r matches Some(l) && l@ == "/login"@,
                LoginError::UnexpectedError(_) => r is None,
            },
    {
        match self {
            LoginError::AuthError => Some("/login"),
            LoginError::UnexpectedError(_) => None,
        }
    }

    pub open spec fn message_text(&self) -> Seq<char> {
        match self {
            LoginError::AuthError => "Authentication failed"@,
            LoginError::UnexpectedError(_) => "Something went wrong"@,
        }
    }
}

/// Completes a login whose credential validation gave `validation`: on
/// success the session `presented` by the client, if any, is replaced by a
/// fresh one that holds the user, and its handle is returned; on failure
/// the sessions are left as they were.
pub fn login(
    validation: Result<UserId, AuthError>,
    sessions: &mut SessionStore,
    presented: Option<SessionHandle>,
) -> (r: Result<SessionHandle, LoginError>)
    ensures
        validation matches Err(e) ==> r == Err::<SessionHandle, LoginError>(login_error_of(e)),
        validation is Ok ==> r is Ok || r == Err::<SessionHandle, LoginError>(
            LoginError::UnexpectedError(Unexpected::SessionRotation),
        ),
        r is Err ==> final(sessions)@ == old(sessions)@,
        r == Err::<SessionHandle, LoginError>(LoginError::UnexpectedError(Unexpected::SessionRotation))
            ==> validation is Err || presented is Some || old(sessions)@.dom() != Set::<u128>::empty(),
        r matches Ok(fresh) ==> {
            &&& presented != Some(fresh)
            &&& !old(sessions)@.contains_key(fresh.0)
            &&& final(sessions)@ == without_session(old(sessions)@, presented).insert(
                fresh.0,
                validation->Ok_0,
            )
        },
{
    match validation {
        Err(e) => Err(LoginError::from_auth_error(e)),
        Ok(user_id) => match sessions.establish(presented, user_id) {
            Ok(fresh) => Ok(fresh),
            Err(_) => Err(LoginError::UnexpectedError(Unexpected::SessionRotation)),
        },
    }
}

} // verus!
