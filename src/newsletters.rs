//! Publication of a newsletter issue: who may publish, and how a refusal is
//! answered.
use vstd::prelude::*;
use crate::authentication::{AuthError, UserId, Unexpected};
use crate::basic_auth::BasicAuthError;

verus! {

/// A newsletter issue as submitted for publication.
pub struct BodyData {
    pub title: String,
    pub content: Content,
}

/// The two renderings of an issue.
pub struct Content {
    pub html: String,
    pub text: String,
}

/// Why the publisher was not authenticated.
#[derive(Debug, Clone, Copy, PartialEq, Eq, Structural)]
pub enum PublishAuthFailure {
    /// The `Authorization` header yields no credentials.
    Header(BasicAuthError),
    InvalidCredentials,
}

#[derive(Debug, Clone, Copy, PartialEq, Eq, Structural)]
pub enum PublishError {
    AuthError(PublishAuthFailure),
    UnexpectedError(Unexpected),
}

/// The publisher identity that a credential validation gives, or the
/// refusal it becomes.
pub open spec fn publisher_outcome(validation: Result<UserId, AuthError>) -> Result<UserId, PublishError> {
    match validation {
        Ok(id) => Ok(id),
        Err(AuthError::InvalidCredentials) => Err(
            PublishError::AuthError(PublishAuthFailure::InvalidCredentials),
        ),
        Err(AuthError::UnexpectedError(cause)) => Err(PublishError::UnexpectedError(cause)),
    }
}

impl PublishError {
    pub fn from_header_error(e: BasicAuthError) -> (r: PublishError)
        ensures
            r == PublishError::AuthError(PublishAuthFailure::Header(e)),
    {
        PublishError::AuthError(PublishAuthFailure::Header(e))
    }

    /// The HTTP status of the refusal: `401` when the publisher is not
    /// authenticated, `500` otherwise.
    pub fn status_code(&self) -> (r: u16)
        ensures
            r == match self {
                PublishError::AuthError(_) => 401u16,
                PublishError::UnexpectedError(_) => 500u16,
            },
    {
        match self {
            PublishError::AuthError(_) => 401,
            PublishError::UnexpectedError(_) => 500,
        }
    }

    /// The `WWW-Authenticate` challenge sent with a `401`.
    pub fn www_authenticate(&self) -> (r: Option<&'static str>)
        ensures
            match self {
                PublishError::AuthError(_) => r matches Some(v) && v@ == "Basic realm=\"publish\""@,
                PublishError::UnexpectedError(_) => r is None,
            },
    {
        match self {
            PublishError::AuthError(_) => Some("Basic realm=\"publish\""),
            PublishError::UnexpectedError(_) => None,
        }
    }
}

/// The identity that may publish, from the validation of the credentials
/// of the request: wrong credentials are answered like a missing header.
pub fn authorize_publisher(validation: Result<UserId, AuthError>) -> (r: Result<UserId, PublishError>)
    ensures
        r == publisher_outcome(validation),
{
    match validation {
        Ok(id) => Ok(id),
        Err(AuthError::InvalidCredentials) => Err(
            PublishError::AuthError(PublishAuthFailure::InvalidCredentials),
        ),
        Err(AuthError::UnexpectedError(cause)) => Err(PublishError::UnexpectedError(cause)),
    }
}

} // verus!
