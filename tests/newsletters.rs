use z2p::authentication::{AuthError, Unexpected, UserId};
use z2p::basic_auth::BasicAuthError;
use z2p::newsletters::{authorize_publisher, PublishAuthFailure, PublishError};

#[test]
fn refused_publisher_gets_basic_challenge() {
    let e = authorize_publisher(Err(AuthError::InvalidCredentials)).unwrap_err();
    assert_eq!(e, PublishError::AuthError(PublishAuthFailure::InvalidCredentials));
    assert_eq!(e.status_code(), 401);
    assert_eq!(e.www_authenticate(), Some("Basic realm=\"publish\""));
}

#[test]
fn missing_header_gets_basic_challenge() {
    let e = PublishError::from_header_error(BasicAuthError::MissingHeader);
    assert_eq!(e.status_code(), 401);
    assert_eq!(e.www_authenticate(), Some("Basic realm=\"publish\""));
}

#[test]
fn unexpected_failure_is_internal_error() {
    let e = authorize_publisher(Err(AuthError::UnexpectedError(Unexpected::WorkerPool))).unwrap_err();
    assert_eq!(e.status_code(), 500);
    assert_eq!(e.www_authenticate(), None);
}

#[test]
fn authenticated_publisher_passes() {
    assert_eq!(authorize_publisher(Ok(UserId(8))), Ok(UserId(8)));
}
