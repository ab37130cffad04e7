//! Credential validation: the timing equalizer and the validator that turns
//! a (username, password) pair and the stored record for that username into
//! a verified identity or a classified failure.
use vstd::prelude::*;
use crate::hasher::{argon2_accepts, hash, verify, HashWork};
use crate::session::random_token;

verus! {

/// The opaque unique identifier of a user (the 128 bits of its UUID).
#[derive(Debug, Clone, Copy, PartialEq, Eq, Structural, Hash)]
pub struct UserId(pub u128);

/// A claimed identity: a username and the plaintext password offered for
/// it. Never persisted and deliberately without a `Debug` rendering.
pub struct Credentials {
    pub username: String,
    pub password: String,
}

/// The record stored for a username: its user and its PHC password hash.
#[derive(Clone)]
pub struct StoredCredentials {
    pub user_id: UserId,
    pub password_hash: String,
}

/// The record store could not be read.
#[derive(Debug, Clone, Copy, PartialEq, Eq, Structural)]
pub struct StorageError;

/// The infrastructure failure behind an unexpected authentication error.
#[derive(Debug, Clone, Copy, PartialEq, Eq, Structural)]
pub enum Unexpected {
    /// The credential record store failed.
    Storage,
    /// The worker pool that runs the hash verification failed.
    WorkerPool,
    /// An authenticated session names a user that has no record.
    UnknownUser,
    /// Hashing a new password failed.
    Hashing,
    /// The fresh handle drawn for a new session was already in use.
    SessionRotation,
}

/// Why an authentication attempt failed. A wrong username and a wrong
/// password are the same `InvalidCredentials`: nothing tells them apart.
#[derive(Debug, Clone, Copy, PartialEq, Eq, Structural)]
pub enum AuthError {
    InvalidCredentials,
    UnexpectedError(Unexpected),
}

/// The PHC hash verified against when a username has no record, so that an
/// unknown user costs the same hashing work as a wrong password. Built once
/// at startup, with the parameters of every stored hash, from a random secret
/// that belongs to no account, and handed to every validation.
pub struct DefaultHash {
    phc: String,
}

impl View for DefaultHash {
    type V = Seq<char>;

    closed spec fn view(&self) -> Seq<char> {
        self.phc@
    }
}

/// The 32 lower-case hexadecimal digits of `n`, least significant first.
fn hex_text(n: u128) -> (r: String)
    ensures
        r@.len() == 32,
{
    let digits = "0123456789abcdef";
    proof {
        reveal_strlit("0123456789abcdef");
    }
    let mut text = String::new();
    let mut i: u32 = 0;
    while i < 32
        invariant
            i <= 32,
            text@.len() == i,
            digits@.len() == 16,
        decreases 32 - i,
    {
        let shift: u32 = 4 * i;
        let d = (n >> shift) & 15;
        assert((n >> shift) & 15 < 16) by (bit_vector);
        let d = d as usize;
        text.append(digits.substring_char(d, d + 1));
        i = i + 1;
    }
    text
}

impl DefaultHash {
    /// A fresh Argon2 hash of a random 32-character secret.
    pub fn new() -> (r: DefaultHash)
        ensures
            exists|secret: Seq<char>| secret.len() == 32 && #[trigger] argon2_accepts(secret, r@),
    {
        let secret = hex_text(random_token());
        match hash(secret.as_str()) {
            Ok(phc) => {
                let r = DefaultHash { phc };
                assert(secret@.len() == 32 && argon2_accepts(secret@, r@));
                r
            },
            Err(_) => {
                proof {
                    assert(false);
                }
                DefaultHash { phc: String::new() }
            },
        }
    }

    pub fn as_str(&self) -> (r: &str)
        ensures
            r@ == self@,
    {
        self.phc.as_str()
    }
}

/// The hash that a validation verifies against: the stored one when the
/// username has a record, the default one otherwise.
pub open spec fn hash_to_verify(stored: Option<StoredCredentials>, default_hash: Seq<char>) -> Seq<
    char,
> {
    match stored {
        Some(record) => record.password_hash@,
        None => default_hash,
    }
}

/// The outcome of validating `password` for a username whose lookup in the
/// record store gave `lookup`.
pub open spec fn validation_outcome(
    lookup: Result<Option<StoredCredentials>, StorageError>,
    password: Seq<char>,
) -> Result<UserId, AuthError> {
    match lookup {
        Err(_) => Err(AuthError::UnexpectedError(Unexpected::Storage)),
        Ok(None) => Err(AuthError::InvalidCredentials),
        Ok(Some(record)) => if argon2_accepts(password, record.password_hash@) {
            Ok(record.user_id)
        } else {
            Err(AuthError::InvalidCredentials)
        },
    }
}

/// Timing equalizer: picks the hash to verify against whether or not the
/// username was found, so that verification always runs.
pub fn expected_password_hash<'a>(
    stored: &'a Option<StoredCredentials>,
    default_hash: &'a DefaultHash,
) -> (r: &'a str)
    ensures
        r@ == hash_to_verify(*stored, default_hash@),
{
    match stored {
        Some(record) => record.password_hash.as_str(),
        None => default_hash.as_str(),
    }
}

/// Verifies `password_candidate` against `expected_password_hash`, recording
/// the verification in `work`; a mismatch, or a hash that is not a PHC
/// record, is `InvalidCredentials`.
pub fn verify_password_hash(
    expected_password_hash: &str,
    password_candidate: &str,
    work: &mut HashWork,
) -> (r: Result<(), AuthError>)
    ensures
        r is Ok <==> argon2_accepts(password_candidate@, expected_password_hash@),
        r is Err ==> r == Err::<(), AuthError>(AuthError::InvalidCredentials),
        final(work)@ == old(work)@.push(expected_password_hash@),
{
    match verify(password_candidate, expected_password_hash, work) {
        Ok(()) => Ok(()),
        Err(_) => Err(AuthError::InvalidCredentials),
    }
}

/// Validates `credentials` given `lookup`, the result of reading the record
/// stored for `credentials.username`. Once the lookup succeeded, exactly one
/// hash verification runs, recorded in `work`: against the stored hash, or
/// against `default_hash` when the username has no record. Only after it
/// has run is an unknown username turned into `InvalidCredentials`.
pub fn validate_credentials(
    credentials: Credentials,
    lookup: Result<Option<StoredCredentials>, StorageError>,
    default_hash: &DefaultHash,
    work: &mut HashWork,
) -> (r: Result<UserId, AuthError>)
    ensures
        r == validation_outcome(lookup, credentials.password@),
        match lookup {
            Ok(stored) => final(work)@ == old(work)@.push(hash_to_verify(stored, default_hash@)),
            Err(_) => final(work)@ == old(work)@,
        },
{
    let stored = match lookup {
        Ok(stored) => stored,
        Err(_) => {
            return Err(AuthError::UnexpectedError(Unexpected::Storage));
        },
    };
    let expected = expected_password_hash(&stored, default_hash);
    let verified = verify_password_hash(expected, credentials.password.as_str(), work);
    match verified {
        Err(e) => Err(e),
        Ok(()) => match stored {
            Some(record) => Ok(record.user_id),
            None => Err(AuthError::InvalidCredentials),
        },
    }
}

} // verus!
