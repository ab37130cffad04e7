//! Password hashing with Argon2 in PHC string format.
use vstd::prelude::*;

verus! {

/// The error type of the `password-hash` crate that argon2 reports through.
#[verifier::external_type_specification]
#[verifier::external_body]
pub struct ExPasswordHashError(argon2::password_hash::Error);

/// Whether Argon2 accepts `password` against the PHC string `phc`: the
/// string parses as a PHC record and the digest recomputed with its
/// algorithm, version, parameters and salt equals the one it holds.
pub uninterp spec fn argon2_accepts(password: Seq<char>, phc: Seq<char>) -> bool;

/// Relies on argon2's `PasswordHash::new`, to parse `phc`, and on
/// `PasswordVerifier::verify_password` of `Argon2::default()`, which
/// recomputes the digest with the parameters of the parsed record. Both are
/// functions of the two strings alone.
#[verifier::external_body]
fn argon2_verify(password: &str, phc: &str) -> (r: Result<(), argon2::password_hash::Error>)
    ensures
        r is Ok <==> argon2_accepts(password@, phc@),
{
    let parsed = argon2::PasswordHash::new(phc)?;
    argon2::PasswordVerifier::verify_password(
        &argon2::Argon2::default(),
        password.as_bytes(),
        &parsed,
    )
}

/// Relies on argon2's `PasswordHasher::hash_password` of `Argon2::default()`
/// with a salt from `SaltString::generate` over the operating system's
/// generator: each call draws a fresh salt, and the PHC string it renders
/// verifies for the password it was computed from. With the default
/// parameters and a generated salt, it fails only for a password longer
/// than `MAX_PWD_LEN = 0xFFFFFFFF` bytes, which no text of at most
/// `0x3fff_ffff` characters (four bytes each at most) reaches.
#[verifier::external_body]
fn argon2_hash(password: &str) -> (r: Result<String, argon2::password_hash::Error>)
    ensures
        r matches Ok(phc) ==> argon2_accepts(password@, phc@),
        password@.len() <= MAX_HASHABLE_CHARS ==> r is Ok,
{
    let salt = argon2::password_hash::SaltString::generate(
        &mut argon2::password_hash::rand_core::OsRng,
    );
    argon2::PasswordHasher::hash_password(&argon2::Argon2::default(), password.as_bytes(), &salt)
        .map(|h| h.to_string())
}

/// The longest password, in characters, that hashing always accepts.
pub const MAX_HASHABLE_CHARS: usize = 0x3fff_ffff;

/// A record of the hash verifications performed: the PHC string each one
/// verified against, in order. It exists only in proofs; verification is
/// the one operation that extends it, so a contract over it states how
/// many verifications a function ran and against which hashes.
pub struct HashWork {
    log: Ghost<Seq<Seq<char>>>,
}

impl View for HashWork {
    type V = Seq<Seq<char>>;

    closed spec fn view(&self) -> Seq<Seq<char>> {
        self.log@
    }
}

impl HashWork {
    pub fn new() -> (r: HashWork)
        ensures
            r@ == Seq::<Seq<char>>::empty(),
    {
        HashWork { log: Ghost(Seq::empty()) }
    }
}

/// Why a password was not accepted against a stored hash. A string that is
/// not a PHC record is a mismatch too: it can never be verified against.
#[derive(Debug, Clone, Copy, PartialEq, Eq, Structural)]
pub struct Mismatch;

/// Hashing a new password failed inside the hashing library.
#[derive(Debug, Clone, Copy, PartialEq, Eq, Structural)]
pub struct HashingFailed;

/// Verifies `candidate` against the PHC string `expected_hash`, and records
/// the verification in `work`.
pub fn verify(candidate: &str, expected_hash: &str, work: &mut HashWork) -> (r: Result<(), Mismatch>)
    ensures
        r is Ok <==> argon2_accepts(candidate@, expected_hash@),
        final(work)@ == old(work)@.push(expected_hash@),
{
    work.log = Ghost(work.log@.push(expected_hash@));
    match argon2_verify(candidate, expected_hash) {
        Ok(()) => Ok(()),
        Err(_) => Err(Mismatch),
    }
}

/// Produces a fresh PHC hash of `plaintext` under a new random salt; the
/// hash verifies for `plaintext`. It fails only for a text longer than
/// `MAX_HASHABLE_CHARS` characters.
pub fn hash(plaintext: &str) -> (r: Result<String, HashingFailed>)
    ensures
        r matches Ok(phc) ==> argon2_accepts(plaintext@, phc@),
        plaintext@.len() <= MAX_HASHABLE_CHARS ==> r is Ok,
{
    match argon2_hash(plaintext) {
        Ok(phc) => Ok(phc),
        Err(_) => Err(HashingFailed),
    }
}

} // verus!
