//! Salted one-way hashing of passwords and refresh secrets.
//!
//! A hash is a self-describing string in the PHC format: it carries the
//! algorithm, its parameters and the salt, so that checking a password needs
//! nothing but the string itself.

use argon2::password_hash::{PasswordHasher, PasswordVerifier, SaltString};
use argon2::Argon2;
use rand_core::{OsRng, RngCore};
use vstd::prelude::*;
use vstd::std_specs::convert::{FromSpecImpl, TryFromSpecImpl};

verus! {

/// The error type of the `argon2` crate, carried through and never looked into.
#[verifier::external_type_specification]
#[verifier::external_body]
pub struct ExPhcError(argon2::password_hash::Error);

/// The error type of `rand_core`, carried through and never looked into.
#[verifier::external_type_specification]
#[verifier::external_body]
pub struct ExRngError(rand_core::Error);

/// Whether `argon2::PasswordHash::new` accepts `hash` as a PHC string.
pub uninterp spec fn phc_parses(hash: Seq<char>) -> bool;

/// Whether `Argon2::verify_password` accepts `password` for the parsed `hash`.
pub uninterp spec fn argon2_accepts(hash: Seq<char>, password: Seq<char>) -> bool;

/// The PHC string that `Argon2::hash_password` gives for `password` under
/// `salt` with the crate's default parameters, or `None` where it refuses.
pub uninterp spec fn argon2_phc(password: Seq<char>, salt: Seq<u8>) -> Option<Seq<char>>;

/// Why a hash could not be made or read.
#[derive(Clone, Copy, Debug, PartialEq, Eq, Structural)]
pub enum HashError {
    /// The operating system's random number generator gave no salt.
    RandomnessUnavailable,
    /// The hashing function refused its input.
    HashingFailure,
    /// The stored string is not a well-formed PHC string.
    Malformed,
}

/// What checking `password` against `hash` yields: an error for a string that
/// is no PHC string, otherwise whether the password is the hashed one.
pub open spec fn verify_spec(hash: Seq<char>, password: Seq<char>) -> Result<bool, HashError> {
    if phc_parses(hash) {
        Ok(argon2_accepts(hash, password))
    } else {
        Err(HashError::Malformed)
    }
}

/// Whether `hash` is a string that checking accepts `password` for.
pub open spec fn accepts(hash: Seq<char>, password: Seq<char>) -> bool {
    verify_spec(hash, password) == Ok::<bool, HashError>(true)
}

/// Calls `OsRng.try_fill_bytes` on an array of `N` bytes. Nothing is claimed
/// of the bytes.
#[verifier::external_body]
fn os_random<const N: usize>() -> (r: Result<[u8; N], rand_core::Error>) {
    let mut bytes = [0u8; N];
    OsRng.try_fill_bytes(&mut bytes)?;
    Ok(bytes)
}

/// Calls `SaltString::encode_b64`, `Argon2::default().hash_password` and the
/// `Display` of the result. Claims that the outcome is a function of password
/// and salt, and that a string it returns parses and is accepted for the same
/// password by `Argon2::default().verify_password`, which recomputes the digest
/// from the parameters and salt in the string.
#[verifier::external_body]
fn argon2_hash(password: &str, salt: &[u8; 16]) -> (r: Result<String, argon2::password_hash::Error>)
    ensures
        match r {
            Ok(h) => argon2_phc(password@, salt@) == Some(h@),
            Err(_) => argon2_phc(password@, salt@) is None,
        },
        r matches Ok(h) ==> phc_parses(h@) && argon2_accepts(h@, password@),
{
    let salt = SaltString::encode_b64(salt)?;
    Ok(Argon2::default().hash_password(password.as_bytes(), &salt)?.to_string())
}

/// Calls `argon2::PasswordHash::new` and, on the parsed value,
/// `Argon2::default().verify_password`. Claims that the call fails exactly on
/// strings that do not parse, and otherwise tells whether the password was
/// accepted.
#[verifier::external_body]
fn argon2_check(hash: &str, password: &str) -> (r: Result<bool, argon2::password_hash::Error>)
    ensures
        r is Ok <==> phc_parses(hash@),
        r matches Ok(b) ==> b == argon2_accepts(hash@, password@),
{
    let parsed = argon2::PasswordHash::new(hash)?;
    Ok(Argon2::default().verify_password(password.as_bytes(), &parsed).is_ok())
}

/// Draws a salt of sixteen bytes from the operating system's random number
/// generator.
pub fn fresh_salt() -> (r: Result<[u8; 16], HashError>)
    ensures
        r matches Err(e) ==> e == HashError::RandomnessUnavailable,
{
    match os_random::<16>() {
        Ok(salt) => Ok(salt),
        Err(_) => Err(HashError::RandomnessUnavailable),
    }
}

/// A credential hash as it is stored: an opaque PHC string.
pub struct PasswordHash(String);

impl View for PasswordHash {
    type V = Seq<char>;

    closed spec fn view(&self) -> Seq<char> {
        self.0@
    }
}

impl From<String> for PasswordHash {
    /// Takes a stored string as a hash, unchecked.
    fn from(s: String) -> (r: Self)
        ensures
            r@ == s@,
    {
        Self(s)
    }
}

impl FromSpecImpl<String> for PasswordHash {
    open spec fn obeys_from_spec() -> bool {
        true
    }

    closed spec fn from_spec(s: String) -> Self {
        PasswordHash(s)
    }
}

impl<'a> TryFrom<&'a str> for PasswordHash {
    type Error = HashError;

    /// Hashes `plaintext` under a fresh random salt.
    ///
    /// Whatever salt was drawn, a hash that comes back verifies against the
    /// same plaintext.
    fn try_from(plaintext: &'a str) -> (r: Result<Self, HashError>)
        ensures
            r matches Ok(h) ==> accepts(h@, plaintext@) && exists|salt: Seq<u8>|
                salt.len() == 16 && #[trigger] argon2_phc(plaintext@, salt) == Some(h@),
            r matches Err(e) ==> e != HashError::Malformed,
    {
        match fresh_salt() {
            Ok(salt) => Self::with_salt(plaintext, &salt),
            Err(e) => Err(e),
        }
    }
}

/// Hashing draws a salt, so the conversion is no function of the plaintext
/// and obeys no specification as one; what holds of it is stated on
/// `try_from` itself.
impl<'a> TryFromSpecImpl<&'a str> for PasswordHash {
    open spec fn obeys_try_from_spec() -> bool {
        false
    }

    open spec fn try_from_spec(plaintext: &'a str) -> Result<Self, HashError> {
        arbitrary()
    }
}

impl PasswordHash {
    /// Hashes `plaintext` under the given salt.
    ///
    /// The result is a function of the two arguments, and the hash verifies
    /// against the same plaintext.
    pub fn with_salt(plaintext: &str, salt: &[u8; 16]) -> (r: Result<Self, HashError>)
        ensures
            match argon2_phc(plaintext@, salt@) {
                Some(text) => r matches Ok(h) && h@ == text && accepts(text, plaintext@),
                None => r == Err::<Self, HashError>(HashError::HashingFailure),
            },
    {
        match argon2_hash(plaintext, salt) {
            Ok(text) => Ok(Self(text)),
            Err(_) => Err(HashError::HashingFailure),
        }
    }

    /// The stored string.
    pub fn value(&self) -> (r: String)
        ensures
            r@ == self@,
    {
        self.0.clone()
    }

    /// Checks `password` against this hash.
    ///
    /// `Ok(false)` is a mismatch; an error means that the stored string is not
    /// a well-formed hash. The digest is recomputed with the parameters that
    /// the stored string names, so the string sets the cost of the check.
    pub fn verify(&self, password: &String) -> (r: Result<bool, HashError>)
        ensures
            r == verify_spec(self@, password@),
    {
        match argon2_check(self.0.as_str(), password.as_str()) {
            Ok(accepted) => Ok(accepted),
            Err(_) => Err(HashError::Malformed),
        }
    }
}

} // verus!
