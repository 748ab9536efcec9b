//! Refresh credentials: a random secret for the client and its hash for the
//! store.
//!
//! A credential is issued at sign-in only. The store keeps one hash per user,
//! so issuing a new credential makes every earlier secret of that user
//! worthless; a credential has no lifetime of its own beyond that.

use crate::crypto::hash::{accepts, argon2_phc, fresh_salt, PasswordHash};
use vstd::prelude::*;

verus! {

/// The error type of `rustls` for a failed draw of random bytes, carried
/// through and never looked into.
#[verifier::external_type_specification]
#[verifier::external_body]
pub struct ExGetRandomFailed(rustls::crypto::GetRandomFailed);

/// Why no refresh credential could be issued.
#[derive(Clone, Copy, Debug, PartialEq, Eq, Structural)]
pub enum RefreshError {
    /// The random number generator gave no bytes, for the secret or its salt.
    RandomnessUnavailable,
    /// The secret could not be hashed.
    HashingFailure,
}

/// The `SameSite` attribute of a cookie.
#[derive(Clone, Copy, Debug, PartialEq, Eq, Structural)]
pub enum SameSite {
    Strict,
    Lax,
    Unrestricted,
}

/// The cookie that carries a refresh secret to the client, as plain values.
#[derive(Debug, PartialEq, Eq)]
pub struct RefreshCookie {
    pub name: String,
    pub value: String,
    pub http_only: bool,
    pub secure: bool,
    pub same_site: SameSite,
    pub path: String,
    pub max_age_days: i64,
}

/// The lower-case hexadecimal digit for a value below sixteen.
pub open spec fn hex_digit(nibble: int) -> char {
    seq!['0', '1', '2', '3', '4', '5', '6', '7', '8', '9', 'a', 'b', 'c', 'd', 'e', 'f'][nibble]
}

/// Two lower-case hexadecimal digits for each byte, the high half first.
pub open spec fn hex_lower(bytes: Seq<u8>) -> Seq<char> {
    Seq::new(
        2 * bytes.len(),
        |i: int|
            if i % 2 == 0 {
                hex_digit(bytes[i / 2] as int / 16)
            } else {
                hex_digit(bytes[i / 2] as int % 16)
            },
    )
}

/// Whether `secret` is the transport form of 256 random bits.
pub open spec fn is_refresh_secret(secret: Seq<char>) -> bool {
    exists|bytes: Seq<u8>| bytes.len() == 32 && #[trigger] hex_lower(bytes) == secret
}

/// Whether `cookie` is scoped as a refresh cookie must be: kept from scripts,
/// sent to the refresh path only, advisory age of thirty days.
pub open spec fn is_scoped(cookie: RefreshCookie) -> bool {
    &&& cookie.name@ == "refresh_token"@
    &&& cookie.http_only
    &&& !cookie.secure
    &&& cookie.same_site == SameSite::Lax
    &&& cookie.path@ == "/refresh"@
    &&& cookie.max_age_days == 30
}

/// Calls `fill` on the `secure_random` of `rustls::crypto::ring::default_provider()`
/// with an array of `N` bytes. Nothing is claimed of the bytes.
#[verifier::external_body]
fn secure_random<const N: usize>() -> (r: Result<[u8; N], rustls::crypto::GetRandomFailed>) {
    let mut bytes = [0u8; N];
    rustls::crypto::ring::default_provider().secure_random.fill(&mut bytes)?;
    Ok(bytes)
}

/// Calls `hex::encode`, which writes each byte as two lower-case hexadecimal
/// digits, the high half first.
#[verifier::external_body]
fn hex_encode(bytes: &[u8]) -> (r: String)
    ensures
        r@ == hex_lower(bytes@),
{
    hex::encode(bytes)
}

/// The cookie for a refresh secret.
pub fn refresh_cookie(secret: String) -> (cookie: RefreshCookie)
    ensures
        cookie.value@ == secret@,
        is_scoped(cookie),
{
    RefreshCookie {
        name: "refresh_token".to_owned(),
        value: secret,
        http_only: true,
        secure: false,
        same_site: SameSite::Lax,
        path: "/refresh".to_owned(),
        max_age_days: 30,
    }
}

/// Makes the credential for the given random bytes and salt: the cookie with
/// the bytes in hexadecimal, and the hash of that text for the store.
///
/// The result is a function of the two arguments. It fails only where the
/// text cannot be hashed, and a hash that comes back accepts the cookie's
/// value.
pub fn create_refresh_from(bytes: &[u8; 32], salt: &[u8; 16]) -> (r: Result<
    (RefreshCookie, String),
    RefreshError,
>)
    ensures
        made_from(r, bytes@, salt@),
{
    let secret = hex_encode(bytes.as_slice());
    match PasswordHash::with_salt(secret.as_str(), salt) {
        Ok(hash) => Ok((refresh_cookie(secret), hash.value())),
        Err(_) => Err(RefreshError::HashingFailure),
    }
}

/// Issues a refresh credential: draws 256 random bits and a salt, and returns
/// the cookie for the client and the hash for the store.
///
/// Only the generators decide whether anything is issued. Whatever they gave,
/// the result is the one that the drawn bytes and salt make: the cookie's
/// value is sixty-four hexadecimal digits and the hash verifies against it.
pub fn create_refresh() -> (r: Result<(RefreshCookie, String), RefreshError>)
    ensures
        issued_from_some_draw(r),
        r matches Ok(issued) ==> is_refresh_secret(issued.0.value@) && is_scoped(issued.0)
            && accepts(issued.1@, issued.0.value@),
{
    match secure_random::<32>() {
        Err(_) => Err(RefreshError::RandomnessUnavailable),
        Ok(bytes) => match fresh_salt() {
            Err(_) => Err(RefreshError::RandomnessUnavailable),
            Ok(salt) => {
                let issued = create_refresh_from(&bytes, &salt);
                assert(bytes@.len() == 32 && salt@.len() == 16);
                assert(made_from(issued, bytes@, salt@));
                assert(issued is Ok ==> is_refresh_secret(hex_lower(bytes@)));
                issued
            },
        },
    }
}

/// Whether `r` is the credential that `bytes` and `salt` make: the scoped
/// cookie with the bytes in hexadecimal, and the hash of that text under the
/// salt, which accepts it; or `HashingFailure` where the text cannot be hashed.
pub open spec fn made_from(
    r: Result<(RefreshCookie, String), RefreshError>,
    bytes: Seq<u8>,
    salt: Seq<u8>,
) -> bool {
    match argon2_phc(hex_lower(bytes), salt) {
        Some(hash) => {
            &&& r matches Ok(issued)
            &&& issued.0.value@ == hex_lower(bytes)
            &&& is_scoped(issued.0)
            &&& issued.1@ == hash
            &&& accepts(hash, issued.0.value@)
        },
        None => r matches Err(e) && e == RefreshError::HashingFailure,
    }
}

/// Whether `r` is what issuing a credential may yield: `RandomnessUnavailable`
/// where a generator gave nothing, else the credential that some thirty-two
/// bytes and some salt of sixteen make.
pub open spec fn issued_from_some_draw(r: Result<(RefreshCookie, String), RefreshError>) -> bool {
    ||| r matches Err(e) && e == RefreshError::RandomnessUnavailable
    ||| exists|bytes: Seq<u8>, salt: Seq<u8>|
        bytes.len() == 32 && salt.len() == 16 && #[trigger] made_from(r, bytes, salt)
}

/// Checks a presented secret against the stored hash of a refresh credential.
/// A stored string that is no hash matches nothing.
pub fn verify_refresh(stored_hash: &str, presented: &str) -> (r: bool)
    ensures
        r == accepts(stored_hash@, presented@),
{
    let hash = PasswordHash::from(stored_hash.to_owned());
    match hash.verify(&presented.to_owned()) {
        Ok(accepted) => accepted,
        Err(_) => false,
    }
}

/// A refresh secret is sixty-four characters long, each a lower-case
/// hexadecimal digit.
pub proof fn lemma_refresh_secret_shape(secret: Seq<char>)
    requires
        is_refresh_secret(secret),
    ensures
        secret.len() == 64,
        forall|i: int|
            0 <= i < 64 ==> ('0' <= #[trigger] secret[i] <= '9') || ('a' <= secret[i] <= 'f'),
{
    let bytes = choose|bytes: Seq<u8>| bytes.len() == 32 && #[trigger] hex_lower(bytes) == secret;
    assert forall|i: int| 0 <= i < 64 implies ('0' <= #[trigger] secret[i] <= '9') || ('a'
        <= secret[i] <= 'f') by {
        let b = bytes[i / 2] as int;
        assert(0 <= b / 16 < 16 && 0 <= b % 16 < 16);
        assert(secret[i] == hex_lower(bytes)[i]);
    }
}

} // verus!
