//! Signed, time-bounded access tokens.
//!
//! A token carries its claims in the clear and a signature over them under a
//! symmetric secret. Decoding trusts no claim before the signature has been
//! checked, and tells a token that is merely past its expiry from one that
//! is forged or broken: the refresh flow needs the former to learn who asks.

use crate::crypto::config::JwtConfig;
use jsonwebtoken::{Algorithm, DecodingKey, EncodingKey, Header, Validation};
use vstd::prelude::*;

verus! {

/// The error type of the `jsonwebtoken` crate, carried through and never
/// looked into.
#[verifier::external_type_specification]
#[verifier::external_body]
pub struct ExJwtError(jsonwebtoken::errors::Error);

/// The compact token that `jsonwebtoken::encode` gives for the default header
/// and the three claims under `secret`, or `None` where it fails.
pub uninterp spec fn hs256_token(
    secret: Seq<char>,
    user_id: int,
    username: Seq<char>,
    exp: int,
) -> Option<Seq<char>>;

/// What `jsonwebtoken::decode` finds in `token` under `secret` when it is told
/// to accept HS256 and to leave expiry alone: `None` where it rejects the
/// token, else the three claims, each as far as it is present with the right
/// JSON type.
pub uninterp spec fn hs256_claims(secret: Seq<char>, token: Seq<char>) -> Option<
    (Option<int>, Option<Seq<char>>, Option<int>),
>;

/// The signature segment that `jsonwebtoken::crypto::sign` computes for
/// `message` under `secret` with HS256.
pub uninterp spec fn hs256_signature(secret: Seq<char>, message: Seq<char>) -> Seq<char>;

/// The claim set of an access token.
#[derive(Debug, PartialEq, Eq)]
pub struct Claims {
    pub user_id: i64,
    pub username: String,
    pub exp: i64,
}

/// A claim set as a mathematical value.
pub struct ClaimsView {
    pub user_id: int,
    pub username: Seq<char>,
    pub exp: int,
}

impl View for Claims {
    type V = ClaimsView;

    open spec fn view(&self) -> ClaimsView {
        ClaimsView { user_id: self.user_id as int, username: self.username@, exp: self.exp as int }
    }
}

/// What a correctly signed token says of itself at some moment.
#[derive(Debug, PartialEq, Eq)]
pub enum JwtStatus {
    /// The expiry lies ahead.
    Valid(Claims),
    /// The expiry has been reached; the claims still name the user.
    Expired(Claims),
}

/// A token status as a mathematical value.
pub enum JwtStatusView {
    Valid(ClaimsView),
    Expired(ClaimsView),
}

impl View for JwtStatus {
    type V = JwtStatusView;

    open spec fn view(&self) -> JwtStatusView {
        match self {
            JwtStatus::Valid(c) => JwtStatusView::Valid(c@),
            JwtStatus::Expired(c) => JwtStatusView::Expired(c@),
        }
    }
}

impl JwtStatus {
    /// The claims, whichever the status.
    pub fn claims(&self) -> (r: &Claims)
        ensures
            r@ == claims_of(self@),
    {
        match self {
            JwtStatus::Valid(c) => c,
            JwtStatus::Expired(c) => c,
        }
    }
}

/// The claims inside a status.
pub open spec fn claims_of(status: JwtStatusView) -> ClaimsView {
    match status {
        JwtStatusView::Valid(c) => c,
        JwtStatusView::Expired(c) => c,
    }
}

/// Why a token could not be issued or accepted.
#[derive(Clone, Copy, Debug, PartialEq, Eq, Structural)]
pub enum JwtError {
    /// The signature does not match, or the token is structurally broken.
    TokenInvalid,
    /// The expiry, issue time plus lifetime, does not fit the claim's integer.
    ExpiryOutOfRange,
    /// The signing library failed.
    SigningFailed,
}

/// The claims of a decoded token as the signing library handed them over:
/// a claim is `None` where the token lacks it or holds it with another type.
#[derive(Debug, PartialEq, Eq)]
pub struct RawClaims {
    pub user_id: Option<i64>,
    pub username: Option<String>,
    pub exp: Option<i64>,
}

impl View for RawClaims {
    type V = (Option<int>, Option<Seq<char>>, Option<int>);

    open spec fn view(&self) -> (Option<int>, Option<Seq<char>>, Option<int>) {
        (
            match self.user_id {
                Some(id) => Some(id as int),
                None => None,
            },
            match self.username {
                Some(name) => Some(name@),
                None => None,
            },
            match self.exp {
                Some(exp) => Some(exp as int),
                None => None,
            },
        )
    }
}

/// Whether `token` has two dots and no more, at positions `i` and `j`: they
/// part the header, the payload and the signature.
pub open spec fn dots_at(token: Seq<char>, i: int, j: int) -> bool {
    &&& 0 <= i < j < token.len()
    &&& token[i] == '.'
    &&& token[j] == '.'
    &&& forall|k: int| 0 <= k < token.len() && k != i && k != j ==> token[k] != '.'
}

/// Whether `token` is made of three segments, the last of which is the
/// signature, under `secret`, of what precedes the second dot.
pub open spec fn authentic(secret: Seq<char>, token: Seq<char>) -> bool {
    exists|i: int, j: int| #[trigger]
        dots_at(token, i, j) && token.subrange(j + 1, token.len() as int) == hs256_signature(
            secret,
            token.subrange(0, j),
        )
}

/// The complete claim set that raw claims amount to, if all three are there.
pub open spec fn complete(raw: (Option<int>, Option<Seq<char>>, Option<int>)) -> Option<
    ClaimsView,
> {
    match raw {
        (Some(user_id), Some(username), Some(exp)) => Some(ClaimsView { user_id, username, exp }),
        _ => None,
    }
}

/// The claims that `token` may be trusted to carry under `secret`: none unless
/// the signature is right and the claim set is complete.
pub open spec fn trusted_claims(secret: Seq<char>, token: Seq<char>) -> Option<ClaimsView> {
    if !authentic(secret, token) {
        None
    } else {
        match hs256_claims(secret, token) {
            Some(raw) => complete(raw),
            None => None,
        }
    }
}

/// The status of trusted claims at time `now`: expired from the expiry on.
pub open spec fn status_at(claims: ClaimsView, now: int) -> JwtStatusView {
    if claims.exp <= now {
        JwtStatusView::Expired(claims)
    } else {
        JwtStatusView::Valid(claims)
    }
}

/// What decoding `token` under `secret` at time `now` yields.
pub open spec fn token_status(secret: Seq<char>, token: Seq<char>, now: int) -> Result<
    JwtStatusView,
    JwtError,
> {
    match trusted_claims(secret, token) {
        Some(claims) => Ok(status_at(claims, now)),
        None => Err(JwtError::TokenInvalid),
    }
}

/// Whether a decoding result `r` is the outcome `expected`.
pub open spec fn is_outcome(
    r: Result<JwtStatus, JwtError>,
    expected: Result<JwtStatusView, JwtError>,
) -> bool {
    match expected {
        Ok(status) => r matches Ok(s) && s@ == status,
        Err(e) => r matches Err(f) && f == e,
    }
}

/// Calls `chrono::Utc::now().timestamp()`. Claims only that the seconds are
/// counted from the Unix epoch onward: `Utc::now` takes the system time as a
/// duration since the epoch, and panics on a clock that stands before it.
#[verifier::external_body]
fn unix_now() -> (now: i64)
    ensures
        now >= 0,
{
    chrono::Utc::now().timestamp()
}

/// Calls `jsonwebtoken::encode` with `Header::default()`, the three claims as a
/// JSON object in the order `user_id`, `username`, `exp`, and
/// `EncodingKey::from_secret`. Claims that the outcome is a function of the
/// arguments; that the token is three segments of base64url text, which holds
/// no dot, joined by two dots, the third being the signature of the first two
/// with their dot; and that, where `exp` is not negative, `jsonwebtoken::decode`
/// under the same secret finds the same three claims in it (a negative `exp` it
/// refuses as missing).
#[verifier::external_body]
fn hs256_encode(secret: &str, user_id: i64, username: &str, exp: i64) -> (r: Result<
    String,
    jsonwebtoken::errors::Error,
>)
    ensures
        match r {
            Ok(t) => hs256_token(secret@, user_id as int, username@, exp as int) == Some(t@),
            Err(_) => hs256_token(secret@, user_id as int, username@, exp as int) is None,
        },
        r matches Ok(t) ==> exists|i: int, j: int| #[trigger]
            dots_at(t@, i, j) && t@.subrange(j + 1, t@.len() as int) == hs256_signature(
                secret@,
                t@.subrange(0, j),
            ),
        r matches Ok(t) ==> exp >= 0 ==> hs256_claims(secret@, t@) == Some(
            (Some(user_id as int), Some(username@), Some(exp as int)),
        ),
{
    let mut claims = serde_json::Map::new();
    claims.insert("user_id".to_owned(), user_id.into());
    claims.insert("username".to_owned(), username.into());
    claims.insert("exp".to_owned(), exp.into());
    jsonwebtoken::encode(&Header::default(), &claims, &EncodingKey::from_secret(secret.as_bytes()))
}

/// Calls `jsonwebtoken::decode` with `DecodingKey::from_secret` and a
/// `Validation` for HS256 whose `validate_exp` is off, then reads the three
/// claims with `Value::as_i64` and `Value::as_str`. Claims that the outcome is
/// a function of the arguments, and that a token is accepted only if it has
/// exactly two dots and what follows the second is the signature of what
/// precedes it: `decode` splits at the last dot, compares what follows with
/// what `crypto::sign` gives for the rest, splits the rest at its last dot and
/// refuses a header that is not base64url text.
#[verifier::external_body]
fn hs256_decode(secret: &str, token: &str) -> (r: Result<RawClaims, jsonwebtoken::errors::Error>)
    ensures
        match r {
            Ok(raw) => hs256_claims(secret@, token@) == Some(raw@),
            Err(_) => hs256_claims(secret@, token@) is None,
        },
        r is Ok ==> exists|i: int, j: int| #[trigger]
            dots_at(token@, i, j) && token@.subrange(j + 1, token@.len() as int)
                == hs256_signature(secret@, token@.subrange(0, j)),
{
    let mut validation = Validation::new(Algorithm::HS256);
    validation.validate_exp = false;
    let key = DecodingKey::from_secret(secret.as_bytes());
    let claims = jsonwebtoken::decode::<serde_json::Value>(token, &key, &validation)?.claims;
    Ok(RawClaims {
        user_id: claims["user_id"].as_i64(),
        username: claims["username"].as_str().map(str::to_owned),
        exp: claims["exp"].as_i64(),
    })
}

/// Sorts raw claims by the clock: an incomplete claim set is no token at all,
/// a complete one is expired from its expiry on and valid before.
pub fn classify(raw: RawClaims, now: i64) -> (r: Result<JwtStatus, JwtError>)
    ensures
        match complete(raw@) {
            Some(claims) => r matches Ok(s) && s@ == status_at(claims, now as int),
            None => r matches Err(e) && e == JwtError::TokenInvalid,
        },
{
    match (raw.user_id, raw.username, raw.exp) {
        (Some(user_id), Some(username), Some(exp)) => {
            let claims = Claims { user_id, username, exp };
            if exp <= now {
                Ok(JwtStatus::Expired(claims))
            } else {
                Ok(JwtStatus::Valid(claims))
            }
        },
        _ => Err(JwtError::TokenInvalid),
    }
}

/// Whether `r` is what issuing a token for the user at time `now` yields: an
/// error where the expiry overflows or the signing library fails, otherwise
/// the token for the claims with the expiry one lifetime after `now`. That
/// token is correctly signed and, unless its expiry is negative, carries
/// exactly these claims.
pub open spec fn issues(
    r: Result<String, JwtError>,
    secret: Seq<char>,
    lifetime: int,
    user_id: int,
    username: Seq<char>,
    now: int,
) -> bool {
    let exp = now + lifetime;
    if exp > i64::MAX {
        r matches Err(e) && e == JwtError::ExpiryOutOfRange
    } else {
        match hs256_token(secret, user_id, username, exp) {
            Some(token) => {
                &&& r matches Ok(t) && t@ == token
                &&& authentic(secret, token)
                &&& exp >= 0 ==> trusted_claims(secret, token) == Some(
                    ClaimsView { user_id, username, exp },
                )
            },
            None => r matches Err(e) && e == JwtError::SigningFailed,
        }
    }
}

/// Issues a token for the user at time `now`, to expire one lifetime later.
pub fn create_jwt_at(config: &JwtConfig, username: String, user_id: i64, now: i64) -> (r: Result<
    String,
    JwtError,
>)
    ensures
        issues(
            r,
            config.spec_secret(),
            config.spec_expire_time(),
            user_id as int,
            username@,
            now as int,
        ),
{
    let lifetime: i64 = config.expire_time();
    match now.checked_add(lifetime) {
        None => Err(JwtError::ExpiryOutOfRange),
        Some(exp) => match hs256_encode(config.secret(), user_id, username.as_str(), exp) {
            Ok(token) => Ok(token),
            Err(_) => Err(JwtError::SigningFailed),
        },
    }
}

/// Decodes `token` as of time `now`.
///
/// The signature is checked first and the expiry is never a reason to reject:
/// a correctly signed token comes back as `Valid` or `Expired` with its
/// claims, anything else as `TokenInvalid`.
pub fn decode_jwt_at(config: &JwtConfig, token: &str, now: i64) -> (r: Result<JwtStatus, JwtError>)
    ensures
        is_outcome(r, token_status(config.spec_secret(), token@, now as int)),
{
    match hs256_decode(config.secret(), token) {
        Ok(raw) => classify(raw, now),
        Err(_) => Err(JwtError::TokenInvalid),
    }
}

/// Issues a token for the user, to expire one lifetime from the present.
///
/// The present is never before the Unix epoch, so the expiry of a token that
/// comes back is positive, and the token carries exactly the user's claims
/// with that expiry.
pub fn create_jwt(config: &JwtConfig, username: String, user_id: i64) -> (r: Result<
    String,
    JwtError,
>)
    ensures
        exists|now: int|
            now >= 0 && #[trigger] issues(
                r,
                config.spec_secret(),
                config.spec_expire_time(),
                user_id as int,
                username@,
                now,
            ),
{
    let now: i64 = unix_now();
    create_jwt_at(config, username, user_id, now)
}

/// Decodes `token` as of the present.
pub fn decode_jwt(config: &JwtConfig, token: &str) -> (r: Result<JwtStatus, JwtError>)
    ensures
        exists|now: int|
            now >= 0 && is_outcome(r, #[trigger] token_status(config.spec_secret(), token@, now)),
{
    let now: i64 = unix_now();
    decode_jwt_at(config, token, now)
}

/// A token that carries trusted claims is valid at every moment before their
/// expiry.
pub proof fn lemma_valid_before_expiry(
    secret: Seq<char>,
    token: Seq<char>,
    claims: ClaimsView,
    now: int,
)
    requires
        trusted_claims(secret, token) == Some(claims),
        now < claims.exp,
    ensures
        token_status(secret, token, now) == Ok::<JwtStatusView, JwtError>(
            JwtStatusView::Valid(claims),
        ),
{
}

/// From its expiry on, a token that carries trusted claims is expired, with
/// the same claims, and never invalid.
pub proof fn lemma_expired_from_expiry(
    secret: Seq<char>,
    token: Seq<char>,
    claims: ClaimsView,
    now: int,
)
    requires
        trusted_claims(secret, token) == Some(claims),
        now >= claims.exp,
    ensures
        token_status(secret, token, now) == Ok::<JwtStatusView, JwtError>(
            JwtStatusView::Expired(claims),
        ),
{
}

/// The two dots of a token are in one place only.
pub proof fn lemma_dots_unique(token: Seq<char>, i: int, j: int, k: int, m: int)
    requires
        dots_at(token, i, j),
        dots_at(token, k, m),
    ensures
        i == k,
        j == m,
{
}

/// Changing the signature segment of a correctly signed token in any way,
/// while everything up to its second dot stays, gives a token that decodes as
/// invalid at every moment.
pub proof fn lemma_altered_signature_is_invalid(
    secret: Seq<char>,
    token: Seq<char>,
    forged: Seq<char>,
    i: int,
    j: int,
    now: int,
)
    requires
        authentic(secret, token),
        dots_at(token, i, j),
        forged.len() > j,
        forged.subrange(0, j + 1) == token.subrange(0, j + 1),
        forged != token,
    ensures
        !authentic(secret, forged),
        token_status(secret, forged, now) == Err::<JwtStatusView, JwtError>(JwtError::TokenInvalid),
{
    if authentic(secret, forged) {
        let (k, m) = choose|k: int, m: int| #[trigger]
            dots_at(forged, k, m) && forged.subrange(m + 1, forged.len() as int)
                == hs256_signature(secret, forged.subrange(0, m));
        let (a, b) = choose|a: int, b: int| #[trigger]
            dots_at(token, a, b) && token.subrange(b + 1, token.len() as int) == hs256_signature(
                secret,
                token.subrange(0, b),
            );
        lemma_dots_unique(token, a, b, i, j);
        assert forall|p: int| 0 <= p <= j implies forged[p] == token[p] by {
            assert(forged[p] == forged.subrange(0, j + 1)[p]);
            assert(token[p] == token.subrange(0, j + 1)[p]);
        }
        assert(forged[i] == '.' && forged[j] == '.');
        assert(k == i && m == j);
        assert(forged.subrange(0, j) =~= token.subrange(0, j));
        let tail = hs256_signature(secret, token.subrange(0, j));
        let forged_tail = forged.subrange(j + 1, forged.len() as int);
        let token_tail = token.subrange(j + 1, token.len() as int);
        assert(forged_tail == tail && token_tail == tail);
        assert(forged_tail.len() == forged.len() - j - 1);
        assert(token_tail.len() == token.len() - j - 1);
        assert(forged.len() == token.len());
        assert forall|p: int| j < p < token.len() implies forged[p] == token[p] by {
            assert(forged[p] == forged_tail[p - j - 1]);
            assert(token[p] == token_tail[p - j - 1]);
        }
        assert(forged =~= token);
    }
}

} // verus!
