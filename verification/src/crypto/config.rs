//! The configuration of the token issuer: the signing secret and the token
//! lifetime, read once at start-up and never again.

use vstd::prelude::*;

verus! {

/// Why a configuration was refused. Each is fatal at start-up.
#[derive(Clone, Copy, Debug, PartialEq, Eq, Structural)]
pub enum ConfigError {
    /// No signing secret was given.
    SecretMissing,
    /// No token lifetime was given.
    LifetimeMissing,
    /// The token lifetime is not a decimal integer of sixty-four bits.
    LifetimeNotInteger,
    /// The token lifetime is zero or negative.
    LifetimeNotPositive,
}

/// The magnitude of the least integer of sixty-four bits, one more than that
/// of the greatest.
pub const MAGNITUDE_LIMIT: u128 = 9223372036854775808;

/// Whether `c` is a decimal digit.
pub open spec fn is_digit(c: char) -> bool {
    '0' <= c <= '9'
}

/// Whether `s` holds decimal digits only.
pub open spec fn all_digits(s: Seq<char>) -> bool {
    forall|i: int| 0 <= i < s.len() ==> is_digit(#[trigger] s[i])
}

/// The number that a string of decimal digits writes.
pub open spec fn decimal_value(digits: Seq<char>) -> int
    decreases digits.len(),
{
    if digits.len() == 0 {
        0
    } else {
        10 * decimal_value(digits.drop_last()) + (digits.last() as int - '0' as int)
    }
}

/// What follows the sign of `text`, or all of it where it has none.
pub open spec fn unsigned_part(text: Seq<char>) -> Seq<char> {
    if text.len() > 0 && (text[0] == '-' || text[0] == '+') {
        text.subrange(1, text.len() as int)
    } else {
        text
    }
}

/// The integer that `text` writes in decimal: an optional `+` or `-`, then one
/// digit at least and nothing else.
pub open spec fn signed_decimal(text: Seq<char>) -> Option<int> {
    let digits = unsigned_part(text);
    if digits.len() == 0 || !all_digits(digits) {
        None
    } else if text[0] == '-' {
        Some(-decimal_value(digits))
    } else {
        Some(decimal_value(digits))
    }
}

/// The integer that `text` writes in decimal, where it fits sixty-four bits.
pub open spec fn decimal_i64(text: Seq<char>) -> Option<i64> {
    match signed_decimal(text) {
        Some(value) => if i64::MIN <= value <= i64::MAX {
            Some(value as i64)
        } else {
            None
        },
        None => None,
    }
}

/// A string of digits writes no negative number.
pub proof fn lemma_decimal_value_nonnegative(digits: Seq<char>)
    requires
        all_digits(digits),
    ensures
        0 <= decimal_value(digits),
    decreases digits.len(),
{
    if digits.len() > 0 {
        assert(is_digit(digits[digits.len() - 1]));
        lemma_decimal_value_nonnegative(digits.drop_last());
    }
}

/// A string of digits writes no less than any of its beginnings does.
pub proof fn lemma_decimal_value_grows(digits: Seq<char>, k: int)
    requires
        all_digits(digits),
        0 <= k <= digits.len(),
    ensures
        0 <= decimal_value(digits.take(k)) <= decimal_value(digits),
    decreases digits.len() - k,
{
    if k == digits.len() {
        assert(digits.take(k) =~= digits);
        lemma_decimal_value_nonnegative(digits);
    } else {
        lemma_decimal_value_grows(digits, k + 1);
        let longer = digits.take(k + 1);
        assert(longer.drop_last() =~= digits.take(k));
        assert(is_digit(digits[k]));
        assert(longer.last() == digits[k]);
        lemma_decimal_value_nonnegative(digits.take(k));
    }
}

/// Reads a decimal integer of sixty-four bits: an optional sign, then digits
/// only. Blanks, an empty string, a sign alone and a number out of range are
/// all refused.
pub fn parse_i64(text: &str) -> (r: Option<i64>)
    ensures
        r == decimal_i64(text@),
{
    let n: usize = text.unicode_len();
    if n == 0 {
        return None;
    }
    let first = text.get_char(0);
    let negative = first == '-';
    let start: usize = if first == '-' || first == '+' {
        1
    } else {
        0
    };
    if start == n {
        return None;
    }
    let ghost digits = unsigned_part(text@);
    assert(digits =~= text@.subrange(start as int, n as int));
    let mut magnitude: u128 = 0;
    let mut i: usize = start;
    while i < n
        invariant
            start <= i <= n,
            n == text@.len(),
            digits == text@.subrange(start as int, n as int),
            digits == unsigned_part(text@),
            all_digits(digits.take(i - start)),
            magnitude == decimal_value(digits.take(i - start)),
            magnitude <= MAGNITUDE_LIMIT,
        decreases n - i,
    {
        let c = text.get_char(i);
        if c < '0' || c > '9' {
            assert(!is_digit(digits[i - start]));
            return None;
        }
        let digit: u128 = (c as u32 - '0' as u32) as u128;
        let ghost before = digits.take(i - start);
        let ghost after = digits.take(i + 1 - start);
        assert(after.drop_last() =~= before);
        assert(after.last() == c);
        magnitude = magnitude * 10 + digit;
        if magnitude > MAGNITUDE_LIMIT {
            proof {
                if all_digits(digits) {
                    lemma_decimal_value_grows(digits, i + 1 - start);
                }
            }
            return None;
        }
        i = i + 1;
    }
    assert(digits.take(n - start) =~= digits);
    if negative {
        if magnitude == MAGNITUDE_LIMIT {
            Some(i64::MIN)
        } else {
            Some(-(magnitude as i64))
        }
    } else if magnitude < MAGNITUDE_LIMIT {
        Some(magnitude as i64)
    } else {
        None
    }
}

/// The secret and the lifetime that the two settings amount to, or what is
/// wrong with them first: a missing secret, a missing lifetime, a lifetime
/// that is no integer, one that is not positive.
pub open spec fn settings(private_key: Option<String>, expire_time: Option<String>) -> Result<
    (Seq<char>, int),
    ConfigError,
> {
    match (private_key, expire_time) {
        (None, _) => Err(ConfigError::SecretMissing),
        (Some(_), None) => Err(ConfigError::LifetimeMissing),
        (Some(key), Some(text)) => match decimal_i64(text@) {
            None => Err(ConfigError::LifetimeNotInteger),
            Some(seconds) => if seconds > 0 {
                Ok((key@, seconds as int))
            } else {
                Err(ConfigError::LifetimeNotPositive)
            },
        },
    }
}

/// The signing secret and the lifetime of an access token, fixed at start-up.
pub struct JwtConfig {
    secret: String,
    expire_time: i64,
}

impl JwtConfig {
    #[verifier::type_invariant]
    spec fn positive_lifetime(self) -> bool {
        self.expire_time > 0
    }

    /// The signing secret.
    pub closed spec fn spec_secret(&self) -> Seq<char> {
        self.secret@
    }

    /// The token lifetime in seconds.
    pub closed spec fn spec_expire_time(&self) -> int {
        self.expire_time as int
    }

    /// Takes the secret as it stands and a lifetime in seconds, which must be
    /// positive.
    pub fn new(secret: String, expire_time: i64) -> (r: Result<Self, ConfigError>)
        ensures
            expire_time > 0 ==> (r matches Ok(c) && c.spec_secret() == secret@
                && c.spec_expire_time() == expire_time),
            expire_time <= 0 ==> (r matches Err(e) && e == ConfigError::LifetimeNotPositive),
    {
        if expire_time > 0 {
            Ok(JwtConfig { secret, expire_time })
        } else {
            Err(ConfigError::LifetimeNotPositive)
        }
    }

    /// Makes the configuration from the two settings as they were found:
    /// either may be missing, and the lifetime is still text.
    pub fn from_vars(private_key: Option<String>, expire_time: Option<String>) -> (r: Result<
        Self,
        ConfigError,
    >)
        ensures
            match settings(private_key, expire_time) {
                Ok(found) => r matches Ok(c) && c.spec_secret() == found.0 && c.spec_expire_time()
                    == found.1,
                Err(e) => r matches Err(f) && f == e,
            },
    {
        match private_key {
            None => Err(ConfigError::SecretMissing),
            Some(key) => match expire_time {
                None => Err(ConfigError::LifetimeMissing),
                Some(text) => match parse_i64(text.as_str()) {
                    None => Err(ConfigError::LifetimeNotInteger),
                    Some(seconds) => Self::new(key, seconds),
                },
            },
        }
    }

    /// The signing secret.
    pub fn secret(&self) -> (r: &str)
        ensures
            r@ == self.spec_secret(),
    {
        self.secret.as_str()
    }

    /// The token lifetime in seconds, always positive.
    pub fn expire_time(&self) -> (r: i64)
        ensures
            r == self.spec_expire_time(),
            r > 0,
    {
        proof {
            use_type_invariant(self);
        }
        self.expire_time
    }
}

impl ConfigError {
    /// The message that tells the operator what is wrong.
    pub open spec fn spec_message(self) -> Seq<char> {
        match self {
            ConfigError::SecretMissing => "JWT_PRIVATE_KEY is not set in .env"@,
            ConfigError::LifetimeMissing => "JWT_EXPIRE_TIME is not set in .env"@,
            ConfigError::LifetimeNotInteger => "JWT_EXPIRE_TIME is not an i64 integer in .env"@,
            ConfigError::LifetimeNotPositive => "JWT_EXPIRE_TIME is not positive in .env"@,
        }
    }

    /// The message that tells the operator what is wrong.
    pub fn message(&self) -> (r: &'static str)
        ensures
            r@ == self.spec_message(),
    {
        match self {
            ConfigError::SecretMissing => "JWT_PRIVATE_KEY is not set in .env",
            ConfigError::LifetimeMissing => "JWT_EXPIRE_TIME is not set in .env",
            ConfigError::LifetimeNotInteger => "JWT_EXPIRE_TIME is not an i64 integer in .env",
            ConfigError::LifetimeNotPositive => "JWT_EXPIRE_TIME is not positive in .env",
        }
    }
}

} // verus!
