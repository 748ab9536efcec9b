//! Reading the bearer token out of an `Authorization` header.

use crate::routes::outcome::Status;
use vstd::prelude::*;

verus! {

/// What a request guard answers: the identity it found, a forward to the next
/// handler, or a failure, the last two with the status to report.
#[derive(Debug, PartialEq, Eq)]
pub enum Guard<T> {
    Success(T),
    Forward(Status),
    Failure(Status),
}

/// Why no token could be taken from a header.
#[derive(Clone, Copy, Debug, PartialEq, Eq, Structural)]
pub enum ExtractError {
    /// The header does not begin with `Bearer `.
    NotBearer,
}

/// A text that may be absent, as a mathematical value.
pub open spec fn text_of(text: Option<&str>) -> Option<Seq<char>> {
    match text {
        Some(t) => Some(t@),
        None => None,
    }
}

/// The scheme word and the one space that precede a bearer token.
pub open spec fn bearer_prefix() -> Seq<char> {
    seq!['B', 'e', 'a', 'r', 'e', 'r', ' ']
}

/// Whether `header` begins with the bearer prefix.
pub open spec fn is_bearer(header: Seq<char>) -> bool {
    header.len() >= 7 && header.subrange(0, 7) == bearer_prefix()
}

/// Takes the token from the value of an `Authorization` header: everything
/// after the leading `Bearer `, untrimmed.
pub fn extract_bearer(header: &str) -> (r: Result<&str, ExtractError>)
    ensures
        is_bearer(header@) ==> (r matches Ok(token) && token@ == header@.subrange(
            7,
            header@.len() as int,
        )),
        !is_bearer(header@) ==> (r matches Err(e) && e == ExtractError::NotBearer),
{
    let n: usize = header.unicode_len();
    if n < 7 {
        return Err(ExtractError::NotBearer);
    }
    if header.get_char(0) == 'B' && header.get_char(1) == 'e' && header.get_char(2) == 'a'
        && header.get_char(3) == 'r' && header.get_char(4) == 'e' && header.get_char(5) == 'r'
        && header.get_char(6) == ' ' {
        assert(header@.subrange(0, 7) =~= bearer_prefix());
        Ok(header.substring_char(7, n))
    } else {
        assert(forall|i: int| 0 <= i < 7 ==> header@.subrange(0, 7)[i] == header@[i]);
        Err(ExtractError::NotBearer)
    }
}

} // verus!
