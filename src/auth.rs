use crate::text::{same_text, trim, trimmed_of};
use vstd::prelude::*;

verus! {

/// Why a request is not authorised.
#[derive(Clone, Copy, Debug, PartialEq, Eq, Structural)]
pub enum AuthError {
    /// There is no `Authorization` header.
    NoAuthHeader,
    /// The header is not visible ASCII text.
    AuthHeaderInvalid,
    /// The header does not start with `Bearer`.
    NotBearer,
    /// The header could not be split after `Bearer`; a header that starts
    /// with `Bearer` always can, so this is not returned.
    AuthKeySplitError,
    /// The key does not match.
    InvalidKey,
}

/// The key that a header starting with `Bearer` carries: the rest of it,
/// trimmed.
pub open spec fn bearer_key(h: Seq<char>) -> Seq<char> {
    trimmed_of(h.subrange(6, h.len() as int))
}

/// Whether `h` starts with `Bearer`.
pub open spec fn is_bearer(h: Seq<char>) -> bool {
    h.len() >= 6 && h.subrange(0, 6) == "Bearer"@
}

/// Checks the `Authorization` header of a request against the secret key.
/// `header` is `None` where the request has no such header, and `Some(None)`
/// where its value is not visible ASCII text.
pub fn check_user_auth(header: Option<Option<&str>>, secret_key: &str) -> (r: Result<(), AuthError>)
    ensures
        header is None ==> r is Err && r->Err_0 == AuthError::NoAuthHeader,
        header matches Some(v) && v is None ==> r is Err && r->Err_0 == AuthError::AuthHeaderInvalid,
        header matches Some(v) && v matches Some(h) && !is_bearer(h@)
            ==> r is Err && r->Err_0 == AuthError::NotBearer,
        header matches Some(v) && v matches Some(h) && is_bearer(h@) && bearer_key(h@) != secret_key@
            ==> r is Err && r->Err_0 == AuthError::InvalidKey,
        header matches Some(v) && v matches Some(h) && is_bearer(h@) && bearer_key(h@) == secret_key@
            ==> r is Ok,
{
    let h = match header {
        None => {
            return Err(AuthError::NoAuthHeader);
        },
        Some(None) => {
            return Err(AuthError::AuthHeaderInvalid);
        },
        Some(Some(h)) => h,
    };
    proof {
        reveal_strlit("Bearer");
    }
    let n = h.unicode_len();
    if n < 6 {
        return Err(AuthError::NotBearer);
    }
    let head = h.substring_char(0, 6);
    if !same_text(head, "Bearer") {
        return Err(AuthError::NotBearer);
    }
    let rest = h.substring_char(6, n);
    let key = trim(rest);
    if !same_text(key.as_str(), secret_key) {
        return Err(AuthError::InvalidKey);
    }
    Ok(())
}

} // verus!
