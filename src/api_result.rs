use vstd::prelude::*;

verus! {

/// The outcome of an API call: a success with its data, or an error with a
/// message and, optionally, data.
#[derive(Clone, Debug, PartialEq, Eq)]
pub enum ApiResult<S, M, E> {
    Success(S),
    Error(M, Option<E>),
}

impl<S, M, E> ApiResult<S, M, E> {
    /// A success for `Ok`; an error with message and data for `Err`.
    pub fn new(res: Result<S, (M, E)>) -> (r: ApiResult<S, M, E>)
        ensures
            res matches Ok(s) ==> r is Success && r->Success_0 == s,
            res matches Err(e) ==> r is Error && r->Error_0 == e.0 && r->Error_1 == Some(e.1),
    {
        match res {
            Ok(s) => ApiResult::Success(s),
            Err(e) => ApiResult::Error(e.0, Some(e.1)),
        }
    }

    /// A success for `Ok`; an error with only a message for `Err`.
    pub fn new_msg(res: Result<S, M>) -> (r: ApiResult<S, M, E>)
        ensures
            res matches Ok(s) ==> r is Success && r->Success_0 == s,
            res matches Err(m) ==> r is Error && r->Error_0 == m && r->Error_1 is None,
    {
        match res {
            Ok(s) => ApiResult::Success(s),
            Err(m) => ApiResult::Error(m, None),
        }
    }

    /// A success with `body`.
    pub fn success(body: S) -> (r: ApiResult<S, M, E>)
        ensures
            r is Success && r->Success_0 == body,
    {
        ApiResult::Success(body)
    }

    /// An error with a message and data.
    pub fn error(message: M, body: E) -> (r: ApiResult<S, M, E>)
        ensures
            r is Error && r->Error_0 == message && r->Error_1 == Some(body),
    {
        ApiResult::Error(message, Some(body))
    }

    /// An error with only a message.
    pub fn error_msg(message: M) -> (r: ApiResult<S, M, E>)
        ensures
            r is Error && r->Error_0 == message && r->Error_1 is None,
    {
        ApiResult::Error(message, None)
    }

    /// A success of a call that cannot fail.
    pub fn known_success(body: S) -> (r: ApiResult<S, (), ()>)
        ensures
            r is Success && r->Success_0 == body,
    {
        ApiResult::Success(body)
    }

    /// An error, with a message and data, of a call that cannot succeed.
    pub fn known_error(message: M, body: E) -> (r: ApiResult<(), M, E>)
        ensures
            r is Error && r->Error_0 == message && r->Error_1 == Some(body),
    {
        ApiResult::Error(message, Some(body))
    }

    /// An error, with only a message, of a call that cannot succeed.
    pub fn known_error_msg(message: M) -> (r: ApiResult<(), M, ()>)
        ensures
            r is Error && r->Error_0 == message && r->Error_1 is None,
    {
        ApiResult::Error(message, None)
    }
}

} // verus!
