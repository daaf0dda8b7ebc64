//! The errors that the handlers answer with.
use vstd::prelude::*;

verus! {

/// An error answered to a request: the status it stands for and, where the
/// caller sees one, its message.
#[derive(Debug, Clone, PartialEq, Eq)]
pub enum AppError {
    /// 401: the caller is not who they claim, or did not say.
    Unauthorized,
    /// 403: the caller may not do this.
    Forbidden,
    /// 404 with a message.
    NotFound(String),
    /// 400 with a message.
    BadRequest(String),
    /// 500.
    Internal,
}

/// A `BadRequest` carrying exactly the given message.
pub open spec fn is_bad_request(e: AppError, msg: Seq<char>) -> bool {
    e matches AppError::BadRequest(m) && m@ == msg
}

/// A `NotFound` carrying exactly the given message.
pub open spec fn is_not_found(e: AppError, msg: Seq<char>) -> bool {
    e matches AppError::NotFound(m) && m@ == msg
}

/// A `BadRequest` with the given message.
pub fn bad_request(msg: &str) -> (e: AppError)
    ensures
        is_bad_request(e, msg@),
{
    AppError::BadRequest(String::from_str(msg))
}

/// A `NotFound` with the given message.
pub fn not_found(msg: &str) -> (e: AppError)
    ensures
        is_not_found(e, msg@),
{
    AppError::NotFound(String::from_str(msg))
}

} // verus!
