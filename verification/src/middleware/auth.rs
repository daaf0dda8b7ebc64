//! Who a request comes from: the bearer token of its `Authorization` header.
use vstd::prelude::*;
use crate::ids::{parse_uuid, uuid_parse};
use crate::services::auth::AuthUser as Identity;
use crate::text::{matches_at, starts_with_seq, sub_chars, to_chars, from_chars};

verus! {

/// The authenticated user of a request.
pub struct AuthUser(pub Identity);

/// Why a request is refused before its handler runs; both answer 401.
#[derive(Debug, Clone, Copy, PartialEq, Eq)]
pub enum AuthRejection {
    /// "Missing token": no `Authorization: Bearer ...` header.
    MissingToken,
    /// "Invalid token": the token does not verify or names no user.
    InvalidToken,
}

/// The text that precedes a token in the header.
pub open spec fn bearer_prefix() -> Seq<char> {
    seq!['B', 'e', 'a', 'r', 'e', 'r', ' ']
}

/// The token of an `Authorization` header value: what follows `"Bearer "`.
/// `None` for the header stands for a missing header or one that is not
/// visible ASCII.
pub fn bearer_token(header: Option<&str>) -> (r: Result<String, AuthRejection>)
    ensures
        match header {
            Some(h) => if starts_with_seq(h@, bearer_prefix()) {
                r matches Ok(t) && t@ == h@.skip(7)
            } else {
                r == Err::<String, AuthRejection>(AuthRejection::MissingToken)
            },
            None => r == Err::<String, AuthRejection>(AuthRejection::MissingToken),
        },
{
    match header {
        None => Err(AuthRejection::MissingToken),
        Some(h) => {
            let v = to_chars(h);
            let prefix = vec!['B', 'e', 'a', 'r', 'e', 'r', ' '];
            assert(prefix@ == bearer_prefix());
            assert(v@.skip(0) == v@);
            if matches_at(&v, &prefix, 0) {
                let rest = sub_chars(&v, 7, v.len());
                assert(rest@ == h@.skip(7));
                Ok(from_chars(&rest))
            } else {
                Err(AuthRejection::MissingToken)
            }
        },
    }
}

/// The user a verified token names: its subject must be a user id. The
/// email and display name are not carried by the token and stay empty.
pub fn identity_from_subject(subject: &str, role: String) -> (r: Result<AuthUser, AuthRejection>)
    ensures
        match uuid_parse(subject@) {
            Some(id) => r matches Ok(u) && u.0.id == id && u.0.email@.len() == 0
                && u.0.display_name is None && u.0.role == role,
            None => r == Err::<AuthUser, AuthRejection>(AuthRejection::InvalidToken),
        },
{
    match parse_uuid(subject) {
        Some(id) => Ok(AuthUser(Identity { id, email: String::new(), display_name: None, role })),
        None => Err(AuthRejection::InvalidToken),
    }
}

} // verus!
