//! User administration: listing users and changing their role, for admins only.
use vstd::prelude::*;
use crate::error::{bad_request, is_bad_request, AppError};
use crate::ids::{parse_uuid, uuid_parse, uuid_text, uuid_to_string};
use crate::models::user;
use crate::services::auth::AuthUser;
use crate::text::same_text;

verus! {

/// A user as the admin pages show it.
#[derive(Debug, Clone, PartialEq, Eq)]
pub struct UserResponse {
    pub id: String,
    pub email: String,
    pub display_name: Option<String>,
    pub role: String,
    pub created_at: String,
}

/// The role a user is to be given.
#[derive(Debug, Clone, PartialEq, Eq)]
pub struct UpdateRoleRequest {
    pub role: String,
}

/// The roles a user may have.
pub open spec fn is_known_role(role: Seq<char>) -> bool {
    role == "admin"@ || role == "member"@
}

/// A stored user as the admin pages show it.
pub fn to_response(u: user::Model) -> (r: UserResponse)
    ensures
        r.id@ == uuid_text(u.id),
        r.email == u.email,
        r.display_name == u.display_name,
        r.role == u.role,
        r.created_at == u.created_at,
{
    UserResponse {
        id: uuid_to_string(u.id),
        email: u.email,
        display_name: u.display_name,
        role: u.role,
        created_at: u.created_at,
    }
}

/// Lets only admins through.
pub fn require_admin(auth: &AuthUser) -> (r: Result<(), AppError>)
    ensures
        r is Ok <==> auth.role@ == "admin"@,
        r is Err ==> r == Err::<(), AppError>(AppError::Forbidden),
{
    if !same_text(auth.role.as_str(), "admin") {
        return Err(AppError::Forbidden);
    }
    Ok(())
}

/// The checks made before a user's role is changed: the caller must be an
/// admin, the role must be `admin` or `member`, the user id must parse, and
/// an admin may not take the admin role from themselves. Gives the id of the
/// user to change.
pub fn check_role_update(auth: &AuthUser, user_id: &str, body: &UpdateRoleRequest) -> (r: Result<
    u128,
    AppError,
>)
    ensures
        if auth.role@ != "admin"@ {
            r == Err::<u128, AppError>(AppError::Forbidden)
        } else if !is_known_role(body.role@) {
            r matches Err(e) && is_bad_request(e, "role must be 'admin' or 'member'"@)
        } else {
            match uuid_parse(user_id@) {
                None => r matches Err(e) && is_bad_request(e, "Invalid user id"@),
                Some(id) => if id == auth.id && body.role@ != "admin"@ {
                    r matches Err(e) && is_bad_request(e, "Cannot change your own role"@)
                } else {
                    r == Ok::<u128, AppError>(id)
                },
            }
        },
{
    require_admin(auth)?;
    let role = body.role.as_str();
    if !same_text(role, "admin") && !same_text(role, "member") {
        return Err(bad_request("role must be 'admin' or 'member'"));
    }
    let id = match parse_uuid(user_id) {
        Some(id) => id,
        None => {
            return Err(bad_request("Invalid user id"));
        },
    };
    if id == auth.id && !same_text(role, "admin") {
        return Err(bad_request("Cannot change your own role"));
    }
    Ok(id)
}

} // verus!
