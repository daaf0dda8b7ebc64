//! Registration, login and profile changes.
use vstd::prelude::*;
use vstd::utf8::encode_utf8;
use crate::error::{bad_request, is_bad_request, AppError};
use crate::ids::{uuid_text, uuid_to_string};
use crate::models::user;
use crate::text::{trim, trim_seq};

verus! {

/// A new account's details.
#[derive(Debug, Clone, PartialEq, Eq)]
pub struct RegisterRequest {
    pub email: String,
    pub password: String,
    pub display_name: Option<String>,
}

/// Login credentials.
#[derive(Debug, Clone, PartialEq, Eq)]
pub struct LoginRequest {
    pub email: String,
    pub password: String,
}

/// A user as the account pages show it.
#[derive(Debug, Clone, PartialEq, Eq)]
pub struct UserResponse {
    pub id: String,
    pub email: String,
    pub display_name: Option<String>,
}

/// A session token with the user it belongs to.
#[derive(Debug, Clone, PartialEq, Eq)]
pub struct AuthResponse {
    pub token: String,
    pub user: UserResponse,
}

/// A new display name; blank clears it.
#[derive(Debug, Clone, PartialEq, Eq)]
pub struct UpdateProfileRequest {
    pub display_name: Option<String>,
}

/// The shortest password accepted, counted in bytes of its UTF-8 form.
pub open spec fn min_password_bytes() -> int {
    6
}

/// The checks made before an account is created: the email must not be
/// taken, then the password must be at least six bytes long.
pub fn check_registration(email_taken: bool, password: &str) -> (r: Result<(), AppError>)
    ensures
        if email_taken {
            r matches Err(e) && is_bad_request(e, "อีเมลนี้ถูกใช้งานแล้ว"@)
        } else if encode_utf8(password@).len() < min_password_bytes() {
            r matches Err(e) && is_bad_request(e, "รหัสผ่านต้องมีอย่างน้อย 6 ตัวอักษร"@)
        } else {
            r is Ok
        },
{
    if email_taken {
        return Err(bad_request("อีเมลนี้ถูกใช้งานแล้ว"));
    }
    let bytes = password.as_bytes();
    if bytes.len() < 6 {
        return Err(bad_request("รหัสผ่านต้องมีอย่างน้อย 6 ตัวอักษร"));
    }
    Ok(())
}

/// The display name a profile change stores: trimmed, and none where the
/// trimmed name is empty.
pub fn normalize_display_name(name: &Option<String>) -> (r: Option<String>)
    ensures
        match name {
            None => r is None,
            Some(n) => if trim_seq(n@).len() == 0 {
                r is None
            } else {
                r matches Some(t) && t@ == trim_seq(n@)
            },
        },
{
    match name {
        None => None,
        Some(n) => {
            let t = trim(n.as_str());
            if t.as_str().is_empty() {
                None
            } else {
                Some(t)
            }
        },
    }
}

/// A user as the account pages show it.
pub fn user_response(id: u128, email: String, display_name: Option<String>) -> (r: UserResponse)
    ensures
        r.id@ == uuid_text(id),
        r.email == email,
        r.display_name == display_name,
{
    UserResponse { id: uuid_to_string(id), email, display_name }
}

/// The answer to a successful login: the new token and the stored user.
pub fn login_response(token: String, u: user::Model) -> (r: AuthResponse)
    ensures
        r.token == token,
        r.user.id@ == uuid_text(u.id),
        r.user.email == u.email,
        r.user.display_name == u.display_name,
{
    AuthResponse { token, user: user_response(u.id, u.email, u.display_name) }
}

/// Whether a login goes through: the email must name a user and the
/// password must match that user's.
pub fn check_login(user_found: bool, password_matches: bool) -> (r: Result<(), AppError>)
    ensures
        r is Ok <==> user_found && password_matches,
        r is Err ==> r == Err::<(), AppError>(AppError::Unauthorized),
{
    if !user_found || !password_matches {
        return Err(AppError::Unauthorized);
    }
    Ok(())
}

} // verus!
