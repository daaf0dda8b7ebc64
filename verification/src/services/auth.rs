//! The identity a request is made under.
use vstd::prelude::*;

verus! {

/// The user a request is made by, as its token names them.
#[derive(Debug, Clone, PartialEq, Eq)]
pub struct AuthUser {
    pub id: u128,
    pub email: String,
    pub display_name: Option<String>,
    pub role: String,
}

} // verus!
