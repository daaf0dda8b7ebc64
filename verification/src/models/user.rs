//! A user as stored, with the times already written as RFC 3339 text.
use vstd::prelude::*;

verus! {

#[derive(Debug, Clone, PartialEq, Eq)]
pub struct Model {
    pub id: u128,
    pub email: String,
    pub display_name: Option<String>,
    pub role: String,
    pub created_at: String,
}

} // verus!
