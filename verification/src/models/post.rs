//! A post as stored.
use vstd::prelude::*;

verus! {

#[derive(Debug, Clone, PartialEq, Eq)]
pub struct Model {
    pub id: u128,
    pub user_id: u128,
    pub content: String,
    pub image_path: Option<String>,
    pub created_at: String,
}

} // verus!
