//! A short video as stored.
use vstd::prelude::*;

verus! {

#[derive(Debug, Clone, PartialEq, Eq)]
pub struct Model {
    pub id: u128,
    pub user_id: u128,
    pub caption: String,
    pub video_path: String,
    pub created_at: String,
}

} // verus!
