//! A trip of a room as stored.
use vstd::prelude::*;

verus! {

#[derive(Debug, Clone, PartialEq, Eq)]
pub struct Model {
    pub id: u128,
    pub room_id: u128,
    pub name: String,
    pub created_at: String,
}

} // verus!
