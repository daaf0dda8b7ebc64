//! A room as stored.
use vstd::prelude::*;

verus! {

#[derive(Debug, Clone, PartialEq, Eq)]
pub struct Model {
    pub id: u128,
    pub name: String,
    pub code: String,
    pub owner_id: u128,
}

} // verus!
