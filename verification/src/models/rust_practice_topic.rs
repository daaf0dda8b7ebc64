//! A saved Rust practice topic as stored.
use vstd::prelude::*;

verus! {

#[derive(Debug, Clone, PartialEq, Eq)]
pub struct Model {
    pub id: u128,
    pub title: String,
    pub s1_title: String,
    pub s1_content: String,
    pub s1_code: Option<String>,
    pub s2_title: String,
    pub s2_description: String,
    pub s2_code: String,
    pub s3_title: String,
    pub s3_description: String,
    pub s3_code_with_blanks: String,
    pub s3_solution: String,
    pub s4_title: String,
    pub s4_task: String,
    pub s4_hint: Option<String>,
    pub s4_solution: String,
    pub created_at: String,
}

} // verus!
