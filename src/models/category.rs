//! Post categories.
use vstd::prelude::*;
use crate::models::time::Timestamp;

verus! {

/// A category; `slug` is its unique URL key, `parent_id` places it in a tree.
#[derive(Clone, Debug)]
pub struct Category {
    pub id: i64,
    pub name: String,
    pub slug: String,
    pub description: Option<String>,
    pub parent_id: Option<i64>,
    pub display_order: i32,
    pub is_active: bool,
    pub created_at: Timestamp,
    pub updated_at: Timestamp,
}

} // verus!
