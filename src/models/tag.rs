//! Tags, associated with posts many-to-many.
use vstd::prelude::*;
use crate::models::time::Timestamp;

verus! {

/// A tag; `slug` is its unique URL key.
#[derive(Clone, Debug)]
pub struct Tag {
    pub id: i64,
    pub name: String,
    pub slug: String,
    pub is_active: bool,
    pub description: Option<String>,
    pub created_at: Timestamp,
}

} // verus!
