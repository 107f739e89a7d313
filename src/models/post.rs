//! Posts.
use vstd::prelude::*;
use crate::models::time::Timestamp;
use crate::text::{preview_spec, preview_text};

verus! {

/// A post. Only posts that are neither drafts nor deleted are ever listed or
/// shown.
#[derive(Clone, Debug)]
pub struct Post {
    pub id: i64,
    pub title: Option<String>,
    pub body: String,
    pub location: Option<String>,
    pub author_id: i32,
    pub visibility: String,
    pub is_draft: bool,
    pub is_pinned: bool,
    pub is_archived: bool,
    pub is_deleted: bool,
    pub category_id: Option<i64>,
    pub source_platform: String,
    pub like_count: i32,
    pub comment_count: i32,
    pub share_count: i32,
    pub created_at: Timestamp,
    pub updated_at: Timestamp,
}

impl Post {
    /// Neither a draft nor deleted.
    pub open spec fn is_published_spec(&self) -> bool {
        !self.is_draft && !self.is_deleted
    }

    /// The body, cut to 280 characters with a trailing "..." when longer.
    pub fn preview(&self) -> (r: String)
        ensures
            r@ == preview_spec(self.body@),
    {
        preview_text(self.body.as_str())
    }
}

} // verus!
