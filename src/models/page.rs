//! Static pages.
use vstd::prelude::*;
use crate::models::time::Timestamp;

verus! {

/// A static page, looked up by `slug`. The category and tag it names for
/// pulling posts are carried but not yet used to fetch any.
#[derive(Clone, Debug)]
pub struct Page {
    pub id: i64,
    pub title: String,
    pub slug: String,
    pub body: Option<String>,
    pub parent_id: Option<i64>,
    pub template: Option<String>,
    pub show_in_nav: bool,
    pub display_order: i32,
    pub show_posts_from_category_id: Option<i64>,
    pub show_posts_with_tag_id: Option<i64>,
    pub posts_per_page: i32,
    pub is_published: bool,
    pub visibility: String,
    pub author_id: i32,
    pub created_at: Timestamp,
    pub updated_at: Timestamp,
}

} // verus!
