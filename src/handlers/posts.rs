//! The detail view of one post.
use vstd::prelude::*;
use vstd::string::*;
use crate::error::AppError;
use crate::models::{Category, Page, Post, PostMediaWithItem, Profile, Tag};
use crate::text::{decimal_spec, decimal_text};

verus! {

/// A post with all its media, its tags and its category.
#[derive(Clone, Debug)]
pub struct DetailTemplate {
    pub post: Post,
    pub media: Vec<PostMediaWithItem>,
    pub tags: Vec<Tag>,
    pub category: Option<Category>,
    pub nav_pages: Vec<Page>,
    pub current_path: String,
    pub show_dates: bool,
    pub user: Option<Profile>,
}

/// Path of a post's detail view.
pub open spec fn post_path_spec(id: i64) -> Seq<char> {
    "/posts/"@ + decimal_spec(id as int) + "/"@
}

/// The path of the detail view of post `id`.
pub fn post_path(id: i64) -> (r: String)
    ensures
        r@ == post_path_spec(id),
{
    String::from_str("/posts/").concat(decimal_text(id).as_str()).concat("/")
}

/// The post looked up, or the not-found failure when there is none.
pub fn found_post(post: Option<Post>) -> (r: Result<Post, AppError>)
    ensures
        match post {
            Some(p) => r == Ok::<Post, AppError>(p),
            None => (r matches Err(AppError::NotFound(m)) && m@ == "Post not found"@),
        },
{
    match post {
        Some(p) => Ok(p),
        None => Err(AppError::NotFound(String::from_str("Post not found"))),
    }
}

impl DetailTemplate {
    /// The detail view of `post` for an anonymous caller, who is shown no
    /// dates.
    pub fn anonymous(
        post: Post,
        media: Vec<PostMediaWithItem>,
        tags: Vec<Tag>,
        category: Option<Category>,
        nav_pages: Vec<Page>,
    ) -> (r: DetailTemplate)
        ensures
            r.post == post,
            r.media@ == media@,
            r.tags@ == tags@,
            r.category == category,
            r.nav_pages@ == nav_pages@,
            r.current_path@ == post_path_spec(post.id),
            !r.show_dates,
            r.user is None,
    {
        let current_path = post_path(post.id);
        DetailTemplate {
            post,
            media,
            tags,
            category,
            nav_pages,
            current_path,
            show_dates: false,
            user: None,
        }
    }
}

} // verus!
