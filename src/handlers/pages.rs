//! Static pages, looked up by slug.
use vstd::prelude::*;
use vstd::string::*;
use crate::error::AppError;
use crate::listing::PostWithMedia;
use crate::models::{Page, Profile};

verus! {

/// A static page.
#[derive(Clone, Debug)]
pub struct PageTemplate {
    pub page: Page,
    pub posts: Vec<PostWithMedia>,
    pub nav_pages: Vec<Page>,
    pub current_path: String,
    pub user: Option<Profile>,
}

/// Path of a static page.
pub open spec fn page_path_spec(slug: Seq<char>) -> Seq<char> {
    "/"@ + slug + "/"@
}

/// The path of the static page `slug`.
pub fn page_path(slug: &str) -> (r: String)
    ensures
        r@ == page_path_spec(slug@),
{
    String::from_str("/").concat(slug).concat("/")
}

/// The published page looked up, or the not-found failure when there is none.
pub fn found_page(page: Option<Page>) -> (r: Result<Page, AppError>)
    ensures
        match page {
            Some(p) => r == Ok::<Page, AppError>(p),
            None => (r matches Err(AppError::NotFound(m)) && m@ == "Page not found"@),
        },
{
    match page {
        Some(p) => Ok(p),
        None => Err(AppError::NotFound(String::from_str("Page not found"))),
    }
}

impl PageTemplate {
    /// The view of `page` reached at `/slug/`. Pages do not pull posts yet,
    /// whatever category or tag they name.
    pub fn anonymous(page: Page, nav_pages: Vec<Page>, slug: &str) -> (r: PageTemplate)
        ensures
            r.page == page,
            r.posts@.len() == 0,
            r.nav_pages@ == nav_pages@,
            r.current_path@ == page_path_spec(slug@),
            r.user is None,
    {
        PageTemplate { page, posts: Vec::new(), nav_pages, current_path: page_path(slug), user: None }
    }
}

} // verus!
