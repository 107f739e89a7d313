//! Feeds: the home page, its fragment, and feeds scoped to a category or tag.
use vstd::prelude::*;
use vstd::string::*;
use crate::listing::{page_window, window_fits, PageWindow, PostWithMedia, PER_PAGE};
use crate::models::{Category, Page, Profile, Tag};

verus! {

/// Query parameters of a feed.
#[derive(Clone, Debug)]
pub struct FeedParams {
    pub page: Option<i64>,
    pub tag: Option<String>,
}

impl FeedParams {
    /// The window of the requested page, `PER_PAGE` posts a page; `None`
    /// when the page number is too large to address.
    pub fn window(&self) -> (r: Option<PageWindow>)
        ensures
            r is Some <==> window_fits(self.page, PER_PAGE),
            r matches Some(w) ==> w.is_window_of(self.page, PER_PAGE),
    {
        page_window(self.page, PER_PAGE)
    }
}

/// Which posts a feed lists.
#[derive(Clone, Copy, Debug, PartialEq, Eq, Structural)]
pub enum FeedScope {
    /// Every visible post.
    All,
    /// Visible posts of one category.
    InCategory(i64),
    /// Visible posts carrying one tag.
    WithTag(i64),
    /// No post: the scope named by the request does not exist.
    Empty,
}

/// Scope of a category feed: an unknown category lists nothing.
pub fn category_scope(category: &Option<Category>) -> (r: FeedScope)
    ensures
        r == match category {
            Some(c) => FeedScope::InCategory(c.id),
            None => FeedScope::Empty,
        },
{
    match category {
        Some(c) => FeedScope::InCategory(c.id),
        None => FeedScope::Empty,
    }
}

/// Scope of a tag feed: an unknown tag lists nothing.
pub fn tag_scope(tag: &Option<Tag>) -> (r: FeedScope)
    ensures
        r == match tag {
            Some(t) => FeedScope::WithTag(t.id),
            None => FeedScope::Empty,
        },
{
    match tag {
        Some(t) => FeedScope::WithTag(t.id),
        None => FeedScope::Empty,
    }
}

/// Scope of the feed fragment: the tag it names, or every post when it
/// names none that exists.
pub fn fragment_scope(tag: &Option<Tag>) -> (r: FeedScope)
    ensures
        r == match tag {
            Some(t) => FeedScope::WithTag(t.id),
            None => FeedScope::All,
        },
{
    match tag {
        Some(t) => FeedScope::WithTag(t.id),
        None => FeedScope::All,
    }
}

/// Path of the home feed.
pub const HOME_PATH: &'static str = "/";

/// Path of a category's feed.
pub open spec fn category_path_spec(slug: Seq<char>) -> Seq<char> {
    "/category/"@ + slug + "/"@
}

/// Path of a tag's feed.
pub open spec fn tag_path_spec(slug: Seq<char>) -> Seq<char> {
    "/tags/"@ + slug + "/"@
}

/// The path of the feed of the category `slug`.
pub fn category_path(slug: &str) -> (r: String)
    ensures
        r@ == category_path_spec(slug@),
{
    String::from_str("/category/").concat(slug).concat("/")
}

/// The path of the feed of the tag `slug`.
pub fn tag_path(slug: &str) -> (r: String)
    ensures
        r@ == tag_path_spec(slug@),
{
    String::from_str("/tags/").concat(slug).concat("/")
}

/// A full feed page.
#[derive(Clone, Debug)]
pub struct FeedTemplate {
    pub posts: Vec<PostWithMedia>,
    pub nav_pages: Vec<Page>,
    pub current_tag: Option<Tag>,
    pub current_path: String,
    pub show_dates: bool,
    pub has_next_page: bool,
    pub next_page: i64,
    pub user: Option<Profile>,
}

/// The list of a feed alone, for refreshing part of a page.
#[derive(Clone, Debug)]
pub struct FeedItemsTemplate {
    pub posts: Vec<PostWithMedia>,
    pub current_tag: Option<Tag>,
    pub show_dates: bool,
    pub has_next_page: bool,
    pub next_page: i64,
}

impl FeedTemplate {
    /// A feed page for an anonymous caller, who is shown no dates.
    pub fn anonymous(
        posts: Vec<PostWithMedia>,
        nav_pages: Vec<Page>,
        current_tag: Option<Tag>,
        current_path: String,
        has_next_page: bool,
        next_page: i64,
    ) -> (r: FeedTemplate)
        ensures
            r.posts@ == posts@,
            r.nav_pages@ == nav_pages@,
            r.current_tag == current_tag,
            r.current_path@ == current_path@,
            !r.show_dates,
            r.has_next_page == has_next_page,
            r.next_page == next_page,
            r.user is None,
    {
        FeedTemplate {
            posts,
            nav_pages,
            current_tag,
            current_path,
            show_dates: false,
            has_next_page,
            next_page,
            user: None,
        }
    }
}

impl FeedItemsTemplate {
    /// A feed fragment for an anonymous caller, who is shown no dates.
    pub fn anonymous(
        posts: Vec<PostWithMedia>,
        current_tag: Option<Tag>,
        has_next_page: bool,
        next_page: i64,
    ) -> (r: FeedItemsTemplate)
        ensures
            r.posts@ == posts@,
            r.current_tag == current_tag,
            !r.show_dates,
            r.has_next_page == has_next_page,
            r.next_page == next_page,
    {
        FeedItemsTemplate { posts, current_tag, show_dates: false, has_next_page, next_page }
    }
}

} // verus!
