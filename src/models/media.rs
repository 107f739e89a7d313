//! The media library and the media attached to posts.
use vstd::prelude::*;
use vstd::string::*;
use crate::models::time::Timestamp;

verus! {

/// An uploaded media file.
#[derive(Clone, Debug)]
pub struct MediaLibrary {
    pub id: i64,
    pub file: String,
    pub content_hash: String,
    pub media_type: String,
    pub original_filename: String,
    pub file_size: i64,
    pub width: Option<i32>,
    pub height: Option<i32>,
    pub mime_type: Option<String>,
    pub uploaded_by_id: Option<i32>,
    pub created_at: Timestamp,
}

/// The link of a post to a library item, with its display order.
#[derive(Clone, Debug)]
pub struct PostMedia {
    pub id: i64,
    pub post_id: i64,
    pub library_item_id: i64,
    pub order: i32,
    pub custom_alt_text: String,
    pub created_at: Timestamp,
}

/// A post's media link joined with the library item it points to.
#[derive(Clone, Debug)]
pub struct PostMediaWithItem {
    pub id: i64,
    pub post_id: i64,
    pub display_order: i32,
    pub custom_alt_text: String,
    pub file: String,
    pub media_type: String,
    pub original_filename: String,
    pub width: Option<i32>,
    pub height: Option<i32>,
}

/// The public URL of a stored media file.
pub open spec fn media_url_spec(file: Seq<char>) -> Seq<char> {
    "/media/"@ + file
}

fn media_url(file: &String) -> (r: String)
    ensures
        r@ == media_url_spec(file@),
{
    String::from_str("/media/").concat(file.as_str())
}

impl MediaLibrary {
    /// Where the file is served.
    pub fn url(&self) -> (r: String)
        ensures
            r@ == media_url_spec(self.file@),
    {
        media_url(&self.file)
    }
}

impl PostMediaWithItem {
    /// Where the file is served.
    pub fn url(&self) -> (r: String)
        ensures
            r@ == media_url_spec(self.file@),
    {
        media_url(&self.file)
    }
}

} // verus!
