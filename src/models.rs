//! Records read from the relational store, one module per entity.
pub mod time;
pub mod post;
pub mod category;
pub mod tag;
pub mod page;
pub mod media;
pub mod contact;
pub mod profile;

pub use time::Timestamp;
pub use post::Post;
pub use category::Category;
pub use tag::Tag;
pub use page::Page;
pub use media::{MediaLibrary, PostMedia, PostMediaWithItem};
pub use contact::{ContactSubmission, CreateContactSubmission};
pub use profile::Profile;
