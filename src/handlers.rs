//! What each route decides: the view models it renders and the choices it
//! makes between calls into the store.
pub mod feed;
pub mod posts;
pub mod pages;
pub mod contact;
