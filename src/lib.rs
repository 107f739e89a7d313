//! Content-site core: the visibility policy that gates posts by a caller's
//! tier, listing pagination, enrichment of listed posts into view records,
//! contact-form decisions and the site's error taxonomy.

pub mod text;
pub mod privacy;
pub mod models;
pub mod error;
pub mod listing;
pub mod handlers;
