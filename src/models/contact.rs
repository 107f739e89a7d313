//! Messages that visitors leave through the contact form.
use vstd::prelude::*;
use crate::models::time::Timestamp;
use crate::text::{blank_spec, is_blank};

verus! {

/// A stored contact message.
#[derive(Clone, Debug)]
pub struct ContactSubmission {
    pub id: i64,
    pub user_id: Option<i32>,
    pub name: String,
    pub email: String,
    pub oauth_provider: Option<String>,
    pub message: String,
    pub status: String,
    pub ip_address: Option<String>,
    pub user_agent: Option<String>,
    pub created_at: Timestamp,
    pub updated_at: Timestamp,
}

/// The status a new submission is stored with.
pub const NEW_STATUS: &'static str = "NEW";

/// The fields a visitor submits.
#[derive(Clone, Debug)]
pub struct CreateContactSubmission {
    pub name: String,
    pub email: String,
    pub message: String,
}

impl CreateContactSubmission {
    /// Every field holds something besides whitespace.
    pub open spec fn is_complete_spec(&self) -> bool {
        !blank_spec(self.name@) && !blank_spec(self.email@) && !blank_spec(self.message@)
    }

    /// Whether every field holds something besides whitespace.
    pub fn is_complete(&self) -> (r: bool)
        ensures
            r == self.is_complete_spec(),
    {
        !is_blank(self.name.as_str()) && !is_blank(self.email.as_str()) && !is_blank(
            self.message.as_str(),
        )
    }
}

} // verus!
