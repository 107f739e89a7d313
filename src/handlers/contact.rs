//! The contact form: what a submission leads to, and the page shown after.
use vstd::prelude::*;
use vstd::string::*;
use crate::models::{CreateContactSubmission, Page, Profile};
use crate::models::contact::NEW_STATUS;

verus! {

/// Path of the contact form.
pub const CONTACT_PATH: &'static str = "/contact/";

/// Shown when a field was left blank.
pub const MISSING_FIELDS_MESSAGE: &'static str = "All fields are required.";

/// Shown once the message is stored.
pub const THANKS_MESSAGE: &'static str = "Thank you for your message! I'll get back to you soon.";

/// Shown when the store refused the message.
pub const RETRY_MESSAGE: &'static str = "Sorry, there was an error. Please try again.";

/// The contact form, with at most one banner.
#[derive(Clone, Debug)]
pub struct ContactTemplate {
    pub nav_pages: Vec<Page>,
    pub current_path: String,
    pub success_message: Option<String>,
    pub error: Option<String>,
    pub user: Option<Profile>,
}

/// A contact message as it is to be inserted.
#[derive(Clone, Debug)]
pub struct NewContactRow {
    pub user_id: Option<i32>,
    pub name: String,
    pub email: String,
    pub message: String,
    pub status: String,
    pub ip_address: Option<String>,
    pub user_agent: Option<String>,
}

impl NewContactRow {
    /// The submitted fields, anonymous, with status NEW.
    pub open spec fn holds_new(self, input: CreateContactSubmission) -> bool {
        &&& self.name == input.name
        &&& self.email == input.email
        &&& self.message == input.message
        &&& self.status@ == "NEW"@
        &&& self.user_id is None
        &&& self.ip_address is None
        &&& self.user_agent is None
    }
}

/// How a submission ended.
#[derive(Clone, Copy, Debug, PartialEq, Eq, Structural)]
pub enum ContactOutcome {
    /// A field was blank; nothing was stored.
    Incomplete,
    /// The message was stored.
    Stored,
    /// The store failed to take the message.
    StoreFailed,
}

/// What to do with a submission.
#[derive(Clone, Debug)]
pub enum ContactAction {
    /// Insert this one row, then reply after how the insert went.
    Store(NewContactRow),
    /// Reply at once.
    Reply(ContactOutcome),
}

/// A complete submission becomes one anonymous row with status NEW; any
/// other is answered at once without touching the store.
pub fn contact_action(input: CreateContactSubmission) -> (r: ContactAction)
    ensures
        input.is_complete_spec() ==> (r matches ContactAction::Store(row) && row.holds_new(input)),
        !input.is_complete_spec() ==> (r matches ContactAction::Reply(ContactOutcome::Incomplete)),
{
    if !input.is_complete() {
        return ContactAction::Reply(ContactOutcome::Incomplete);
    }
    let CreateContactSubmission { name, email, message } = input;
    ContactAction::Store(
        NewContactRow {
            user_id: None,
            name,
            email,
            message,
            status: String::from_str(NEW_STATUS),
            ip_address: None,
            user_agent: None,
        },
    )
}

/// The outcome that an insert's success or failure leads to.
pub fn stored_outcome(inserted: bool) -> (r: ContactOutcome)
    ensures
        r == if inserted {
            ContactOutcome::Stored
        } else {
            ContactOutcome::StoreFailed
        },
{
    if inserted {
        ContactOutcome::Stored
    } else {
        ContactOutcome::StoreFailed
    }
}

/// The banner texts that an outcome shows: (success, error).
pub open spec fn banner_spec(outcome: Option<ContactOutcome>) -> (Option<Seq<char>>, Option<
    Seq<char>,
>) {
    match outcome {
        None => (None, None),
        Some(ContactOutcome::Incomplete) => (None, Some(MISSING_FIELDS_MESSAGE@)),
        Some(ContactOutcome::Stored) => (Some(THANKS_MESSAGE@), None),
        Some(ContactOutcome::StoreFailed) => (None, Some(RETRY_MESSAGE@)),
    }
}

/// The view of an optional string.
pub open spec fn opt_view(s: Option<String>) -> Option<Seq<char>> {
    match s {
        Some(t) => Some(t@),
        None => None,
    }
}

fn text_of(s: &'static str) -> (r: Option<String>)
    ensures
        opt_view(r) == Some(s@),
{
    Some(String::from_str(s))
}

impl ContactTemplate {
    /// The contact form for an anonymous caller, blank before a submission
    /// (`outcome` absent) and with the outcome's banner after one.
    pub fn anonymous(nav_pages: Vec<Page>, outcome: Option<ContactOutcome>) -> (r: ContactTemplate)
        ensures
            r.nav_pages@ == nav_pages@,
            r.current_path@ == CONTACT_PATH@,
            (opt_view(r.success_message), opt_view(r.error)) == banner_spec(outcome),
            r.user is None,
    {
        let (success_message, error) = match outcome {
            None => (None, None),
            Some(ContactOutcome::Incomplete) => (None, text_of(MISSING_FIELDS_MESSAGE)),
            Some(ContactOutcome::Stored) => (text_of(THANKS_MESSAGE), None),
            Some(ContactOutcome::StoreFailed) => (None, text_of(RETRY_MESSAGE)),
        };
        ContactTemplate {
            nav_pages,
            current_path: String::from_str(CONTACT_PATH),
            success_message,
            error,
            user: None,
        }
    }
}

} // verus!
