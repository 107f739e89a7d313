//! Member profiles, which carry the tier that the visibility policy reads.
use vstd::prelude::*;
use vstd::string::*;
use crate::models::time::Timestamp;
use crate::privacy::{lemma_tier_labels_distinct, tier_rank};
use crate::text::{decimal_spec, decimal_text, same_text};

verus! {

/// A member's profile.
#[derive(Clone, Debug)]
pub struct Profile {
    pub id: i64,
    pub user_id: i32,
    pub tier: String,
    pub bio: Option<String>,
    pub location: Option<String>,
    pub full_name: Option<String>,
    pub nickname: Option<String>,
    pub created_at: Timestamp,
    pub updated_at: Timestamp,
}

/// A present, non-empty name.
pub open spec fn usable_name(n: Option<String>) -> bool {
    n is Some && n->Some_0@.len() > 0
}

/// Name shown for a member: the nickname, else the full name, else
/// "User " and the user id.
pub open spec fn display_name_spec(p: Profile) -> Seq<char> {
    if usable_name(p.nickname) {
        p.nickname->Some_0@
    } else if usable_name(p.full_name) {
        p.full_name->Some_0@
    } else {
        "User "@ + decimal_spec(p.user_id as int)
    }
}

impl Profile {
    /// The tier is ADMIN.
    pub fn is_admin(&self) -> (r: bool)
        ensures
            r == (tier_rank(Some(self.tier@)) == 3),
    {
        proof {
            lemma_tier_labels_distinct();
        }
        same_text(self.tier.as_str(), "ADMIN")
    }

    /// The tier is FRIEND or broader.
    pub fn is_friend(&self) -> (r: bool)
        ensures
            r == (tier_rank(Some(self.tier@)) >= 1),
    {
        proof {
            lemma_tier_labels_distinct();
        }
        let t = self.tier.as_str();
        same_text(t, "FRIEND") || same_text(t, "CLOSE_FRIEND") || same_text(t, "ADMIN")
    }

    /// The tier is CLOSE_FRIEND or broader.
    pub fn is_close_friend(&self) -> (r: bool)
        ensures
            r == (tier_rank(Some(self.tier@)) >= 2),
    {
        proof {
            lemma_tier_labels_distinct();
        }
        let t = self.tier.as_str();
        same_text(t, "CLOSE_FRIEND") || same_text(t, "ADMIN")
    }

    /// The name to show for this member.
    pub fn display_name(&self) -> (r: String)
        ensures
            r@ == display_name_spec(*self),
    {
        if let Some(nickname) = &self.nickname {
            if nickname.as_str().unicode_len() > 0 {
                return String::from_str(nickname.as_str());
            }
        }
        if let Some(full_name) = &self.full_name {
            if full_name.as_str().unicode_len() > 0 {
                return String::from_str(full_name.as_str());
            }
        }
        String::from_str("User ").concat(decimal_text(self.user_id as i64).as_str())
    }
}

} // verus!
