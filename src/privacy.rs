//! Visibility policy: which post visibility labels a caller's tier may see.
use vstd::prelude::*;
use vstd::string::*;
use crate::text::same_text;

verus! {

/// The labels a caller of the given tier may see, in the order the store is
/// asked for them. Tiers outside the recognised labels see public posts only.
pub open spec fn allowed_spec(tier: Option<Seq<char>>) -> Seq<Seq<char>> {
    if tier == Some("FRIEND"@) {
        seq!["PUBLIC"@, "FRIENDS"@]
    } else if tier == Some("CLOSE_FRIEND"@) {
        seq!["PUBLIC"@, "FRIENDS"@, "CLOSE_FRIENDS"@]
    } else if tier == Some("ADMIN"@) {
        seq!["PUBLIC"@, "FRIENDS"@, "CLOSE_FRIENDS"@, "PRIVATE"@, "CUSTOM"@]
    } else {
        seq!["PUBLIC"@]
    }
}

/// The allowed labels as a set.
pub open spec fn allowed_set(tier: Option<Seq<char>>) -> Set<Seq<char>> {
    allowed_spec(tier).to_set()
}

/// Breadth of access of a tier: anonymous, PUBLIC, REGISTERED and unknown
/// tiers rank lowest, then FRIEND, CLOSE_FRIEND and ADMIN.
pub open spec fn tier_rank(tier: Option<Seq<char>>) -> nat {
    if tier == Some("FRIEND"@) {
        1
    } else if tier == Some("CLOSE_FRIEND"@) {
        2
    } else if tier == Some("ADMIN"@) {
        3
    } else {
        0
    }
}

/// Whether a post with visibility `label` may be shown to a caller of `tier`.
pub open spec fn can_view_spec(tier: Option<Seq<char>>, label: Seq<char>) -> bool {
    allowed_spec(tier).contains(label)
}

/// The view of an optional borrowed string.
pub open spec fn opt_text(t: Option<&str>) -> Option<Seq<char>> {
    match t {
        Some(s) => Some(s@),
        None => None,
    }
}

/// The texts of a sequence of string slices.
pub open spec fn texts(v: Seq<&str>) -> Seq<Seq<char>> {
    v.map_values(|s: &str| s@)
}

fn tier_is(user_tier: Option<&str>, label: &str) -> (r: bool)
    ensures
        r == (opt_text(user_tier) == Some(label@)),
{
    match user_tier {
        Some(t) => same_text(t, label),
        None => false,
    }
}

/// Labels of post visibility that a caller of `user_tier` may see.
pub fn allowed_visibilities(user_tier: Option<&str>) -> (r: Vec<&'static str>)
    ensures
        texts(r@) == allowed_spec(opt_text(user_tier)),
{
    let r = if tier_is(user_tier, "FRIEND") {
        vec!["PUBLIC", "FRIENDS"]
    } else if tier_is(user_tier, "CLOSE_FRIEND") {
        vec!["PUBLIC", "FRIENDS", "CLOSE_FRIENDS"]
    } else if tier_is(user_tier, "ADMIN") {
        vec!["PUBLIC", "FRIENDS", "CLOSE_FRIENDS", "PRIVATE", "CUSTOM"]
    } else {
        vec!["PUBLIC"]
    };
    assert(texts(r@) =~= allowed_spec(opt_text(user_tier)));
    r
}

/// Whether a caller of `user_tier` may see a post whose visibility is `visibility`.
pub fn can_view_visibility(user_tier: Option<&str>, visibility: &str) -> (r: bool)
    ensures
        r == can_view_spec(opt_text(user_tier), visibility@),
{
    let allowed = allowed_visibilities(user_tier);
    let ghost labels = texts(allowed@);
    let mut i: usize = 0;
    while i < allowed.len()
        invariant
            labels == texts(allowed@),
            labels == allowed_spec(opt_text(user_tier)),
            i <= allowed.len(),
            forall|j: int| 0 <= j < i ==> labels[j] != visibility@,
        decreases allowed.len() - i,
    {
        if same_text(allowed[i], visibility) {
            assert(labels[i as int] == visibility@);
            return true;
        }
        i = i + 1;
    }
    assert(!labels.contains(visibility@));
    false
}

/// The recognised tier labels differ from one another.
pub proof fn lemma_tier_labels_distinct()
    ensures
        "FRIEND"@ != "CLOSE_FRIEND"@,
        "FRIEND"@ != "ADMIN"@,
        "CLOSE_FRIEND"@ != "ADMIN"@,
{
    reveal_strlit("FRIEND");
    reveal_strlit("CLOSE_FRIEND");
    reveal_strlit("ADMIN");
    assert("FRIEND"@.len() != "CLOSE_FRIEND"@.len());
    assert("FRIEND"@.len() != "ADMIN"@.len());
    assert("CLOSE_FRIEND"@.len() != "ADMIN"@.len());
}

/// Every tier outside FRIEND, CLOSE_FRIEND and ADMIN, absent included, is
/// allowed exactly the public label.
pub proof fn lemma_unrecognised_tier_sees_public_only(tier: Option<Seq<char>>)
    requires
        tier != Some("FRIEND"@),
        tier != Some("CLOSE_FRIEND"@),
        tier != Some("ADMIN"@),
    ensures
        allowed_set(tier) == set!["PUBLIC"@],
{
    assert(allowed_spec(tier) == seq!["PUBLIC"@]);
    assert(seq!["PUBLIC"@].to_set() =~= set!["PUBLIC"@]) by {
        assert(seq!["PUBLIC"@][0] == "PUBLIC"@);
    }
}

/// Access only widens with tier rank, and strictly so: a higher-ranked tier
/// sees every label that a lower-ranked one sees, and at least one more.
pub proof fn lemma_access_widens_with_rank(a: Option<Seq<char>>, b: Option<Seq<char>>)
    ensures
        tier_rank(a) <= tier_rank(b) ==> allowed_set(a).subset_of(allowed_set(b)),
        tier_rank(a) < tier_rank(b) ==> allowed_set(a) != allowed_set(b),
        tier_rank(a) == tier_rank(b) ==> allowed_set(a) == allowed_set(b),
{
    reveal_strlit("PUBLIC");
    reveal_strlit("FRIENDS");
    reveal_strlit("CLOSE_FRIENDS");
    reveal_strlit("PRIVATE");
    reveal_strlit("CUSTOM");
    let sa = allowed_spec(a);
    let sb = allowed_spec(b);
    assert(sa.len() == tier_rank(a) + 1 + if tier_rank(a) == 3 { 1int } else { 0 });
    assert(sb.len() == tier_rank(b) + 1 + if tier_rank(b) == 3 { 1int } else { 0 });
    if tier_rank(a) <= tier_rank(b) {
        assert forall|x: Seq<char>| allowed_set(a).contains(x) implies allowed_set(b).contains(x) by {
            let i = choose|i: int| 0 <= i < sa.len() && sa[i] == x;
            assert(sb[i] == x);
        }
    }
    if tier_rank(a) < tier_rank(b) {
        let k = sa.len() as int;
        assert("PUBLIC"@.len() != "FRIENDS"@.len());
        assert("PUBLIC"@.len() != "CLOSE_FRIENDS"@.len());
        assert("FRIENDS"@.len() != "CLOSE_FRIENDS"@.len());
        assert("PUBLIC"@[1] != "PRIVATE"@[1]);
        assert("FRIENDS"@[0] != "PRIVATE"@[0]);
        assert("CLOSE_FRIENDS"@.len() != "PRIVATE"@.len());
        assert forall|j: int| 0 <= j < k implies sa[j] != sb[k] by {
            assert(sa[j] == sb[j]);
        }
        assert(allowed_set(b).contains(sb[k]));
        assert(!sa.contains(sb[k]));
    }
    if tier_rank(a) == tier_rank(b) {
        assert(sa == sb);
    }
}

} // verus!
