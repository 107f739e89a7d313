use content_site::error::AppError;
use content_site::handlers::contact::{
    contact_action, stored_outcome, ContactAction, ContactOutcome, ContactTemplate,
};
use content_site::handlers::feed::{
    category_path, category_scope, fragment_scope, tag_path, tag_scope, FeedItemsTemplate,
    FeedParams, FeedScope, FeedTemplate,
};
use content_site::handlers::pages::{found_page, page_path, PageTemplate};
use content_site::handlers::posts::{found_post, post_path, DetailTemplate};
use content_site::listing::{enrich_posts, listing_page, page_window, PageWindow, PER_PAGE};
use content_site::models::{
    Category, CreateContactSubmission, MediaLibrary, Page, Post, PostMediaWithItem, Profile, Tag,
    Timestamp,
};
use content_site::privacy::{allowed_visibilities, can_view_visibility};

fn at(micros: i64) -> Timestamp {
    Timestamp::from_unix_micros(micros)
}

fn post(id: i64, visibility: &str, body: &str) -> Post {
    Post {
        id,
        title: Some(format!("Post {}", id)),
        body: body.to_string(),
        location: None,
        author_id: 1,
        visibility: visibility.to_string(),
        is_draft: false,
        is_pinned: false,
        is_archived: false,
        is_deleted: false,
        category_id: None,
        source_platform: "site".to_string(),
        like_count: 0,
        comment_count: 0,
        share_count: 0,
        created_at: at(1_000 - id),
        updated_at: at(1_000 - id),
    }
}

fn tag(id: i64, name: &str) -> Tag {
    Tag {
        id,
        name: name.to_string(),
        slug: name.to_lowercase(),
        is_active: true,
        description: None,
        created_at: at(0),
    }
}

fn page(slug: &str) -> Page {
    Page {
        id: 1,
        title: "About".to_string(),
        slug: slug.to_string(),
        body: Some("hello".to_string()),
        parent_id: None,
        template: None,
        show_in_nav: true,
        display_order: 0,
        show_posts_from_category_id: Some(3),
        show_posts_with_tag_id: None,
        posts_per_page: 10,
        is_published: true,
        visibility: "PUBLIC".to_string(),
        author_id: 1,
        created_at: at(0),
        updated_at: at(0),
    }
}

fn profile(tier: &str, nickname: Option<&str>, full_name: Option<&str>) -> Profile {
    Profile {
        id: 7,
        user_id: 42,
        tier: tier.to_string(),
        bio: None,
        location: None,
        full_name: full_name.map(|s| s.to_string()),
        nickname: nickname.map(|s| s.to_string()),
        created_at: at(0),
        updated_at: at(0),
    }
}

fn media(post_id: i64, file: &str) -> PostMediaWithItem {
    PostMediaWithItem {
        id: 5,
        post_id,
        display_order: 0,
        custom_alt_text: "alt".to_string(),
        file: file.to_string(),
        media_type: "image".to_string(),
        original_filename: "a.png".to_string(),
        width: Some(10),
        height: Some(20),
    }
}

fn submission(name: &str, email: &str, message: &str) -> CreateContactSubmission {
    CreateContactSubmission {
        name: name.to_string(),
        email: email.to_string(),
        message: message.to_string(),
    }
}

fn first_window() -> PageWindow {
    page_window(None, PER_PAGE).unwrap()
}

#[test]
fn absent_tier_sees_public_only() {
    assert_eq!(allowed_visibilities(None), vec!["PUBLIC"]);
}

#[test]
fn unrecognised_tiers_see_public_only() {
    for t in ["PUBLIC", "REGISTERED", "friend", "", "SUPERUSER", "ADMIN "] {
        assert_eq!(allowed_visibilities(Some(t)), vec!["PUBLIC"], "tier {:?}", t);
    }
}

#[test]
fn recognised_tiers_map_to_their_labels() {
    assert_eq!(allowed_visibilities(Some("FRIEND")), vec!["PUBLIC", "FRIENDS"]);
    assert_eq!(
        allowed_visibilities(Some("CLOSE_FRIEND")),
        vec!["PUBLIC", "FRIENDS", "CLOSE_FRIENDS"]
    );
    assert_eq!(
        allowed_visibilities(Some("ADMIN")),
        vec!["PUBLIC", "FRIENDS", "CLOSE_FRIENDS", "PRIVATE", "CUSTOM"]
    );
}

#[test]
fn access_widens_strictly_along_tiers() {
    let chain = [None, Some("FRIEND"), Some("CLOSE_FRIEND"), Some("ADMIN")];
    for w in chain.windows(2) {
        let lower = allowed_visibilities(w[0]);
        let upper = allowed_visibilities(w[1]);
        assert!(lower.iter().all(|l| upper.contains(l)));
        assert!(upper.len() > lower.len());
    }
    assert_eq!(allowed_visibilities(Some("REGISTERED")), allowed_visibilities(None));
}

#[test]
fn can_view_follows_the_table() {
    assert!(can_view_visibility(None, "PUBLIC"));
    assert!(!can_view_visibility(None, "FRIENDS"));
    assert!(can_view_visibility(Some("FRIEND"), "FRIENDS"));
    assert!(!can_view_visibility(Some("FRIEND"), "CLOSE_FRIENDS"));
    assert!(can_view_visibility(Some("ADMIN"), "CUSTOM"));
    assert!(!can_view_visibility(Some("CLOSE_FRIEND"), "PRIVATE"));
    assert!(!can_view_visibility(Some("ADMIN"), "UNKNOWN"));
}

#[test]
fn window_of_absent_or_non_positive_page_is_the_first() {
    for p in [None, Some(0), Some(-4), Some(1)] {
        let w = page_window(p, PER_PAGE).unwrap();
        assert_eq!(w.page, 1);
        assert_eq!(w.offset, 0);
        assert_eq!(w.fetch_limit, 11);
        assert_eq!(w.next_page, 2);
    }
}

#[test]
fn window_of_third_page() {
    let params = FeedParams { page: Some(3), tag: None };
    let w = params.window().unwrap();
    assert_eq!(w.page, 3);
    assert_eq!(w.per_page, 10);
    assert_eq!(w.offset, 20);
    assert_eq!(w.fetch_limit, 11);
    assert_eq!(w.next_page, 4);
}

#[test]
fn window_too_far_is_refused() {
    assert!(page_window(Some(i64::MAX), PER_PAGE).is_none());
    assert!(page_window(Some(i64::MAX / 10 + 2), PER_PAGE).is_none());
    assert!(page_window(Some(i64::MAX / 10 + 1), PER_PAGE).is_some());
}

#[test]
fn listing_leaves_out_disallowed_posts() {
    let rows = vec![
        post(1, "PUBLIC", "a"),
        post(2, "FRIENDS", "b"),
        post(3, "PRIVATE", "c"),
        post(4, "PUBLIC", "d"),
    ];
    let page = listing_page(rows, None, &first_window());
    let ids: Vec<i64> = page.posts.iter().map(|p| p.id).collect();
    assert_eq!(ids, vec![1, 4]);
    assert!(page.posts.iter().all(|p| can_view_visibility(None, &p.visibility)));
    assert!(!page.has_next_page);
}

#[test]
fn listing_leaves_out_drafts_and_deleted() {
    let mut draft = post(2, "PUBLIC", "b");
    draft.is_draft = true;
    let mut deleted = post(3, "PUBLIC", "c");
    deleted.is_deleted = true;
    let rows = vec![post(1, "PUBLIC", "a"), draft, deleted];
    let page = listing_page(rows, Some("ADMIN"), &first_window());
    assert_eq!(page.posts.len(), 1);
    assert_eq!(page.posts[0].id, 1);
}

#[test]
fn eleven_rows_make_a_full_page_and_a_next() {
    let rows: Vec<Post> = (1..=11).map(|i| post(i, "PUBLIC", "x")).collect();
    let page = listing_page(rows, None, &first_window());
    assert_eq!(page.posts.len(), 10);
    assert_eq!(page.posts.last().unwrap().id, 10);
    assert!(page.has_next_page);
    assert_eq!(page.next_page, 2);
}

#[test]
fn ten_rows_make_a_last_page() {
    let rows: Vec<Post> = (1..=10).map(|i| post(i, "PUBLIC", "x")).collect();
    let page = listing_page(rows, None, &first_window());
    assert_eq!(page.posts.len(), 10);
    assert!(!page.has_next_page);
    assert_eq!(page.next_page, 2);
}

#[test]
fn repeated_listing_gives_the_same_result() {
    let rows = || -> Vec<Post> {
        (1..=12).map(|i| post(i, if i % 3 == 0 { "FRIENDS" } else { "PUBLIC" }, "x")).collect()
    };
    let a = listing_page(rows(), None, &first_window());
    let b = listing_page(rows(), None, &first_window());
    let ids_a: Vec<i64> = a.posts.iter().map(|p| p.id).collect();
    let ids_b: Vec<i64> = b.posts.iter().map(|p| p.id).collect();
    assert_eq!(ids_a, ids_b);
    assert_eq!(a.has_next_page, b.has_next_page);
}

#[test]
fn short_body_preview_is_the_body() {
    let p = post(1, "PUBLIC", "hello world");
    assert_eq!(p.preview(), "hello world");
    let exact = "y".repeat(280);
    assert_eq!(post(2, "PUBLIC", &exact).preview(), exact);
    assert_eq!(post(3, "PUBLIC", "").preview(), "");
}

#[test]
fn long_body_preview_is_cut_with_marker() {
    let body = format!("{}{}", "a".repeat(280), "b".repeat(20));
    let p = post(1, "PUBLIC", &body);
    let preview = p.preview();
    assert_eq!(preview.chars().count(), 283);
    assert_eq!(preview, format!("{}...", "a".repeat(280)));
    let body = "z".repeat(281);
    assert_eq!(post(2, "PUBLIC", &body).preview(), format!("{}...", "z".repeat(280)));
}

#[test]
fn preview_counts_characters_not_bytes() {
    let body = "é".repeat(300);
    let preview = post(1, "PUBLIC", &body).preview();
    assert_eq!(preview.chars().count(), 283);
    assert_eq!(preview, format!("{}...", "é".repeat(280)));
    let short = "é".repeat(200);
    assert_eq!(post(2, "PUBLIC", &short).preview(), short);
}

#[test]
fn enriched_post_preview_matches() {
    let body = "c".repeat(290);
    let enriched = enrich_posts(vec![post(1, "PUBLIC", &body)], vec![None], vec![vec![]]);
    assert_eq!(enriched[0].preview(), format!("{}...", "c".repeat(280)));
}

#[test]
fn enrichment_keeps_order_and_joins_by_position() {
    let posts = vec![post(8, "PUBLIC", "a"), post(9, "PUBLIC", "b")];
    let featured = vec![Some(media(8, "x.png")), None];
    let tags = vec![vec![tag(1, "Art"), tag(2, "Zen")], vec![]];
    let out = enrich_posts(posts, featured, tags);
    assert_eq!(out.len(), 2);
    assert_eq!(out[0].id, 8);
    assert_eq!(out[0].body, "a");
    assert_eq!(out[0].featured_media.as_ref().unwrap().file, "x.png");
    assert_eq!(out[0].tags.iter().map(|t| t.name.as_str()).collect::<Vec<_>>(), vec!["Art", "Zen"]);
    assert_eq!(out[1].id, 9);
    assert!(out[1].featured_media.is_none());
    assert!(out[1].tags.is_empty());
}

#[test]
fn unknown_category_gives_an_empty_feed() {
    let scope = category_scope(&None);
    assert_eq!(scope, FeedScope::Empty);
    let page = listing_page(Vec::new(), None, &first_window());
    assert!(page.posts.is_empty());
    assert!(!page.has_next_page);
    let view = FeedTemplate::anonymous(
        enrich_posts(page.posts, vec![], vec![]),
        vec![],
        None,
        category_path("does-not-exist"),
        page.has_next_page,
        page.next_page,
    );
    assert!(view.posts.is_empty());
    assert_eq!(view.current_path, "/category/does-not-exist/");
    assert!(!view.show_dates);
}

#[test]
fn scopes_follow_what_was_found() {
    let cat = Category {
        id: 4,
        name: "News".to_string(),
        slug: "news".to_string(),
        description: None,
        parent_id: None,
        display_order: 0,
        is_active: true,
        created_at: at(0),
        updated_at: at(0),
    };
    assert_eq!(category_scope(&Some(cat)), FeedScope::InCategory(4));
    assert_eq!(tag_scope(&Some(tag(6, "Art"))), FeedScope::WithTag(6));
    assert_eq!(tag_scope(&None), FeedScope::Empty);
    assert_eq!(fragment_scope(&Some(tag(6, "Art"))), FeedScope::WithTag(6));
    assert_eq!(fragment_scope(&None), FeedScope::All);
}

#[test]
fn feed_fragment_carries_paging() {
    let t = FeedItemsTemplate::anonymous(vec![], Some(tag(2, "Art")), true, 5);
    assert!(t.has_next_page);
    assert_eq!(t.next_page, 5);
    assert_eq!(t.current_tag.unwrap().id, 2);
    assert!(!t.show_dates);
}

#[test]
fn paths_of_views() {
    assert_eq!(category_path("news"), "/category/news/");
    assert_eq!(tag_path("rust"), "/tags/rust/");
    assert_eq!(post_path(123), "/posts/123/");
    assert_eq!(post_path(-5), "/posts/-5/");
    assert_eq!(post_path(0), "/posts/0/");
    assert_eq!(page_path("about"), "/about/");
}

#[test]
fn blank_name_is_rejected_and_nothing_stored() {
    let action = contact_action(submission("", "a@b.com", "hi"));
    assert!(matches!(action, ContactAction::Reply(ContactOutcome::Incomplete)));
    let view = ContactTemplate::anonymous(vec![], Some(ContactOutcome::Incomplete));
    assert_eq!(view.error.as_deref(), Some("All fields are required."));
    assert!(view.success_message.is_none());
    assert_eq!(view.current_path, "/contact/");
}

#[test]
fn whitespace_only_fields_are_rejected() {
    for (n, e, m) in [(" \t", "a@b.com", "hi"), ("Ann", "\n", "hi"), ("Ann", "a@b.com", "\u{3000}")] {
        assert!(!submission(n, e, m).is_complete());
        assert!(matches!(
            contact_action(submission(n, e, m)),
            ContactAction::Reply(ContactOutcome::Incomplete)
        ));
    }
}

#[test]
fn complete_submission_is_stored_once_with_status_new() {
    let action = contact_action(submission("Ann", "a@b.com", "hi"));
    match action {
        ContactAction::Store(row) => {
            assert_eq!(row.name, "Ann");
            assert_eq!(row.email, "a@b.com");
            assert_eq!(row.message, "hi");
            assert_eq!(row.status, "NEW");
            assert!(row.user_id.is_none());
            assert!(row.ip_address.is_none());
            assert!(row.user_agent.is_none());
        }
        ContactAction::Reply(_) => panic!("a complete submission must be stored"),
    }
    let view = ContactTemplate::anonymous(vec![], Some(stored_outcome(true)));
    assert_eq!(
        view.success_message.as_deref(),
        Some("Thank you for your message! I'll get back to you soon.")
    );
    assert!(view.error.is_none());
}

#[test]
fn failed_insert_shows_retry_banner() {
    assert_eq!(stored_outcome(false), ContactOutcome::StoreFailed);
    let view = ContactTemplate::anonymous(vec![page("about")], Some(ContactOutcome::StoreFailed));
    assert_eq!(view.error.as_deref(), Some("Sorry, there was an error. Please try again."));
    assert!(view.success_message.is_none());
    assert_eq!(view.nav_pages.len(), 1);
}

#[test]
fn blank_contact_form_has_no_banner() {
    let view = ContactTemplate::anonymous(vec![], None);
    assert!(view.error.is_none());
    assert!(view.success_message.is_none());
    assert!(view.user.is_none());
}

#[test]
fn missing_post_is_not_found_not_internal() {
    let err = found_post(None).unwrap_err();
    assert!(err.is_not_found());
    assert_eq!(err.status_code(), 404);
    assert_eq!(err.public_message(), "Post not found");
    let store = AppError::from(sqlx::Error::RowNotFound);
    assert!(!store.is_not_found());
    assert_eq!(store.status_code(), 500);
    assert_eq!(store.public_message(), "Database error");
}

#[test]
fn found_post_is_passed_on() {
    let p = found_post(Some(post(99, "PUBLIC", "x"))).unwrap();
    assert_eq!(p.id, 99);
    let view = DetailTemplate::anonymous(p, vec![media(99, "a.png")], vec![tag(1, "A")], None, vec![]);
    assert_eq!(view.current_path, "/posts/99/");
    assert_eq!(view.media.len(), 1);
    assert!(!view.show_dates);
}

#[test]
fn internal_error_hides_its_detail() {
    let e = AppError::Internal("disk gone".to_string());
    assert_eq!(e.status_code(), 500);
    assert_eq!(e.public_message(), "Internal error");
    assert!(!e.public_message().contains("disk gone"));
}

#[test]
fn missing_page_is_not_found() {
    let err = found_page(None).unwrap_err();
    assert_eq!(err.status_code(), 404);
    assert_eq!(err.public_message(), "Page not found");
    let view = PageTemplate::anonymous(found_page(Some(page("about"))).unwrap(), vec![], "about");
    assert!(view.posts.is_empty());
    assert_eq!(view.current_path, "/about/");
}

#[test]
fn media_urls() {
    assert_eq!(media(1, "2024/a.png").url(), "/media/2024/a.png");
    let item = MediaLibrary {
        id: 1,
        file: "b.jpg".to_string(),
        content_hash: "h".to_string(),
        media_type: "image".to_string(),
        original_filename: "b.jpg".to_string(),
        file_size: 3,
        width: None,
        height: None,
        mime_type: None,
        uploaded_by_id: None,
        created_at: at(0),
    };
    assert_eq!(item.url(), "/media/b.jpg");
}

#[test]
fn profile_tiers() {
    let admin = profile("ADMIN", None, None);
    assert!(admin.is_admin() && admin.is_friend() && admin.is_close_friend());
    let close = profile("CLOSE_FRIEND", None, None);
    assert!(!close.is_admin() && close.is_friend() && close.is_close_friend());
    let friend = profile("FRIEND", None, None);
    assert!(!friend.is_admin() && friend.is_friend() && !friend.is_close_friend());
    let public = profile("PUBLIC", None, None);
    assert!(!public.is_admin() && !public.is_friend() && !public.is_close_friend());
}

#[test]
fn display_name_prefers_nickname_then_full_name() {
    assert_eq!(profile("PUBLIC", Some("Jo"), Some("Jo Smith")).display_name(), "Jo");
    assert_eq!(profile("PUBLIC", Some(""), Some("Jo Smith")).display_name(), "Jo Smith");
    assert_eq!(profile("PUBLIC", None, Some("")).display_name(), "User 42");
    assert_eq!(profile("PUBLIC", None, None).display_name(), "User 42");
}

#[test]
fn third_page_of_twenty_five_posts() {
    let data: Vec<Post> = (1..=25).map(|i| post(i, "PUBLIC", "x")).collect();
    let w = page_window(Some(3), PER_PAGE).unwrap();
    let slice: Vec<Post> = data
        .into_iter()
        .skip(w.offset as usize)
        .take(w.fetch_limit as usize)
        .collect();
    let page = listing_page(slice, None, &w);
    assert_eq!(page.posts.len(), 5);
    assert_eq!(page.posts[0].id, 21);
    assert!(!page.has_next_page);
    assert_eq!(page.next_page, 4);
}
