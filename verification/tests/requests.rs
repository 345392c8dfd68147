use morum::api::{
    categories_response, check_credentials, claim_current, make_access_claim, post_response,
    posts_response, TOKEN_VALIDITY_SECS,
};
use morum::catalog::{lookup_subcategory, token_to_id};
use morum::classify::{valid_rooms, RoomSnapshot};
use morum::mutate::{
    find_room, is_blank, next_post_id, plan_add_room_to_space, plan_new_comment, plan_new_post,
    plan_set_category, prepare_message, validate_new_comment, validate_new_post,
};
use morum::params::Posts;
use morum::state::StateEventView;
use morum::sync::next_backoff;
use morum::types::{Category, ClosedBetaUser, Error, Message, Room, Subcategory};

fn sub(id: Option<&str>, title: &str) -> Subcategory {
    Subcategory {
        id: id.map(|s| s.to_string()),
        title: title.to_string(),
        topic: format!("topic of {}", title),
    }
}

fn catalog() -> Vec<Category> {
    vec![Category {
        title: "All".to_string(),
        topic: "everything".to_string(),
        subcategories: vec![
            sub(Some("general"), "General"),
            sub(None, "Uncategorized"),
            sub(Some("meta"), "Meta"),
        ],
    }]
}

fn room(post_id: u64, title: &str, category: Option<&str>) -> Room {
    Room {
        title: title.to_string(),
        topic: Some("t".to_string()),
        category: category.map(|c| c.to_string()),
        post_id,
        room_id: format!("!r{}:corepaper.org", post_id),
    }
}

// ---------------------------------------------------------------------------
// Catalog lookup
// ---------------------------------------------------------------------------

#[test]
fn uncategorized_token_addresses_the_none_bucket_only() {
    assert_eq!(token_to_id("uncategorized"), None);
    assert_eq!(token_to_id("general"), Some("general".to_string()));

    let cats = catalog();
    let hit = lookup_subcategory(&cats, &token_to_id("uncategorized")).unwrap();
    assert_eq!(hit.1.id, None);
    assert_eq!(hit.1.title, "Uncategorized");

    let hit = lookup_subcategory(&cats, &token_to_id("general")).unwrap();
    assert_eq!(hit.1.id, Some("general".to_string()));
    assert_eq!(hit.1.title, "General");
}

#[test]
fn lookup_misses_unknown_ids() {
    let cats = catalog();
    assert_eq!(lookup_subcategory(&cats, &Some("absent".to_string())), None);
    let empty: Vec<Category> = Vec::new();
    assert_eq!(lookup_subcategory(&empty, &None), None);
}

#[test]
fn lookup_last_match_wins() {
    let mut cats = catalog();
    cats.push(Category {
        title: "Second".to_string(),
        topic: "s".to_string(),
        subcategories: vec![sub(Some("general"), "General again")],
    });
    let hit = lookup_subcategory(&cats, &Some("general".to_string())).unwrap();
    assert_eq!(hit.0.title, "Second");
    assert_eq!(hit.1.title, "General again");
}

// ---------------------------------------------------------------------------
// Login
// ---------------------------------------------------------------------------

#[test]
fn credentials_check_against_the_user_list() {
    let users = vec![
        ClosedBetaUser {
            username: "alice".to_string(),
            password: "SECRET-REDACTED".to_string(),
        },
        ClosedBetaUser {
            username: "bob".to_string(),
            password: "SECRET-REDACTED".to_string(),
        },
    ];
    assert!(check_credentials(&users, "alice", "SECRET-REDACTED"));
    assert!(!check_credentials(&users, "alice", "wrong"));
    assert!(!check_credentials(&users, "carol", "SECRET-REDACTED"));
    assert!(!check_credentials(&Vec::new(), "alice", "SECRET-REDACTED"));
}

#[test]
fn access_claims_expire_one_week_out() {
    let claim = make_access_claim("alice", 1_000_000);
    assert_eq!(claim.username, "alice");
    assert_eq!(claim.exp, 1_000_000 + TOKEN_VALIDITY_SECS);
    assert_eq!(claim.exp, 1_000_000 + 604800);
    assert!(claim_current(&claim, 1_000_000));
    assert!(claim_current(&claim, claim.exp));
    assert!(!claim_current(&claim, claim.exp + 1));
}

// ---------------------------------------------------------------------------
// Reads
// ---------------------------------------------------------------------------

#[test]
fn categories_response_returns_the_catalog() {
    let cats = catalog();
    let resp = categories_response(&cats);
    assert_eq!(resp.categories, cats);
}

#[test]
fn posts_response_filters_by_category() {
    let cats = catalog();
    let rooms = vec![
        room(1, "One", Some("general")),
        room(2, "Two", None),
        room(3, "Three", Some("general")),
        room(4, "Four", Some("meta")),
    ];
    let resp = posts_response(
        &cats,
        &rooms,
        &Posts {
            category_id: Some("general".to_string()),
        },
    )
    .unwrap();
    assert_eq!(resp.subcategory.id, Some("general".to_string()));
    assert_eq!(resp.posts.len(), 2);
    assert_eq!(resp.posts[0].title, "One");
    assert_eq!(resp.posts[0].id, 1);
    assert_eq!(resp.posts[1].title, "Three");

    let resp = posts_response(&cats, &rooms, &Posts { category_id: None }).unwrap();
    assert_eq!(resp.subcategory.title, "Uncategorized");
    assert_eq!(resp.posts.len(), 1);
    assert_eq!(resp.posts[0].title, "Two");
}

#[test]
fn posts_response_rejects_unknown_category() {
    let cats = catalog();
    let resp = posts_response(
        &cats,
        &Vec::new(),
        &Posts {
            category_id: Some("absent".to_string()),
        },
    );
    assert_eq!(resp.unwrap_err(), Error::UnknownCategory);
}

#[test]
fn post_response_resolves_by_id() {
    let rooms = vec![room(1, "One", None), room(2, "Two", None)];
    let messages = vec![Message {
        html: "<p>hi</p>".to_string(),
        sender: "@u:corepaper.org".to_string(),
    }];
    let resp = post_response(&rooms, 2, &messages).unwrap();
    assert_eq!(resp.post.title, "Two");
    assert_eq!(resp.post.id, 2);
    assert_eq!(resp.comments.len(), 1);
    assert_eq!(resp.comments[0].html, "<p>hi</p>");
    assert_eq!(resp.comments[0].sender, "@u:corepaper.org");

    assert_eq!(
        post_response(&rooms, 9, &messages).unwrap_err(),
        Error::UnknownPost
    );
}

// ---------------------------------------------------------------------------
// Mutations
// ---------------------------------------------------------------------------

#[test]
fn blankness_is_emptiness_after_trimming() {
    assert!(is_blank(""));
    assert!(is_blank("   "));
    assert!(is_blank(" \t\r\n\u{00A0}"));
    assert!(!is_blank("x"));
    assert!(!is_blank("  x  "));
}

#[test]
fn validation_reports_the_first_blank_field() {
    assert_eq!(validate_new_post("", "t", "m"), Err(Error::BlankTitle));
    assert_eq!(validate_new_post("  ", "t", "m"), Err(Error::BlankTitle));
    assert_eq!(validate_new_post("T", " ", "m"), Err(Error::BlankTopic));
    assert_eq!(validate_new_post("T", "t", ""), Err(Error::BlankContent));
    assert_eq!(validate_new_post("T", "t", "m"), Ok(()));
    assert_eq!(validate_new_comment(" \n"), Err(Error::BlankContent));
    assert_eq!(validate_new_comment("m"), Ok(()));
}

#[test]
fn next_post_id_is_one_past_the_max() {
    assert_eq!(next_post_id(&Vec::new()), 1);
    let rooms = vec![room(3, "a", None), room(7, "b", None), room(2, "c", None)];
    assert_eq!(next_post_id(&rooms), 8);
}

#[test]
fn find_room_takes_the_last_match() {
    let rooms = vec![room(1, "First", None), room(1, "Second", None)];
    assert_eq!(find_room(&rooms, 1).unwrap().title, "Second");
    assert_eq!(find_room(&rooms, 2), None);
}

#[test]
fn new_post_on_empty_backend_gets_id_one() {
    let plan = plan_new_post(
        &Vec::new(),
        "alice",
        "Hello",
        "t",
        "**hi**",
        &Some("general".to_string()),
    )
    .unwrap();
    assert_eq!(plan.post_id, 1);
    assert_eq!(plan.alias_localpart, "forum_post_1");
    assert_eq!(plan.room_alias, "#forum_post_1:corepaper.org");
    assert_eq!(plan.title, "Hello");
    assert_eq!(plan.topic, "t");
    assert_eq!(plan.category_wire, "general");
    assert_eq!(plan.localpart, "forum_user_alice");
    assert_eq!(plan.markdown, "**hi**");
}

#[test]
fn new_post_then_query_sees_exactly_one_post() {
    // End to end at the mapping layer: plan the post on an empty backend,
    // classify the room the plan would create, and query its subcategory.
    let plan = plan_new_post(
        &Vec::new(),
        "alice",
        "Hello",
        "t",
        "**hi**",
        &Some("general".to_string()),
    )
    .unwrap();
    assert_eq!(plan.post_id, 1);

    let created = RoomSnapshot {
        room_id: "!new:corepaper.org".to_string(),
        name_events: vec![StateEventView::Original(Some(plan.title.clone()))],
        topic_events: vec![StateEventView::Original(Some(plan.topic.clone()))],
        category_events: vec![StateEventView::Original(Some(plan.category_wire.clone()))],
        aliases: vec![plan.room_alias.clone()],
    };
    let rooms = valid_rooms(&vec![created]);
    assert_eq!(rooms.len(), 1);
    assert_eq!(rooms[0].post_id, 1);

    let resp = posts_response(
        &catalog(),
        &rooms,
        &Posts {
            category_id: Some("general".to_string()),
        },
    )
    .unwrap();
    assert_eq!(resp.posts.len(), 1);
    assert_eq!(resp.posts[0].title, "Hello");
    assert_eq!(resp.posts[0].id, 1);
}

#[test]
fn new_post_ids_grow_with_the_backend() {
    let rooms = vec![room(5, "Old", None)];
    let plan = plan_new_post(&rooms, "alice", "T", "t", "m", &None).unwrap();
    assert_eq!(plan.post_id, 6);
    assert_eq!(plan.category_wire, "");
}

#[test]
fn blank_new_post_fails_before_any_step_exists() {
    assert_eq!(
        plan_new_post(&Vec::new(), "alice", "", "t", "m", &None).unwrap_err(),
        Error::BlankTitle
    );
    assert_eq!(
        plan_new_post(&Vec::new(), "alice", "T", "", "m", &None).unwrap_err(),
        Error::BlankTopic
    );
    assert_eq!(
        plan_new_post(&Vec::new(), "alice", "T", "t", "", &None).unwrap_err(),
        Error::BlankContent
    );
}

#[test]
fn blank_comment_fails_with_no_plan() {
    // An empty body yields no plan at all, so no backend write can follow.
    let rooms = vec![room(1, "One", None)];
    let result = plan_new_comment(&rooms, "alice", 1, "");
    assert_eq!(result.unwrap_err(), Error::BlankContent);
    let result = plan_new_comment(&rooms, "alice", 1, "  \n ");
    assert_eq!(result.unwrap_err(), Error::BlankContent);
}

#[test]
fn comment_on_missing_post_is_unknown() {
    let rooms = vec![room(1, "One", None)];
    assert_eq!(
        plan_new_comment(&rooms, "alice", 2, "hi").unwrap_err(),
        Error::UnknownPost
    );
}

#[test]
fn comment_plan_addresses_the_post_room() {
    let rooms = vec![room(4, "Four", None)];
    let plan = plan_new_comment(&rooms, "bob", 4, "hello").unwrap();
    assert_eq!(plan.room_alias, "#forum_post_4:corepaper.org");
    assert_eq!(plan.localpart, "forum_user_bob");
    assert_eq!(plan.markdown, "hello");
}

#[test]
fn set_category_plan_carries_the_wire_sentinel() {
    let plan = plan_set_category("#forum_post_4:corepaper.org", &None);
    assert_eq!(plan.room_alias, "#forum_post_4:corepaper.org");
    assert_eq!(plan.category_wire, "");
    let plan = plan_set_category("#forum_post_4:corepaper.org", &Some("meta".to_string()));
    assert_eq!(plan.category_wire, "meta");
}

#[test]
fn prepared_messages_keep_plain_body_and_sanitize_html() {
    let (body, html) = prepare_message("**hi**");
    assert_eq!(body, "**hi**");
    assert!(html.contains("<strong>hi</strong>"));
}

#[test]
fn add_room_to_space_plan_derives_the_category_alias() {
    let plan = plan_add_room_to_space("general", "!abc:corepaper.org");
    assert_eq!(plan.category_room_alias, "#forum-general:corepaper.org");
    assert_eq!(plan.child_room, "!abc:corepaper.org");
    assert_eq!(plan.via_server, "corepaper.org");
}

// ---------------------------------------------------------------------------
// Sync backoff
// ---------------------------------------------------------------------------

#[test]
fn backoff_doubles_up_to_the_cap() {
    assert_eq!(next_backoff(0), 1000);
    assert_eq!(next_backoff(1000), 2000);
    assert_eq!(next_backoff(16000), 32000);
    assert_eq!(next_backoff(32000), 60000);
    assert_eq!(next_backoff(60000), 60000);
}
