use morum::classify::{classify_room, post_id_of_aliases, valid_rooms, RoomSnapshot};
use morum::space::{
    categories_from_children, category_posts, children_of_space, post_with_comments,
    posts_from_children, SpaceChildRef, SpaceChildRoom,
};
use morum::state::{first_state_value, MorumCategoryEventContent, StateEventView};
use morum::types::Error;

fn original(value: Option<&str>) -> StateEventView {
    StateEventView::Original(value.map(|s| s.to_string()))
}

fn snapshot(
    name: Option<&str>,
    topic: Option<&str>,
    category_wire: Option<&str>,
    aliases: &[&str],
) -> RoomSnapshot {
    RoomSnapshot {
        room_id: "!room:corepaper.org".to_string(),
        name_events: name.map(|n| vec![original(Some(n))]).unwrap_or_default(),
        topic_events: topic.map(|t| vec![original(Some(t))]).unwrap_or_default(),
        category_events: category_wire
            .map(|c| vec![original(Some(c))])
            .unwrap_or_default(),
        aliases: aliases.iter().map(|a| a.to_string()).collect(),
    }
}

#[test]
fn first_state_value_reads_the_first_event() {
    assert_eq!(first_state_value(&vec![]), None);
    assert_eq!(first_state_value(&vec![StateEventView::Redacted]), None);
    assert_eq!(first_state_value(&vec![StateEventView::Malformed]), None);
    assert_eq!(first_state_value(&vec![original(None)]), None);
    assert_eq!(
        first_state_value(&vec![original(Some("x")), original(Some("y"))]),
        Some("x".to_string())
    );
    assert_eq!(
        first_state_value(&vec![StateEventView::Redacted, original(Some("y"))]),
        None
    );
}

#[test]
fn category_wire_sentinel_round_trips() {
    let unassigned = MorumCategoryEventContent { category: None };
    assert_eq!(unassigned.to_wire(), "");
    assert_eq!(MorumCategoryEventContent::of_wire("".to_string()).category, None);

    let assigned = MorumCategoryEventContent {
        category: Some("general".to_string()),
    };
    assert_eq!(assigned.to_wire(), "general");
    assert_eq!(
        MorumCategoryEventContent::of_wire("general".to_string()).category,
        Some("general".to_string())
    );
}

#[test]
fn untitled_room_is_excluded() {
    // A decodable post alias alone does not materialize a room.
    let room = snapshot(None, None, None, &["#forum_post_4:corepaper.org"]);
    assert_eq!(classify_room(&room), None);
    assert_eq!(valid_rooms(&vec![room]).len(), 0);
}

#[test]
fn room_without_post_alias_is_excluded() {
    let room = snapshot(Some("Hello"), Some("t"), None, &["#forum-general:corepaper.org"]);
    assert_eq!(classify_room(&room), None);
}

#[test]
fn titled_room_with_alias_is_classified() {
    let room = snapshot(
        Some("Hello"),
        Some("t"),
        Some("general"),
        &["#forum_post_4:corepaper.org"],
    );
    let classified = classify_room(&room).unwrap();
    assert_eq!(classified.title, "Hello");
    assert_eq!(classified.topic, Some("t".to_string()));
    assert_eq!(classified.category, Some("general".to_string()));
    assert_eq!(classified.post_id, 4);
    assert_eq!(classified.room_id, "!room:corepaper.org");
}

#[test]
fn empty_category_wire_means_uncategorized() {
    let room = snapshot(Some("Hello"), None, Some(""), &["#forum_post_4:corepaper.org"]);
    let classified = classify_room(&room).unwrap();
    assert_eq!(classified.category, None);
    assert_eq!(classified.topic, None);
}

#[test]
fn last_decodable_alias_wins() {
    let aliases = vec![
        "#forum_post_1:corepaper.org".to_string(),
        "#unrelated:corepaper.org".to_string(),
        "#forum_post_2:corepaper.org".to_string(),
    ];
    assert_eq!(post_id_of_aliases(&aliases), Some(2));
    let aliases = vec![
        "#forum_post_3:corepaper.org".to_string(),
        "#unrelated:corepaper.org".to_string(),
    ];
    assert_eq!(post_id_of_aliases(&aliases), Some(3));
    assert_eq!(post_id_of_aliases(&vec![]), None);
}

#[test]
fn valid_rooms_keeps_enumeration_order() {
    let rooms = vec![
        snapshot(Some("One"), None, None, &["#forum_post_1:corepaper.org"]),
        snapshot(None, None, None, &["#forum_post_9:corepaper.org"]),
        snapshot(Some("Two"), None, None, &["#forum_post_2:corepaper.org"]),
    ];
    let classified = valid_rooms(&rooms);
    assert_eq!(classified.len(), 2);
    assert_eq!(classified[0].title, "One");
    assert_eq!(classified[1].title, "Two");
}

fn child(name: Option<&str>, topic: Option<&str>, alias: Option<&str>) -> SpaceChildRoom {
    SpaceChildRoom {
        room_id: "!child:corepaper.org".to_string(),
        name_events: name.map(|n| vec![original(Some(n))]).unwrap_or_default(),
        topic_events: topic.map(|t| vec![original(Some(t))]).unwrap_or_default(),
        canonical_alias: alias.map(|a| a.to_string()),
    }
}

#[test]
fn children_of_space_skips_unparsed_events() {
    let refs = vec![
        SpaceChildRef {
            child_room_id: "!a:corepaper.org".to_string(),
            valid: true,
        },
        SpaceChildRef {
            child_room_id: "!b:corepaper.org".to_string(),
            valid: false,
        },
        SpaceChildRef {
            child_room_id: "!c:corepaper.org".to_string(),
            valid: true,
        },
    ];
    assert_eq!(
        children_of_space(&refs),
        vec!["!a:corepaper.org".to_string(), "!c:corepaper.org".to_string()]
    );
}

#[test]
fn category_room_projects_all_fields() {
    let children = vec![child(
        Some("General"),
        Some("things"),
        Some("#forum-general:corepaper.org"),
    )];
    let cats = categories_from_children(&children).unwrap();
    assert_eq!(cats.len(), 1);
    assert_eq!(cats[0].title, "General");
    assert_eq!(cats[0].topic, "things");
    assert_eq!(cats[0].room_local_id, "general");
}

#[test]
fn malformed_category_rooms_are_hard_errors() {
    let no_title = vec![child(None, Some("t"), Some("#forum-x:corepaper.org"))];
    assert_eq!(
        categories_from_children(&no_title),
        Err(Error::UnknownCategoryTitle)
    );
    let no_topic = vec![child(Some("X"), None, Some("#forum-x:corepaper.org"))];
    assert_eq!(
        categories_from_children(&no_topic),
        Err(Error::UnknownCategoryTopic)
    );
    let no_alias = vec![child(Some("X"), Some("t"), None)];
    assert_eq!(
        categories_from_children(&no_alias),
        Err(Error::InvalidCategoryAlias)
    );
    let bad_alias = vec![child(Some("X"), Some("t"), Some("#forum_post_1:corepaper.org"))];
    assert_eq!(
        categories_from_children(&bad_alias),
        Err(Error::InvalidCategoryAlias)
    );
}

#[test]
fn first_defective_category_aborts() {
    let children = vec![
        child(Some("A"), Some("ta"), Some("#forum-a:corepaper.org")),
        child(None, Some("tb"), Some("#forum-b:corepaper.org")),
        child(Some("C"), None, Some("#forum-c:corepaper.org")),
    ];
    assert_eq!(
        categories_from_children(&children),
        Err(Error::UnknownCategoryTitle)
    );
}

#[test]
fn post_rooms_keep_optional_topic() {
    let children = vec![
        child(Some("P1"), Some("t1"), None),
        child(Some("P2"), None, None),
    ];
    let posts = posts_from_children(&children);
    assert_eq!(posts.len(), 2);
    assert_eq!(posts[0].title, "P1");
    assert_eq!(posts[0].topic, Some("t1".to_string()));
    assert_eq!(posts[1].topic, None);
    assert_eq!(posts[1].room_id, "!child:corepaper.org");
}

#[test]
fn untitled_post_rooms_are_excluded_from_the_listing() {
    // Unlike category rooms, a malformed post room is skipped, not fatal.
    let children = vec![
        child(Some("P1"), None, None),
        child(None, Some("t"), None),
        child(Some("P2"), None, None),
    ];
    let posts = posts_from_children(&children);
    assert_eq!(posts.len(), 2);
    assert_eq!(posts[0].title, "P1");
    assert_eq!(posts[1].title, "P2");

    let none = posts_from_children(&vec![child(None, None, None)]);
    assert_eq!(none.len(), 0);
}

#[test]
fn category_posts_pairs_category_and_children() {
    let cat_room = child(Some("General"), Some("gt"), Some("#forum-general:corepaper.org"));
    let children = vec![child(Some("P1"), None, None)];
    let (cat, posts) = category_posts(&cat_room, &children).unwrap();
    assert_eq!(cat.room_local_id, "general");
    assert_eq!(posts.len(), 1);
    assert_eq!(posts[0].title, "P1");
}

#[test]
fn single_post_view_still_requires_a_title() {
    // The one place a missing post title is an error: asking for that post
    // itself.
    let room = child(None, None, None);
    assert_eq!(
        post_with_comments(&room, &vec![]),
        Err(Error::UnknownPostTitle)
    );
}

#[test]
fn single_post_view_projects_room_and_comments() {
    let room = child(Some("P1"), Some("t1"), None);
    let (post, comments) = post_with_comments(&room, &vec![]).unwrap();
    assert_eq!(post.title, "P1");
    assert_eq!(post.topic, Some("t1".to_string()));
    assert_eq!(comments.len(), 0);
}
