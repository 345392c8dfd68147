//! Planning the forum's write operations. A mutation is a short saga of
//! backend steps — create a room, assign its category, send a message — and
//! everything that can be decided without the backend is decided here, ahead
//! of any side effect: validation fails fast, identifiers and aliases are
//! fixed, and the message body is rendered and sanitized.
use vstd::prelude::*;

use crate::alias::{
    category_alias, comment_user_localpart, encode_category, encode_comment_user, encode_post,
    encode_post_alias, post_alias, post_localpart,
};
use crate::html::{render_markdown_comment, spec_markdown_comment_html};
use crate::state::{spec_category_to_wire, MorumCategoryEventContent};
use crate::types::{Error, Room, RoomView};

verus! {

// ---------------------------------------------------------------------------
// Blank-input validation
// ---------------------------------------------------------------------------

/// The Unicode white-space characters, as `str::trim` strips them.
pub open spec fn is_space_char(c: char) -> bool {
    ||| c == '\u{0009}'
    ||| c == '\u{000A}'
    ||| c == '\u{000B}'
    ||| c == '\u{000C}'
    ||| c == '\u{000D}'
    ||| c == ' '
    ||| c == '\u{0085}'
    ||| c == '\u{00A0}'
    ||| c == '\u{1680}'
    ||| ('\u{2000}' <= c && c <= '\u{200A}')
    ||| c == '\u{2028}'
    ||| c == '\u{2029}'
    ||| c == '\u{202F}'
    ||| c == '\u{205F}'
    ||| c == '\u{3000}'
}

/// Blank means empty after trimming: no character is anything but
/// white space.
pub open spec fn spec_is_blank(s: Seq<char>) -> bool {
    forall|i: int| 0 <= i < s.len() ==> is_space_char(#[trigger] s[i])
}

fn is_space(c: char) -> (r: bool)
    ensures
        r == is_space_char(c),
{
    c == '\u{0009}' || c == '\u{000A}' || c == '\u{000B}' || c == '\u{000C}' || c == '\u{000D}'
        || c == ' ' || c == '\u{0085}' || c == '\u{00A0}' || c == '\u{1680}' || ('\u{2000}' <= c
        && c <= '\u{200A}') || c == '\u{2028}' || c == '\u{2029}' || c == '\u{202F}' || c
        == '\u{205F}' || c == '\u{3000}'
}

/// Whether a submitted field is empty after trimming.
pub fn is_blank(s: &str) -> (r: bool)
    ensures
        r == spec_is_blank(s@),
{
    let n = s.unicode_len();
    let mut i: usize = 0;
    while i < n
        invariant
            0 <= i <= n,
            n == s@.len(),
            forall|j: int| 0 <= j < i ==> is_space_char(#[trigger] s@[j]),
        decreases n - i,
    {
        if !is_space(s.get_char(i)) {
            return false;
        }
        i += 1;
    }
    true
}

/// The malformed-input check run before a new post touches the backend:
/// title, topic and body must each be non-empty after trimming, reported in
/// that order.
pub open spec fn spec_validate_new_post(
    title: Seq<char>,
    topic: Seq<char>,
    markdown: Seq<char>,
) -> Result<(), Error> {
    if spec_is_blank(title) {
        Err(Error::BlankTitle)
    } else if spec_is_blank(topic) {
        Err(Error::BlankTopic)
    } else if spec_is_blank(markdown) {
        Err(Error::BlankContent)
    } else {
        Ok(())
    }
}

/// Validates a new post's fields, before any backend call.
pub fn validate_new_post(title: &str, topic: &str, markdown: &str) -> (r: Result<(), Error>)
    ensures
        r == spec_validate_new_post(title@, topic@, markdown@),
{
    if is_blank(title) {
        Err(Error::BlankTitle)
    } else if is_blank(topic) {
        Err(Error::BlankTopic)
    } else if is_blank(markdown) {
        Err(Error::BlankContent)
    } else {
        Ok(())
    }
}

/// The malformed-input check for a new comment: the body must be non-empty
/// after trimming.
pub open spec fn spec_validate_new_comment(markdown: Seq<char>) -> Result<(), Error> {
    if spec_is_blank(markdown) {
        Err(Error::BlankContent)
    } else {
        Ok(())
    }
}

/// Validates a new comment's body, before any backend call.
pub fn validate_new_comment(markdown: &str) -> (r: Result<(), Error>)
    ensures
        r == spec_validate_new_comment(markdown@),
{
    if is_blank(markdown) {
        Err(Error::BlankContent)
    } else {
        Ok(())
    }
}

// ---------------------------------------------------------------------------
// Post id allocation and lookup
// ---------------------------------------------------------------------------

/// The largest post id among the classified rooms, 0 when there are none.
pub open spec fn spec_max_post_id(rooms: Seq<RoomView>) -> nat
    decreases rooms.len(),
{
    if rooms.len() == 0 {
        0
    } else {
        let rest = spec_max_post_id(rooms.drop_last());
        if rooms.last().post_id as nat > rest {
            rooms.last().post_id as nat
        } else {
            rest
        }
    }
}

/// The id the next post is allocated: one past the largest in use.
pub fn next_post_id(rooms: &Vec<Room>) -> (r: u64)
    requires
        spec_max_post_id(rooms.deep_view()) < u64::MAX,
    ensures
        r as nat == spec_max_post_id(rooms.deep_view()) + 1,
{
    let mut max: u64 = 0;
    let mut i: usize = 0;
    while i < rooms.len()
        invariant
            0 <= i <= rooms@.len(),
            rooms.deep_view().len() == rooms@.len(),
            max as nat == spec_max_post_id(rooms.deep_view().take(i as int)),
            spec_max_post_id(rooms.deep_view()) < u64::MAX,
        decreases rooms@.len() - i,
    {
        proof {
            assert(rooms.deep_view()[i as int] == rooms@[i as int]@);
            assert(rooms.deep_view().take(i + 1).drop_last() =~= rooms.deep_view().take(i as int));
            assert(rooms.deep_view().take(i + 1).last() == rooms.deep_view()[i as int]);
        }
        if rooms[i].post_id > max {
            max = rooms[i].post_id;
        }
        i += 1;
    }
    proof {
        assert(rooms.deep_view().take(rooms@.len() as int) =~= rooms.deep_view());
    }
    max + 1
}

/// The classified room carrying post id `id`, the last match winning.
pub open spec fn spec_find_room(rooms: Seq<RoomView>, id: u64) -> Option<RoomView>
    decreases rooms.len(),
{
    if rooms.len() == 0 {
        None
    } else if rooms.last().post_id == id {
        Some(rooms.last())
    } else {
        spec_find_room(rooms.drop_last(), id)
    }
}

/// Resolves a post id against the classified rooms.
pub fn find_room(rooms: &Vec<Room>, id: u64) -> (r: Option<Room>)
    ensures
        r.deep_view() == spec_find_room(rooms.deep_view(), id),
{
    let mut r: Option<Room> = None;
    let mut i: usize = 0;
    while i < rooms.len()
        invariant
            0 <= i <= rooms@.len(),
            rooms.deep_view().len() == rooms@.len(),
            r.deep_view() == spec_find_room(rooms.deep_view().take(i as int), id),
        decreases rooms@.len() - i,
    {
        proof {
            assert(rooms.deep_view()[i as int] == rooms@[i as int]@);
            assert(rooms.deep_view().take(i + 1).drop_last() =~= rooms.deep_view().take(i as int));
            assert(rooms.deep_view().take(i + 1).last() == rooms.deep_view()[i as int]);
        }
        if rooms[i].post_id == id {
            r = Some(rooms[i].cloned());
        }
        i += 1;
    }
    proof {
        assert(rooms.deep_view().take(rooms@.len() as int) =~= rooms.deep_view());
    }
    r
}

// ---------------------------------------------------------------------------
// Message preparation
// ---------------------------------------------------------------------------

/// What is sent for a comment body: the markdown itself as the plain-text
/// body, and its rendered, sanitized HTML as the formatted body.
pub fn prepare_message(markdown: &str) -> (r: (String, String))
    ensures
        r.0@ == markdown@,
        r.1@ == spec_markdown_comment_html(markdown@),
{
    let body = String::from_str(markdown);
    let html = render_markdown_comment(markdown);
    (body, html)
}

// ---------------------------------------------------------------------------
// Mutation plans
// ---------------------------------------------------------------------------

/// The steps of a new-post mutation, fixed before any backend call: create
/// the room under `alias_localpart` with the given title and topic, write
/// `category_wire` as its category assignment, and send `markdown` to
/// `room_alias` as `localpart`.
#[derive(Debug)]
pub struct NewPostPlan {
    pub post_id: u64,
    pub alias_localpart: String,
    pub room_alias: String,
    pub title: String,
    pub topic: String,
    pub category_wire: String,
    pub localpart: String,
    pub markdown: String,
}

/// Plans a new post against the current classified rooms. Validation
/// precedes everything: a blank field fails before a plan — and so before
/// any backend write — exists. The new post id is one past the largest in
/// use, 1 on an empty backend.
pub fn plan_new_post(
    rooms: &Vec<Room>,
    username: &str,
    title: &str,
    topic: &str,
    markdown: &str,
    category_id: &Option<String>,
) -> (r: Result<NewPostPlan, Error>)
    requires
        spec_max_post_id(rooms.deep_view()) < u64::MAX,
    ensures
        match r {
            Ok(plan) => {
                &&& spec_validate_new_post(title@, topic@, markdown@) is Ok
                &&& plan.post_id as nat == spec_max_post_id(rooms.deep_view()) + 1
                &&& plan.alias_localpart@ == post_localpart(plan.post_id as nat)
                &&& plan.room_alias@ == post_alias(plan.post_id as nat)
                &&& plan.title@ == title@
                &&& plan.topic@ == topic@
                &&& plan.category_wire@ == spec_category_to_wire(category_id.deep_view())
                &&& plan.localpart@ == comment_user_localpart(username@)
                &&& plan.markdown@ == markdown@
            },
            Err(e) => spec_validate_new_post(title@, topic@, markdown@) == Err::<(), Error>(e),
        },
{
    validate_new_post(title, topic, markdown)?;
    let post_id = next_post_id(rooms);
    let content = MorumCategoryEventContent {
        category: match category_id {
            None => None,
            Some(c) => Some(c.clone()),
        },
    };
    Ok(
        NewPostPlan {
            post_id,
            alias_localpart: encode_post(post_id),
            room_alias: encode_post_alias(post_id),
            title: String::from_str(title),
            topic: String::from_str(topic),
            category_wire: content.to_wire(),
            localpart: encode_comment_user(username),
            markdown: String::from_str(markdown),
        },
    )
}

/// The steps of a new-comment mutation: ensure `localpart` is registered and
/// joined to `room_alias`, then send `markdown` there.
#[derive(Debug)]
pub struct NewCommentPlan {
    pub room_alias: String,
    pub localpart: String,
    pub markdown: String,
}

/// Plans a new comment. A blank body fails before anything else — and so
/// before any backend write; an id that resolves to no classified room is
/// an unknown post.
pub fn plan_new_comment(
    rooms: &Vec<Room>,
    username: &str,
    post_id: u64,
    markdown: &str,
) -> (r: Result<NewCommentPlan, Error>)
    ensures
        match r {
            Ok(plan) => {
                &&& !spec_is_blank(markdown@)
                &&& spec_find_room(rooms.deep_view(), post_id) is Some
                &&& plan.room_alias@ == post_alias(post_id as nat)
                &&& plan.localpart@ == comment_user_localpart(username@)
                &&& plan.markdown@ == markdown@
            },
            Err(e) => {
                if spec_is_blank(markdown@) {
                    e == Error::BlankContent
                } else {
                    e == Error::UnknownPost && spec_find_room(rooms.deep_view(), post_id) is None
                }
            },
        },
{
    validate_new_comment(markdown)?;
    match find_room(rooms, post_id) {
        None => Err(Error::UnknownPost),
        Some(room) => {
            proof {
                lemma_find_room_id(rooms.deep_view(), post_id);
            }
            Ok(
                NewCommentPlan {
                    room_alias: encode_post_alias(room.post_id),
                    localpart: encode_comment_user(username),
                    markdown: String::from_str(markdown),
                },
            )
        },
    }
}

/// What `find_room` yields carries the id it was asked for.
pub proof fn lemma_find_room_id(rooms: Seq<RoomView>, id: u64)
    ensures
        spec_find_room(rooms, id) matches Some(room) ==> room.post_id == id,
    decreases rooms.len(),
{
    if rooms.len() > 0 {
        lemma_find_room_id(rooms.drop_last(), id);
    }
}

/// The steps of a category reassignment: overwrite the category-assignment
/// state of the room behind `room_alias` with `category_wire`.
#[derive(Debug)]
pub struct SetCategoryPlan {
    pub room_alias: String,
    pub category_wire: String,
}

/// Plans a category reassignment of the room behind an alias.
pub fn plan_set_category(room_alias: &str, category: &Option<String>) -> (r: SetCategoryPlan)
    ensures
        r.room_alias@ == room_alias@,
        r.category_wire@ == spec_category_to_wire(category.deep_view()),
{
    let content = MorumCategoryEventContent {
        category: match category {
            None => None,
            Some(c) => Some(c.clone()),
        },
    };
    SetCategoryPlan {
        room_alias: String::from_str(room_alias),
        category_wire: content.to_wire(),
    }
}

/// The steps of adding a post room to a category space: resolve the
/// category room behind `category_room_alias`, join `child_room` (an alias
/// or a room id), and write a space-child state event for the joined room
/// into the category room, routed via `via_server`.
#[derive(Debug)]
pub struct AddRoomToSpacePlan {
    pub category_room_alias: String,
    pub child_room: String,
    pub via_server: String,
}

/// Plans adding a room to the category space addressed by its slug. The
/// alias is derived here, once, from the slug.
pub fn plan_add_room_to_space(category_slug: &str, child_room: &str) -> (r: AddRoomToSpacePlan)
    ensures
        r.category_room_alias@ == category_alias(category_slug@),
        r.child_room@ == child_room@,
        r.via_server@ == "corepaper.org"@,
{
    AddRoomToSpacePlan {
        category_room_alias: encode_category(category_slug),
        child_room: String::from_str(child_room),
        via_server: String::from_str("corepaper.org"),
    }
}

} // verus!
