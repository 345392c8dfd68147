//! The read side of the forum API: credential checking, the posts of a
//! subcategory, and a post with its collated comments. Each function is the
//! decision part of one request; the surrounding program fetches the backend
//! state it consumes.
use vstd::prelude::*;

use crate::catalog::{lookup_subcategory, opt_string_eq, spec_lookup};
use crate::mutate::{find_room, spec_find_room};
use crate::params::{CategoriesResponse, Posts, PostsResponse, PostResponse};
use crate::types::{
    AccessClaim, ClosedBetaUser, ClosedBetaUserView, Comment, CommentView, Error, Message,
    MessageView, Post, PostView, Room, RoomView,
};

verus! {

// ---------------------------------------------------------------------------
// Login
// ---------------------------------------------------------------------------

/// How long an access token stays valid: one week, in seconds.
pub const TOKEN_VALIDITY_SECS: u64 = 604800;

/// Whether the submitted username and password match a closed-beta user.
pub open spec fn spec_credentials_valid(
    users: Seq<ClosedBetaUserView>,
    username: Seq<char>,
    password: Seq<char>,
) -> bool {
    exists|i: int|
        0 <= i < users.len() && #[trigger] users[i].username == username && users[i].password
            == password
}

/// Checks a login against the closed-beta user list.
pub fn check_credentials(users: &Vec<ClosedBetaUser>, username: &str, password: &str) -> (r: bool)
    ensures
        r == spec_credentials_valid(users.deep_view(), username@, password@),
{
    let u = String::from_str(username);
    let p = String::from_str(password);
    let mut i: usize = 0;
    while i < users.len()
        invariant
            0 <= i <= users@.len(),
            users.deep_view().len() == users@.len(),
            u@ == username@,
            p@ == password@,
            forall|j: int|
                0 <= j < i ==> !(#[trigger] users.deep_view()[j].username == username@
                    && users.deep_view()[j].password == password@),
        decreases users@.len() - i,
    {
        proof {
            assert(users.deep_view()[i as int] == users@[i as int]@);
        }
        if users[i].username == u && users[i].password == p {
            proof {
                assert(users.deep_view()[i as int].username == username@
                    && users.deep_view()[i as int].password == password@);
            }
            return true;
        }
        i += 1;
    }
    false
}

/// The claim behind a fresh access token: the user it names, expiring one
/// validity period after `now` (unix seconds).
pub fn make_access_claim(username: &str, now: u64) -> (r: AccessClaim)
    requires
        now <= u64::MAX - TOKEN_VALIDITY_SECS,
    ensures
        r@.username == username@,
        r@.exp == now + TOKEN_VALIDITY_SECS,
{
    AccessClaim { username: String::from_str(username), exp: now + TOKEN_VALIDITY_SECS }
}

/// Whether a presented claim still authorizes a write at `now`: it must not
/// have expired.
pub open spec fn spec_claim_current(exp: u64, now: u64) -> bool {
    now <= exp
}

/// Checks a presented claim against the clock.
pub fn claim_current(claim: &AccessClaim, now: u64) -> (r: bool)
    ensures
        r == spec_claim_current(claim@.exp, now),
{
    now <= claim.exp
}

// ---------------------------------------------------------------------------
// The category catalog, as a response
// ---------------------------------------------------------------------------

/// Answers a categories query: the configured catalog, unchanged.
pub fn categories_response(categories: &Vec<crate::types::Category>) -> (r: CategoriesResponse)
    ensures
        r.categories.deep_view() == categories.deep_view(),
{
    let mut cats: Vec<crate::types::Category> = Vec::new();
    let mut i: usize = 0;
    proof {
        assert(cats.deep_view() =~= categories.deep_view().take(0));
    }
    while i < categories.len()
        invariant
            0 <= i <= categories@.len(),
            categories.deep_view().len() == categories@.len(),
            cats.deep_view() == categories.deep_view().take(i as int),
        decreases categories@.len() - i,
    {
        proof {
            assert(categories.deep_view()[i as int] == categories@[i as int]@);
        }
        let ghost pre = cats.deep_view();
        cats.push(categories[i].cloned());
        proof {
            assert(cats.deep_view() =~= pre.push(categories.deep_view()[i as int]));
            assert(cats.deep_view() =~= categories.deep_view().take(i + 1));
        }
        i += 1;
    }
    proof {
        assert(categories.deep_view().take(categories@.len() as int) =~= categories.deep_view());
    }
    CategoriesResponse { categories: cats }
}

// ---------------------------------------------------------------------------
// Posts of a subcategory
// ---------------------------------------------------------------------------

/// The posts of the classified rooms whose category equals `id`, in
/// enumeration order.
pub open spec fn spec_posts_in(rooms: Seq<RoomView>, id: Option<Seq<char>>) -> Seq<PostView>
    decreases rooms.len(),
{
    if rooms.len() == 0 {
        Seq::empty()
    } else {
        spec_posts_in(rooms.drop_last(), id) + if rooms.last().category == id {
            seq![
                PostView {
                    title: rooms.last().title,
                    topic: rooms.last().topic,
                    id: rooms.last().post_id,
                },
            ]
        } else {
            Seq::empty()
        }
    }
}

/// Answers a posts query: the category and subcategory the request
/// addresses, and every classified room assigned to it, as posts. An id no
/// subcategory carries is an unknown category.
pub fn posts_response(
    categories: &Vec<crate::types::Category>,
    rooms: &Vec<Room>,
    query: &Posts,
) -> (r: Result<PostsResponse, Error>)
    ensures
        match r {
            Ok(resp) => {
                &&& spec_lookup(categories.deep_view(), query.category_id.deep_view()) == Some(
                    (resp.category@, resp.subcategory@),
                )
                &&& resp.posts.deep_view() == spec_posts_in(
                    rooms.deep_view(),
                    query.category_id.deep_view(),
                )
            },
            Err(e) => e == Error::UnknownCategory && spec_lookup(
                categories.deep_view(),
                query.category_id.deep_view(),
            ) is None,
        },
{
    let looked_up = lookup_subcategory(categories, &query.category_id);
    match looked_up {
        None => Err(Error::UnknownCategory),
        Some((category, subcategory)) => {
            let mut posts: Vec<Post> = Vec::new();
            let mut i: usize = 0;
            proof {
                assert(posts.deep_view() =~= spec_posts_in(
                    rooms.deep_view().take(0),
                    query.category_id.deep_view(),
                ));
            }
            while i < rooms.len()
                invariant
                    0 <= i <= rooms@.len(),
                    rooms.deep_view().len() == rooms@.len(),
                    posts.deep_view() == spec_posts_in(
                        rooms.deep_view().take(i as int),
                        query.category_id.deep_view(),
                    ),
                decreases rooms@.len() - i,
            {
                proof {
                    assert(rooms.deep_view()[i as int] == rooms@[i as int]@);
                    assert(rooms.deep_view().take(i + 1).drop_last() =~= rooms.deep_view().take(
                        i as int,
                    ));
                    assert(rooms.deep_view().take(i + 1).last() == rooms.deep_view()[i as int]);
                }
                let ghost pre = posts.deep_view();
                if opt_string_eq(&rooms[i].category, &query.category_id) {
                    let room = rooms[i].cloned();
                    posts.push(Post { title: room.title, topic: room.topic, id: room.post_id });
                    proof {
                        assert(posts.deep_view() =~= pre.push(
                            PostView {
                                title: rooms.deep_view()[i as int].title,
                                topic: rooms.deep_view()[i as int].topic,
                                id: rooms.deep_view()[i as int].post_id,
                            },
                        ));
                    }
                }
                proof {
                    assert(posts.deep_view() =~= spec_posts_in(
                        rooms.deep_view().take(i + 1),
                        query.category_id.deep_view(),
                    ));
                }
                i += 1;
            }
            proof {
                assert(rooms.deep_view().take(rooms@.len() as int) =~= rooms.deep_view());
            }
            Ok(PostsResponse { category, subcategory, posts })
        },
    }
}

// ---------------------------------------------------------------------------
// One post with its comments
// ---------------------------------------------------------------------------

/// Collated messages exposed as API comments, in order.
pub open spec fn spec_comments_of_messages(messages: Seq<MessageView>) -> Seq<CommentView> {
    messages.map_values(|m: MessageView| CommentView { html: m.html, sender: m.sender })
}

/// Answers a post query from the classified rooms and the post room's
/// collated messages: an id no room carries is an unknown post.
pub fn post_response(rooms: &Vec<Room>, id: u64, messages: &Vec<Message>) -> (r: Result<
    PostResponse,
    Error,
>)
    ensures
        match r {
            Ok(resp) => {
                &&& spec_find_room(rooms.deep_view(), id) matches Some(room) && resp.post@
                    == (PostView { title: room.title, topic: room.topic, id: room.post_id })
                &&& resp.comments.deep_view() == spec_comments_of_messages(messages.deep_view())
            },
            Err(e) => e == Error::UnknownPost && spec_find_room(rooms.deep_view(), id) is None,
        },
{
    match find_room(rooms, id) {
        None => Err(Error::UnknownPost),
        Some(room) => {
            let mut comments: Vec<Comment> = Vec::new();
            let mut i: usize = 0;
            proof {
                assert(comments.deep_view() =~= spec_comments_of_messages(
                    messages.deep_view(),
                ).take(0));
            }
            while i < messages.len()
                invariant
                    0 <= i <= messages@.len(),
                    messages.deep_view().len() == messages@.len(),
                    comments.deep_view() == spec_comments_of_messages(messages.deep_view()).take(
                        i as int,
                    ),
                decreases messages@.len() - i,
            {
                proof {
                    assert(messages.deep_view()[i as int] == messages@[i as int]@);
                }
                let ghost pre = comments.deep_view();
                let m = &messages[i];
                comments.push(Comment { html: m.html.clone(), sender: m.sender.clone() });
                proof {
                    let mapped = spec_comments_of_messages(messages.deep_view());
                    assert(mapped.len() == messages.deep_view().len());
                    assert(mapped[i as int] == CommentView {
                        html: messages.deep_view()[i as int].html,
                        sender: messages.deep_view()[i as int].sender,
                    });
                    assert(comments.deep_view() =~= pre.push(mapped[i as int]));
                    assert(comments.deep_view() =~= mapped.take(i + 1));
                }
                i += 1;
            }
            proof {
                assert(spec_comments_of_messages(messages.deep_view()).take(
                    messages@.len() as int,
                ) =~= spec_comments_of_messages(messages.deep_view()));
            }
            Ok(
                PostResponse {
                    post: Post { title: room.title, topic: room.topic, id: room.post_id },
                    comments,
                },
            )
        },
    }
}

} // verus!
