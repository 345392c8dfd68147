//! The dynamic category catalog: one designated top-level room is a space
//! whose child rooms are the categories, and each category room's children
//! are its posts. Unlike post rooms, a malformed category room is an
//! operator-visible defect: it is a hard error, never silently skipped.
use vstd::prelude::*;

use crate::alias::{decode_category_alias, spec_decode_category_alias};
use crate::state::{first_state_value, spec_first_state_value, StateEventView, StateEventViewV};
use crate::timeline::{collate_comments, spec_collate_comments, TimelineItem};
use crate::types::{Error, Message, RoomCategory, RoomCategoryView, RoomPost, RoomPostView};

verus! {

// ---------------------------------------------------------------------------
// Space traversal inputs
// ---------------------------------------------------------------------------

/// One space-child state event of a space room: the child room id it is
/// keyed by, and whether its content parsed.
#[derive(Clone, Debug, PartialEq, Eq)]
pub struct SpaceChildRef {
    pub child_room_id: String,
    pub valid: bool,
}

pub struct SpaceChildRefV {
    pub child_room_id: Seq<char>,
    pub valid: bool,
}

impl View for SpaceChildRef {
    type V = SpaceChildRefV;

    open spec fn view(&self) -> SpaceChildRefV {
        SpaceChildRefV { child_room_id: self.child_room_id@, valid: self.valid }
    }
}

impl DeepView for SpaceChildRef {
    type V = SpaceChildRefV;

    open spec fn deep_view(&self) -> SpaceChildRefV {
        self.view()
    }
}

/// What the dynamic catalog reads of one room: its state events by type and
/// its canonical alias.
#[derive(Clone, Debug, PartialEq, Eq)]
pub struct SpaceChildRoom {
    pub room_id: String,
    pub name_events: Vec<StateEventView>,
    pub topic_events: Vec<StateEventView>,
    pub canonical_alias: Option<String>,
}

pub struct SpaceChildRoomV {
    pub room_id: Seq<char>,
    pub name_events: Seq<StateEventViewV>,
    pub topic_events: Seq<StateEventViewV>,
    pub canonical_alias: Option<Seq<char>>,
}

impl View for SpaceChildRoom {
    type V = SpaceChildRoomV;

    open spec fn view(&self) -> SpaceChildRoomV {
        SpaceChildRoomV {
            room_id: self.room_id@,
            name_events: self.name_events.deep_view(),
            topic_events: self.topic_events.deep_view(),
            canonical_alias: self.canonical_alias.deep_view(),
        }
    }
}

impl DeepView for SpaceChildRoom {
    type V = SpaceChildRoomV;

    open spec fn deep_view(&self) -> SpaceChildRoomV {
        self.view()
    }
}

// ---------------------------------------------------------------------------
// Child enumeration
// ---------------------------------------------------------------------------

/// The child room ids of a space: the state key of every space-child event
/// whose content parsed, in event order.
pub open spec fn spec_children_of_space(refs: Seq<SpaceChildRefV>) -> Seq<Seq<char>>
    decreases refs.len(),
{
    if refs.len() == 0 {
        Seq::empty()
    } else {
        spec_children_of_space(refs.drop_last()) + if refs.last().valid {
            seq![refs.last().child_room_id]
        } else {
            Seq::empty()
        }
    }
}

/// Enumerates a space's child room ids, skipping events that failed to
/// parse.
pub fn children_of_space(refs: &Vec<SpaceChildRef>) -> (r: Vec<String>)
    ensures
        r.deep_view() == spec_children_of_space(refs.deep_view()),
{
    let mut r: Vec<String> = Vec::new();
    let mut i: usize = 0;
    proof {
        assert(r.deep_view() =~= spec_children_of_space(refs.deep_view().take(0)));
    }
    while i < refs.len()
        invariant
            0 <= i <= refs@.len(),
            refs.deep_view().len() == refs@.len(),
            r.deep_view() == spec_children_of_space(refs.deep_view().take(i as int)),
        decreases refs@.len() - i,
    {
        proof {
            assert(refs.deep_view()[i as int] == refs@[i as int]@);
            assert(refs.deep_view().take(i + 1).drop_last() =~= refs.deep_view().take(i as int));
            assert(refs.deep_view().take(i + 1).last() == refs.deep_view()[i as int]);
        }
        let ghost pre = r.deep_view();
        if refs[i].valid {
            r.push(refs[i].child_room_id.clone());
        }
        proof {
            assert(r.deep_view() =~= spec_children_of_space(refs.deep_view().take(i + 1)));
        }
        i += 1;
    }
    proof {
        assert(refs.deep_view().take(refs@.len() as int) =~= refs.deep_view());
    }
    r
}

// ---------------------------------------------------------------------------
// Category rooms
// ---------------------------------------------------------------------------

/// How one child room becomes a category: it must carry a title, a topic,
/// and a canonical alias matching the category grammar — each missing piece
/// is its own hard error.
pub open spec fn spec_category_of_child(c: SpaceChildRoomV) -> Result<RoomCategoryView, Error> {
    let title = spec_first_state_value(c.name_events);
    let topic = spec_first_state_value(c.topic_events);
    if title is None {
        Err(Error::UnknownCategoryTitle)
    } else if topic is None {
        Err(Error::UnknownCategoryTopic)
    } else {
        match c.canonical_alias {
            None => Err(Error::InvalidCategoryAlias),
            Some(alias) => match spec_decode_category_alias(alias) {
                None => Err(Error::InvalidCategoryAlias),
                Some(slug) => Ok(
                    RoomCategoryView { title: title->0, topic: topic->0, room_local_id: slug },
                ),
            },
        }
    }
}

/// Projects one category room, or says which mandatory piece it lacks.
pub fn category_of_child(c: &SpaceChildRoom) -> (r: Result<RoomCategory, Error>)
    ensures
        match r {
            Ok(cat) => spec_category_of_child(c@) == Ok::<RoomCategoryView, Error>(cat@),
            Err(e) => spec_category_of_child(c@) == Err::<RoomCategoryView, Error>(e),
        },
{
    let title = match first_state_value(&c.name_events) {
        Some(t) => t,
        None => {
            return Err(Error::UnknownCategoryTitle);
        },
    };
    let topic = match first_state_value(&c.topic_events) {
        Some(t) => t,
        None => {
            return Err(Error::UnknownCategoryTopic);
        },
    };
    let alias = match &c.canonical_alias {
        Some(a) => a,
        None => {
            return Err(Error::InvalidCategoryAlias);
        },
    };
    match decode_category_alias(alias.as_str()) {
        None => Err(Error::InvalidCategoryAlias),
        Some(slug) => Ok(RoomCategory { title, topic, room_local_id: slug }),
    }
}

/// The categories of the space, processed in child order with the first
/// defective room aborting the traversal.
pub open spec fn spec_categories_with(
    acc: Seq<RoomCategoryView>,
    children: Seq<SpaceChildRoomV>,
) -> Result<Seq<RoomCategoryView>, Error>
    decreases children.len(),
{
    if children.len() == 0 {
        Ok(acc)
    } else {
        match spec_category_of_child(children.first()) {
            Err(e) => Err(e),
            Ok(cat) => spec_categories_with(acc.push(cat), children.drop_first()),
        }
    }
}

pub open spec fn spec_categories_from_children(children: Seq<SpaceChildRoomV>) -> Result<
    Seq<RoomCategoryView>,
    Error,
> {
    spec_categories_with(Seq::empty(), children)
}

/// Projects every child room of the top-level space into a category. A
/// malformed category room is a configuration defect: the first one aborts
/// with its error.
pub fn categories_from_children(children: &Vec<SpaceChildRoom>) -> (r: Result<
    Vec<RoomCategory>,
    Error,
>)
    ensures
        match r {
            Ok(cats) => spec_categories_from_children(children.deep_view()) == Ok::<
                Seq<RoomCategoryView>,
                Error,
            >(cats.deep_view()),
            Err(e) => spec_categories_from_children(children.deep_view()) == Err::<
                Seq<RoomCategoryView>,
                Error,
            >(e),
        },
{
    let mut cats: Vec<RoomCategory> = Vec::new();
    let mut i: usize = 0;
    proof {
        assert(children.deep_view().skip(0) =~= children.deep_view());
        assert(cats.deep_view() =~= Seq::<RoomCategoryView>::empty());
    }
    while i < children.len()
        invariant
            0 <= i <= children@.len(),
            children.deep_view().len() == children@.len(),
            spec_categories_with(cats.deep_view(), children.deep_view().skip(i as int))
                == spec_categories_from_children(children.deep_view()),
        decreases children@.len() - i,
    {
        proof {
            assert(children.deep_view()[i as int] == children@[i as int]@);
            assert(children.deep_view().skip(i as int).first() == children.deep_view()[i as int]);
            assert(children.deep_view().skip(i as int).drop_first() =~= children.deep_view().skip(
                i + 1,
            ));
        }
        let ghost pre = cats.deep_view();
        match category_of_child(&children[i]) {
            Err(e) => {
                return Err(e);
            },
            Ok(cat) => {
                cats.push(cat);
                proof {
                    assert(cats.deep_view() =~= pre.push(
                        spec_category_of_child(children.deep_view()[i as int])->Ok_0,
                    ));
                }
            },
        }
        i += 1;
    }
    proof {
        assert(children.deep_view().skip(children@.len() as int) =~= Seq::<
            SpaceChildRoomV,
        >::empty());
    }
    Ok(cats)
}

// ---------------------------------------------------------------------------
// Post rooms under a category
// ---------------------------------------------------------------------------

/// How one room becomes a dynamic-mode post: it must carry a title; the
/// topic is optional and the raw room id is the identity.
pub open spec fn spec_post_of_room(c: SpaceChildRoomV) -> Result<RoomPostView, Error> {
    match spec_first_state_value(c.name_events) {
        None => Err(Error::UnknownPostTitle),
        Some(title) => Ok(
            RoomPostView {
                title,
                topic: spec_first_state_value(c.topic_events),
                room_id: c.room_id,
            },
        ),
    }
}

/// Projects one post room, or reports its missing title.
pub fn post_of_room(c: &SpaceChildRoom) -> (r: Result<RoomPost, Error>)
    ensures
        match r {
            Ok(post) => spec_post_of_room(c@) == Ok::<RoomPostView, Error>(post@),
            Err(e) => spec_post_of_room(c@) == Err::<RoomPostView, Error>(e),
        },
{
    match first_state_value(&c.name_events) {
        None => Err(Error::UnknownPostTitle),
        Some(title) => Ok(
            RoomPost {
                title,
                topic: first_state_value(&c.topic_events),
                room_id: c.room_id.clone(),
            },
        ),
    }
}

/// The posts under a category room, in child order: every titled child
/// projected; a child with no derivable title is silently excluded, as a
/// malformed post room is everywhere outside the single-post view.
pub open spec fn spec_posts_from_children(children: Seq<SpaceChildRoomV>) -> Seq<RoomPostView>
    decreases children.len(),
{
    if children.len() == 0 {
        Seq::empty()
    } else {
        spec_posts_from_children(children.drop_last()) + match spec_post_of_room(children.last()) {
            Ok(post) => seq![post],
            Err(_) => Seq::empty(),
        }
    }
}

/// Projects the child rooms of a category room into its post listing,
/// silently dropping those without a derivable title.
pub fn posts_from_children(children: &Vec<SpaceChildRoom>) -> (r: Vec<RoomPost>)
    ensures
        r.deep_view() == spec_posts_from_children(children.deep_view()),
{
    let mut posts: Vec<RoomPost> = Vec::new();
    let mut i: usize = 0;
    proof {
        assert(posts.deep_view() =~= spec_posts_from_children(children.deep_view().take(0)));
    }
    while i < children.len()
        invariant
            0 <= i <= children@.len(),
            children.deep_view().len() == children@.len(),
            posts.deep_view() == spec_posts_from_children(children.deep_view().take(i as int)),
        decreases children@.len() - i,
    {
        proof {
            assert(children.deep_view()[i as int] == children@[i as int]@);
            assert(children.deep_view().take(i + 1).drop_last() =~= children.deep_view().take(
                i as int,
            ));
            assert(children.deep_view().take(i + 1).last() == children.deep_view()[i as int]);
        }
        let ghost pre = posts.deep_view();
        if let Ok(post) = post_of_room(&children[i]) {
            posts.push(post);
            proof {
                assert(posts.deep_view() =~= pre.push(
                    spec_post_of_room(children.deep_view()[i as int])->Ok_0,
                ));
            }
        }
        proof {
            assert(posts.deep_view() =~= spec_posts_from_children(children.deep_view().take(
                i + 1,
            )));
        }
        i += 1;
    }
    proof {
        assert(children.deep_view().take(children@.len() as int) =~= children.deep_view());
    }
    posts
}

/// A titleless child never changes a category's post listing.
pub proof fn lemma_untitled_post_room_ignored(
    children: Seq<SpaceChildRoomV>,
    room: SpaceChildRoomV,
)
    requires
        spec_first_state_value(room.name_events) is None,
    ensures
        spec_posts_from_children(children.push(room)) == spec_posts_from_children(children),
{
    assert(children.push(room).drop_last() =~= children);
    assert(spec_posts_from_children(children.push(room)) =~= spec_posts_from_children(children));
}

// ---------------------------------------------------------------------------
// A category with its posts; a post with its comments
// ---------------------------------------------------------------------------

/// Answers a category-page query in dynamic mode: the category room itself
/// projected — each missing mandatory piece its own hard error — and each
/// titled child as a post, titleless children silently excluded.
pub fn category_posts(category_room: &SpaceChildRoom, children: &Vec<SpaceChildRoom>) -> (r:
    Result<(RoomCategory, Vec<RoomPost>), Error>)
    ensures
        match r {
            Ok(pair) => spec_category_of_child(category_room@) == Ok::<RoomCategoryView, Error>(
                pair.0@,
            ) && pair.1.deep_view() == spec_posts_from_children(children.deep_view()),
            Err(e) => spec_category_of_child(category_room@) == Err::<RoomCategoryView, Error>(e),
        },
{
    let category = category_of_child(category_room)?;
    let posts = posts_from_children(children);
    Ok((category, posts))
}

/// Answers a post-page query in dynamic mode: the post room projected, and
/// its backward-fetched timeline collated into chronological comments.
pub fn post_with_comments(room: &SpaceChildRoom, items: &Vec<TimelineItem>) -> (r: Result<
    (RoomPost, Vec<Message>),
    Error,
>)
    ensures
        match r {
            Ok(pair) => spec_post_of_room(room@) == Ok::<RoomPostView, Error>(pair.0@)
                && pair.1.deep_view() == spec_collate_comments(items.deep_view()),
            Err(e) => spec_post_of_room(room@) == Err::<RoomPostView, Error>(e),
        },
{
    let post = post_of_room(room)?;
    let comments = collate_comments(items);
    Ok((post, comments))
}

} // verus!
