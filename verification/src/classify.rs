//! Room discovery and classification: from the raw state of every joined
//! room to the validated `Room` descriptors of the forum. A room becomes a
//! `Room` only when both a title and a decodable post alias were derived;
//! anything else is silently excluded, never an error.
use vstd::prelude::*;

use crate::alias::{decode_post_alias, spec_decode_post_alias};
use crate::state::{
    first_state_value, spec_category_of_wire, spec_first_state_value, StateEventView,
    StateEventViewV,
};
use crate::types::{Room, RoomView};

verus! {

/// Everything the classifier reads of one joined room: its state events by
/// type, in the order the backend returned them, and all its known aliases,
/// canonical first.
#[derive(Clone, Debug, PartialEq, Eq)]
pub struct RoomSnapshot {
    pub room_id: String,
    pub name_events: Vec<StateEventView>,
    pub topic_events: Vec<StateEventView>,
    pub category_events: Vec<StateEventView>,
    pub aliases: Vec<String>,
}

pub struct RoomSnapshotView {
    pub room_id: Seq<char>,
    pub name_events: Seq<StateEventViewV>,
    pub topic_events: Seq<StateEventViewV>,
    pub category_events: Seq<StateEventViewV>,
    pub aliases: Seq<Seq<char>>,
}

impl View for RoomSnapshot {
    type V = RoomSnapshotView;

    open spec fn view(&self) -> RoomSnapshotView {
        RoomSnapshotView {
            room_id: self.room_id@,
            name_events: self.name_events.deep_view(),
            topic_events: self.topic_events.deep_view(),
            category_events: self.category_events.deep_view(),
            aliases: self.aliases.deep_view(),
        }
    }
}

impl DeepView for RoomSnapshot {
    type V = RoomSnapshotView;

    open spec fn deep_view(&self) -> RoomSnapshotView {
        self.view()
    }
}

// ---------------------------------------------------------------------------
// Typed state readers
// ---------------------------------------------------------------------------

/// The category a room snapshot assigns, after undoing the empty-string
/// sentinel of the wire format.
pub open spec fn spec_room_category(r: RoomSnapshotView) -> Option<Seq<char>> {
    match spec_first_state_value(r.category_events) {
        None => None,
        Some(w) => spec_category_of_wire(w),
    }
}

impl RoomSnapshot {
    /// The room's display name, read from the first room-name state event.
    pub fn name(&self) -> (r: Option<String>)
        ensures
            r.deep_view() == spec_first_state_value(self@.name_events),
    {
        first_state_value(&self.name_events)
    }

    /// The room's topic, read from the first room-topic state event.
    pub fn topic(&self) -> (r: Option<String>)
        ensures
            r.deep_view() == spec_first_state_value(self@.topic_events),
    {
        first_state_value(&self.topic_events)
    }

    /// The room's category assignment, read from the first assignment event;
    /// the empty string denotes "no category".
    pub fn category_assignment(&self) -> (r: Option<String>)
        ensures
            r.deep_view() == spec_room_category(self@),
    {
        match first_state_value(&self.category_events) {
            None => None,
            Some(w) => {
                if w.unicode_len() == 0 {
                    None
                } else {
                    Some(w)
                }
            },
        }
    }
}

// ---------------------------------------------------------------------------
// Post identity from aliases
// ---------------------------------------------------------------------------

/// The post id carried by a list of aliases: each alias is decoded in turn
/// and the last successful match wins.
pub open spec fn spec_post_id_of_aliases(aliases: Seq<Seq<char>>) -> Option<u64>
    decreases aliases.len(),
{
    if aliases.len() == 0 {
        None
    } else {
        match spec_decode_post_alias(aliases.last()) {
            Some(n) => Some(n),
            None => spec_post_id_of_aliases(aliases.drop_last()),
        }
    }
}

pub fn post_id_of_aliases(aliases: &Vec<String>) -> (r: Option<u64>)
    ensures
        r == spec_post_id_of_aliases(aliases.deep_view()),
{
    let mut r: Option<u64> = None;
    let mut i: usize = 0;
    while i < aliases.len()
        invariant
            0 <= i <= aliases@.len(),
            aliases.deep_view().len() == aliases@.len(),
            r == spec_post_id_of_aliases(aliases.deep_view().take(i as int)),
        decreases aliases@.len() - i,
    {
        proof {
            assert(aliases.deep_view()[i as int] == aliases@[i as int]@);
            assert(aliases.deep_view().take(i + 1).drop_last() =~= aliases.deep_view().take(
                i as int,
            ));
            assert(aliases.deep_view().take(i + 1).last() == aliases.deep_view()[i as int]);
        }
        if let Some(n) = decode_post_alias(aliases[i].as_str()) {
            r = Some(n);
        }
        i += 1;
    }
    proof {
        assert(aliases.deep_view().take(aliases@.len() as int) =~= aliases.deep_view());
    }
    r
}

// ---------------------------------------------------------------------------
// Classification
// ---------------------------------------------------------------------------

/// How one room is classified: a `Room` when both a title and a post id were
/// derived, `None` otherwise.
pub open spec fn spec_classify_room(r: RoomSnapshotView) -> Option<RoomView> {
    let title = spec_first_state_value(r.name_events);
    let post_id = spec_post_id_of_aliases(r.aliases);
    if title is Some && post_id is Some {
        Some(
            RoomView {
                title: title->0,
                topic: spec_first_state_value(r.topic_events),
                category: spec_room_category(r),
                post_id: post_id->0,
                room_id: r.room_id,
            },
        )
    } else {
        None
    }
}

pub fn classify_room(room: &RoomSnapshot) -> (r: Option<Room>)
    ensures
        r.deep_view() == spec_classify_room(room@),
{
    let title = room.name();
    let post_id = post_id_of_aliases(&room.aliases);
    match (title, post_id) {
        (Some(title), Some(post_id)) => Some(
            Room {
                title,
                topic: room.topic(),
                category: room.category_assignment(),
                post_id,
                room_id: room.room_id.clone(),
            },
        ),
        _ => None,
    }
}

/// The forum's view of the joined rooms: every snapshot that classifies,
/// in enumeration order.
pub open spec fn spec_valid_rooms(rs: Seq<RoomSnapshotView>) -> Seq<RoomView>
    decreases rs.len(),
{
    if rs.len() == 0 {
        Seq::empty()
    } else {
        spec_valid_rooms(rs.drop_last()) + match spec_classify_room(rs.last()) {
            Some(room) => seq![room],
            None => Seq::empty(),
        }
    }
}

/// Classifies every joined room, dropping those with no title or no
/// decodable post alias. Deterministic in its input: identical snapshots
/// yield identical descriptor lists.
pub fn valid_rooms(snapshots: &Vec<RoomSnapshot>) -> (r: Vec<Room>)
    ensures
        r.deep_view() == spec_valid_rooms(snapshots.deep_view()),
{
    let mut r: Vec<Room> = Vec::new();
    let mut i: usize = 0;
    while i < snapshots.len()
        invariant
            0 <= i <= snapshots@.len(),
            snapshots.deep_view().len() == snapshots@.len(),
            r.deep_view() == spec_valid_rooms(snapshots.deep_view().take(i as int)),
        decreases snapshots@.len() - i,
    {
        proof {
            assert(snapshots.deep_view()[i as int] == snapshots@[i as int]@);
            assert(snapshots.deep_view().take(i + 1).drop_last() =~= snapshots.deep_view().take(
                i as int,
            ));
            assert(snapshots.deep_view().take(i + 1).last() == snapshots.deep_view()[i as int]);
        }
        if let Some(room) = classify_room(&snapshots[i]) {
            r.push(room);
        }
        proof {
            assert(r.deep_view() =~= spec_valid_rooms(snapshots.deep_view().take(i + 1)));
        }
        i += 1;
    }
    proof {
        assert(snapshots.deep_view().take(snapshots@.len() as int) =~= snapshots.deep_view());
    }
    r
}

// ---------------------------------------------------------------------------
// Laws
// ---------------------------------------------------------------------------

/// A room with no derivable title is never materialized, however decodable
/// its post alias is.
pub proof fn lemma_untitled_room_excluded(room: RoomSnapshotView)
    requires
        spec_first_state_value(room.name_events) is None,
    ensures
        spec_classify_room(room) is None,
{
}

/// Alias-derived identity, end to end: a titled room whose alias list ends
/// in the encoded alias of post id `n` is classified as the post with id
/// `n`, under its own backend room id — the round trip of the codec carried
/// into the classifier.
pub proof fn lemma_encoded_alias_classifies(room: RoomSnapshotView, n: u64)
    requires
        spec_first_state_value(room.name_events) is Some,
        room.aliases.len() > 0,
        room.aliases.last() == crate::alias::post_alias(n as nat),
    ensures
        spec_classify_room(room) matches Some(r) && r.post_id == n && r.room_id == room.room_id
            && r.title == spec_first_state_value(room.name_events)->0,
{
    crate::alias::lemma_post_alias_round_trip(n);
    assert(spec_post_id_of_aliases(room.aliases) == Some(n));
}

/// Adding a room that does not classify — one with no title, or no decodable
/// post alias — leaves the forum's view of the rooms unchanged.
pub proof fn lemma_unclassified_room_ignored(rs: Seq<RoomSnapshotView>, room: RoomSnapshotView)
    requires
        spec_classify_room(room) is None,
    ensures
        spec_valid_rooms(rs.push(room)) == spec_valid_rooms(rs),
{
    assert(rs.push(room).drop_last() =~= rs);
    assert(spec_valid_rooms(rs.push(room)) =~= spec_valid_rooms(rs));
}

} // verus!
