//! Reading typed values out of a room's state events. For every state event
//! type the backend keeps at most one current event per state key, so the
//! reader takes the first event it is handed and yields `None` when that
//! event is absent, redacted, or failed to parse.
use vstd::prelude::*;

verus! {

/// One state event of a given type, reduced to what the mapping layer reads:
/// the string field of interest as it stood on the wire (`None` when the
/// field was missing), or the fact that the event was redacted or malformed.
#[derive(Clone, Debug, PartialEq, Eq)]
pub enum StateEventView {
    Original(Option<String>),
    Redacted,
    Malformed,
}

pub enum StateEventViewV {
    Original(Option<Seq<char>>),
    Redacted,
    Malformed,
}

impl View for StateEventView {
    type V = StateEventViewV;

    open spec fn view(&self) -> StateEventViewV {
        match self {
            StateEventView::Original(v) => StateEventViewV::Original(v.deep_view()),
            StateEventView::Redacted => StateEventViewV::Redacted,
            StateEventView::Malformed => StateEventViewV::Malformed,
        }
    }
}

impl DeepView for StateEventView {
    type V = StateEventViewV;

    open spec fn deep_view(&self) -> StateEventViewV {
        self.view()
    }
}

/// The current value of a state event type: the field carried by the first
/// event, or `None` when there is no first event, it is redacted or
/// malformed, or the field is absent.
pub open spec fn spec_first_state_value(events: Seq<StateEventViewV>) -> Option<Seq<char>> {
    if events.len() == 0 {
        None
    } else {
        match events[0] {
            StateEventViewV::Original(v) => v,
            StateEventViewV::Redacted => None,
            StateEventViewV::Malformed => None,
        }
    }
}

pub fn first_state_value(events: &Vec<StateEventView>) -> (r: Option<String>)
    ensures
        r.deep_view() == spec_first_state_value(events.deep_view()),
{
    if events.len() == 0 {
        None
    } else {
        match &events[0] {
            StateEventView::Original(v) => {
                match v {
                    Some(s) => Some(s.clone()),
                    None => None,
                }
            },
            StateEventView::Redacted => None,
            StateEventView::Malformed => None,
        }
    }
}

// ---------------------------------------------------------------------------
// The category-assignment state event
// ---------------------------------------------------------------------------

/// The content of the forum's own category-assignment state event (one per
/// room, empty state key). On the wire the category field carries the empty
/// string as an explicit "no category" sentinel, so an unassigned room
/// round-trips rather than being dropped.
#[derive(Clone, Debug, PartialEq, Eq)]
pub struct MorumCategoryEventContent {
    pub category: Option<String>,
}

pub struct MorumCategoryEventContentV {
    pub category: Option<Seq<char>>,
}

impl View for MorumCategoryEventContent {
    type V = MorumCategoryEventContentV;

    open spec fn view(&self) -> MorumCategoryEventContentV {
        MorumCategoryEventContentV { category: self.category.deep_view() }
    }
}

impl DeepView for MorumCategoryEventContent {
    type V = MorumCategoryEventContentV;

    open spec fn deep_view(&self) -> MorumCategoryEventContentV {
        self.view()
    }
}

/// What a wire-level category value denotes: the empty string is "no
/// category".
pub open spec fn spec_category_of_wire(s: Seq<char>) -> Option<Seq<char>> {
    if s.len() == 0 {
        None
    } else {
        Some(s)
    }
}

/// How a category assignment is written to the wire: "no category" becomes
/// the empty-string sentinel.
pub open spec fn spec_category_to_wire(c: Option<Seq<char>>) -> Seq<char> {
    match c {
        None => Seq::<char>::empty(),
        Some(s) => s,
    }
}

impl MorumCategoryEventContent {
    /// Decodes the wire form of the category field.
    pub fn of_wire(s: String) -> (r: MorumCategoryEventContent)
        ensures
            r@.category == spec_category_of_wire(s@),
    {
        if s.unicode_len() == 0 {
            MorumCategoryEventContent { category: None }
        } else {
            MorumCategoryEventContent { category: Some(s) }
        }
    }

    /// Encodes the category field for the wire.
    pub fn to_wire(&self) -> (r: String)
        ensures
            r@ == spec_category_to_wire(self@.category),
    {
        match &self.category {
            None => String::new(),
            Some(s) => s.clone(),
        }
    }
}

/// The wire sentinel is lossless: every assignment other than a literally
/// empty category name survives a round trip through the wire format, the
/// unassigned state included.
pub proof fn lemma_category_wire_round_trip(c: Option<Seq<char>>)
    requires
        c matches Some(s) ==> s.len() > 0,
    ensures
        spec_category_of_wire(spec_category_to_wire(c)) == c,
{
}

} // verus!
