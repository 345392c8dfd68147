//! Timeline collation: from a post room's message timeline, fetched backward
//! from the most recent event, to the chronological comment list. Edited
//! messages are collapsed — the replacement's content is authoritative and
//! is keyed under the original event's id — and every body is sanitized
//! before it is exposed.
use vstd::prelude::*;

use crate::html::{
    markdown_to_html, sanitize_html, markdown_html_of, sanitized_html_of,
};
use crate::types::{Message, MessageView};

verus! {

// ---------------------------------------------------------------------------
// Timeline events, reduced to what collation reads
// ---------------------------------------------------------------------------

/// A pre-formatted message body: its format tag reduced to "is it HTML", and
/// the raw body.
#[derive(Clone, Debug, PartialEq, Eq)]
pub struct FormattedContent {
    pub is_html: bool,
    pub body: String,
}

pub struct FormattedContentV {
    pub is_html: bool,
    pub body: Seq<char>,
}

impl View for FormattedContent {
    type V = FormattedContentV;

    open spec fn view(&self) -> FormattedContentV {
        FormattedContentV { is_html: self.is_html, body: self.body@ }
    }
}

impl DeepView for FormattedContent {
    type V = FormattedContentV;

    open spec fn deep_view(&self) -> FormattedContentV {
        self.view()
    }
}

/// A text message payload: the plain-text body, and the pre-formatted body
/// when the sender supplied one.
#[derive(Clone, Debug, PartialEq, Eq)]
pub struct TextContent {
    pub body: String,
    pub formatted: Option<FormattedContent>,
}

pub struct TextContentV {
    pub body: Seq<char>,
    pub formatted: Option<FormattedContentV>,
}

impl View for TextContent {
    type V = TextContentV;

    open spec fn view(&self) -> TextContentV {
        TextContentV { body: self.body@, formatted: self.formatted.deep_view() }
    }
}

impl DeepView for TextContent {
    type V = TextContentV;

    open spec fn deep_view(&self) -> TextContentV {
        self.view()
    }
}

impl TextContent {
    /// A copy with the same view; the derived `Clone` says nothing to the
    /// verifier.
    pub fn cloned(&self) -> (r: TextContent)
        ensures
            r@ == self@,
    {
        TextContent {
            body: self.body.clone(),
            formatted: match &self.formatted {
                None => None,
                Some(f) => Some(FormattedContent { is_html: f.is_html, body: f.body.clone() }),
            },
        }
    }
}

/// A message's content: a text payload, or some other message type the
/// forum does not collate.
#[derive(Clone, Debug, PartialEq, Eq)]
pub enum MessageContent {
    Text(TextContent),
    Other,
}

pub enum MessageContentV {
    Text(TextContentV),
    Other,
}

impl View for MessageContent {
    type V = MessageContentV;

    open spec fn view(&self) -> MessageContentV {
        match self {
            MessageContent::Text(t) => MessageContentV::Text(t@),
            MessageContent::Other => MessageContentV::Other,
        }
    }
}

impl DeepView for MessageContent {
    type V = MessageContentV;

    open spec fn deep_view(&self) -> MessageContentV {
        self.view()
    }
}

/// A replace relation: the edited event's id and the authoritative new
/// content.
#[derive(Clone, Debug, PartialEq, Eq)]
pub struct Replacement {
    pub event_id: String,
    pub new_content: MessageContent,
}

pub struct ReplacementV {
    pub event_id: Seq<char>,
    pub new_content: MessageContentV,
}

impl View for Replacement {
    type V = ReplacementV;

    open spec fn view(&self) -> ReplacementV {
        ReplacementV { event_id: self.event_id@, new_content: self.new_content@ }
    }
}

impl DeepView for Replacement {
    type V = ReplacementV;

    open spec fn deep_view(&self) -> ReplacementV {
        self.view()
    }
}

/// An original room message as fetched from the timeline.
#[derive(Clone, Debug, PartialEq, Eq)]
pub struct MessageEvent {
    pub event_id: String,
    pub sender: String,
    pub content: MessageContent,
    pub replaces: Option<Replacement>,
}

pub struct MessageEventV {
    pub event_id: Seq<char>,
    pub sender: Seq<char>,
    pub content: MessageContentV,
    pub replaces: Option<ReplacementV>,
}

impl View for MessageEvent {
    type V = MessageEventV;

    open spec fn view(&self) -> MessageEventV {
        MessageEventV {
            event_id: self.event_id@,
            sender: self.sender@,
            content: self.content@,
            replaces: self.replaces.deep_view(),
        }
    }
}

impl DeepView for MessageEvent {
    type V = MessageEventV;

    open spec fn deep_view(&self) -> MessageEventV {
        self.view()
    }
}

/// One fetched timeline event: a message, or anything else — redacted,
/// malformed, or of a type the forum skips rather than fails on.
#[derive(Clone, Debug, PartialEq, Eq)]
pub enum TimelineItem {
    Message(MessageEvent),
    Other,
}

pub enum TimelineItemV {
    Message(MessageEventV),
    Other,
}

impl View for TimelineItem {
    type V = TimelineItemV;

    open spec fn view(&self) -> TimelineItemV {
        match self {
            TimelineItem::Message(m) => TimelineItemV::Message(m@),
            TimelineItem::Other => TimelineItemV::Other,
        }
    }
}

impl DeepView for TimelineItem {
    type V = TimelineItemV;

    open spec fn deep_view(&self) -> TimelineItemV {
        self.view()
    }
}

// ---------------------------------------------------------------------------
// The working buffer
// ---------------------------------------------------------------------------

/// One entry of the collation buffer: the event id a comment is keyed under
/// (the original's id for edited comments), its sender, and its current
/// text.
#[derive(Clone, Debug, PartialEq, Eq)]
pub struct CollatedEntry {
    pub event_id: String,
    pub sender: String,
    pub text: TextContent,
}

pub struct CollatedEntryV {
    pub event_id: Seq<char>,
    pub sender: Seq<char>,
    pub text: TextContentV,
}

impl View for CollatedEntry {
    type V = CollatedEntryV;

    open spec fn view(&self) -> CollatedEntryV {
        CollatedEntryV { event_id: self.event_id@, sender: self.sender@, text: self.text@ }
    }
}

impl DeepView for CollatedEntry {
    type V = CollatedEntryV;

    open spec fn deep_view(&self) -> CollatedEntryV {
        self.view()
    }
}

/// The first buffer index keyed by `event_id`, or -1 when absent.
pub open spec fn spec_find_entry(buffer: Seq<CollatedEntryV>, event_id: Seq<char>) -> int
    decreases buffer.len(),
{
    if buffer.len() == 0 {
        -1
    } else if buffer.first().event_id == event_id {
        0
    } else {
        let rest = spec_find_entry(buffer.drop_first(), event_id);
        if rest == -1 {
            -1
        } else {
            rest + 1
        }
    }
}

pub proof fn lemma_find_entry(buffer: Seq<CollatedEntryV>, event_id: Seq<char>)
    ensures
        spec_find_entry(buffer, event_id) == -1 <==> (forall|i: int|
            0 <= i < buffer.len() ==> #[trigger] buffer[i].event_id != event_id),
        spec_find_entry(buffer, event_id) != -1 ==> {
            let r = spec_find_entry(buffer, event_id);
            &&& 0 <= r < buffer.len()
            &&& buffer[r].event_id == event_id
            &&& forall|i: int| 0 <= i < r ==> #[trigger] buffer[i].event_id != event_id
        },
    decreases buffer.len(),
{
    if buffer.len() > 0 {
        lemma_find_entry(buffer.drop_first(), event_id);
        assert(forall|i: int|
            0 < i < buffer.len() ==> #[trigger] buffer[i].event_id == buffer.drop_first()[i
                - 1].event_id);
    }
}

// ---------------------------------------------------------------------------
// Collation
// ---------------------------------------------------------------------------

/// The id a message event speaks about and the content that is authoritative
/// for it: its own, or — for an edit — the replaced event's id and the
/// replacement content.
pub open spec fn spec_effective(m: MessageEventV) -> (Seq<char>, MessageContentV) {
    match m.replaces {
        Some(rep) => (rep.event_id, rep.new_content),
        None => (m.event_id, m.content),
    }
}

/// How one scanned event transforms the working buffer. A text message whose
/// effective id is new is appended; one whose effective id is already
/// present moves that entry to the newest scan position, keeping the content
/// already recorded for it (the authoritative one — in a backward fetch the
/// newest version is scanned first). Anything else leaves the buffer as it
/// was.
pub open spec fn spec_collate_step(buffer: Seq<CollatedEntryV>, item: TimelineItemV) -> Seq<
    CollatedEntryV,
> {
    match item {
        TimelineItemV::Message(m) => {
            let (event_id, content) = spec_effective(m);
            match content {
                MessageContentV::Text(t) => {
                    let idx = spec_find_entry(buffer, event_id);
                    if idx >= 0 {
                        buffer.remove(idx).push(buffer[idx])
                    } else {
                        buffer.push(CollatedEntryV { event_id, sender: m.sender, text: t })
                    }
                },
                MessageContentV::Other => buffer,
            }
        },
        TimelineItemV::Other => buffer,
    }
}

pub open spec fn spec_collate_from(
    buffer: Seq<CollatedEntryV>,
    items: Seq<TimelineItemV>,
) -> Seq<CollatedEntryV>
    decreases items.len(),
{
    if items.len() == 0 {
        buffer
    } else {
        spec_collate_from(spec_collate_step(buffer, items.first()), items.drop_first())
    }
}

/// The collation buffer after scanning a backward-ordered timeline.
pub open spec fn spec_collate(items: Seq<TimelineItemV>) -> Seq<CollatedEntryV> {
    spec_collate_from(Seq::empty(), items)
}

// ---------------------------------------------------------------------------
// One entry per effective id
// ---------------------------------------------------------------------------

/// The event ids the buffer is keyed by, in order.
pub open spec fn spec_buffer_ids(buffer: Seq<CollatedEntryV>) -> Seq<Seq<char>> {
    buffer.map_values(|e: CollatedEntryV| e.event_id)
}

/// The id under which collation records an event, if any: the effective id
/// of a text message, nothing for everything else.
pub open spec fn spec_effective_text_id(item: TimelineItemV) -> Option<Seq<char>> {
    match item {
        TimelineItemV::Message(m) => {
            let (event_id, content) = spec_effective(m);
            match content {
                MessageContentV::Text(_) => Some(event_id),
                MessageContentV::Other => None,
            }
        },
        TimelineItemV::Other => None,
    }
}

/// The set of effective ids of a timeline's text messages.
pub open spec fn spec_effective_ids(items: Seq<TimelineItemV>) -> Set<Seq<char>>
    decreases items.len(),
{
    if items.len() == 0 {
        Set::empty()
    } else {
        match spec_effective_text_id(items.first()) {
            Some(id) => spec_effective_ids(items.drop_first()).insert(id),
            None => spec_effective_ids(items.drop_first()),
        }
    }
}

/// Moving an element to the end of a sequence permutes it: same multiset,
/// same element set, distinctness preserved.
proof fn lemma_remove_push_permutes(s: Seq<Seq<char>>, i: int)
    requires
        0 <= i < s.len(),
    ensures
        s.remove(i).push(s[i]).to_set() == s.to_set(),
        s.no_duplicates() ==> s.remove(i).push(s[i]).no_duplicates(),
{
    broadcast use vstd::seq_lib::group_to_multiset_ensures;

    let t = s.remove(i).push(s[i]);
    assert(s.remove(i).to_multiset() =~= s.to_multiset().remove(s[i]));
    assert(t.to_multiset() =~= s.to_multiset().remove(s[i]).insert(s[i]));
    assert(s.contains(s[i]));
    assert(s.to_multiset().remove(s[i]).insert(s[i]) =~= s.to_multiset());
    assert(t.to_multiset() == s.to_multiset());
    assert forall|a: Seq<char>| t.contains(a) <==> s.contains(a) by {
        assert(t.to_multiset().count(a) == s.to_multiset().count(a));
    }
    assert(t.to_set() =~= s.to_set());
    if s.no_duplicates() {
        s.lemma_multiset_has_no_duplicates();
        t.lemma_multiset_has_no_duplicates_conv();
    }
}

/// How one scanned event changes the set of ids the buffer is keyed by:
/// recording a text message adds its effective id — an id already present
/// only moves — and nothing else changes anything; ids stay pairwise
/// distinct throughout.
proof fn lemma_collate_step_ids(buffer: Seq<CollatedEntryV>, item: TimelineItemV)
    requires
        spec_buffer_ids(buffer).no_duplicates(),
    ensures
        spec_buffer_ids(spec_collate_step(buffer, item)).no_duplicates(),
        spec_buffer_ids(spec_collate_step(buffer, item)).to_set() == match spec_effective_text_id(
            item,
        ) {
            Some(id) => spec_buffer_ids(buffer).to_set().insert(id),
            None => spec_buffer_ids(buffer).to_set(),
        },
{
    broadcast use vstd::seq_lib::lemma_seq_contains_after_push;

    let ids = spec_buffer_ids(buffer);
    match spec_effective_text_id(item) {
        None => {
            assert(spec_collate_step(buffer, item) == buffer);
        },
        Some(id) => {
            lemma_find_entry(buffer, id);
            let idx = spec_find_entry(buffer, id);
            if idx >= 0 {
                let result = buffer.remove(idx).push(buffer[idx]);
                assert(spec_collate_step(buffer, item) == result);
                assert(spec_buffer_ids(result) =~= ids.remove(idx).push(ids[idx]));
                lemma_remove_push_permutes(ids, idx);
                assert(ids[idx] == id);
                assert(ids.to_set().contains(id));
                assert(ids.to_set().insert(id) =~= ids.to_set());
            } else {
                let result = spec_collate_step(buffer, item);
                assert(spec_buffer_ids(result) =~= ids.push(id));
                assert(forall|j: int|
                    0 <= j < ids.len() ==> #[trigger] ids[j] != id) by {
                    assert(forall|j: int|
                        0 <= j < buffer.len() ==> #[trigger] buffer[j].event_id != id);
                    assert(forall|j: int|
                        0 <= j < ids.len() ==> #[trigger] ids[j] == buffer[j].event_id);
                }
                assert(ids.push(id).no_duplicates());
                assert(ids.push(id).to_set() =~= ids.to_set().insert(id));
            }
        },
    }
}

proof fn lemma_collate_from_ids(buffer: Seq<CollatedEntryV>, items: Seq<TimelineItemV>)
    requires
        spec_buffer_ids(buffer).no_duplicates(),
    ensures
        spec_buffer_ids(spec_collate_from(buffer, items)).no_duplicates(),
        spec_buffer_ids(spec_collate_from(buffer, items)).to_set() == spec_buffer_ids(
            buffer,
        ).to_set().union(spec_effective_ids(items)),
    decreases items.len(),
{
    if items.len() == 0 {
        assert(spec_buffer_ids(buffer).to_set().union(Set::empty()) =~= spec_buffer_ids(
            buffer,
        ).to_set());
    } else {
        lemma_collate_step_ids(buffer, items.first());
        let stepped = spec_collate_step(buffer, items.first());
        lemma_collate_from_ids(stepped, items.drop_first());
        let b = spec_buffer_ids(buffer).to_set();
        let rest = spec_effective_ids(items.drop_first());
        match spec_effective_text_id(items.first()) {
            Some(id) => {
                assert(b.insert(id).union(rest) =~= b.union(rest.insert(id)));
            },
            None => {},
        }
    }
}

/// Collation never duplicates a comment: the buffer is keyed by pairwise
/// distinct event ids and holds exactly one entry per distinct effective id
/// among the timeline's text messages. In particular, a timeline of comments
/// with distinct ids plus any number of edit events targeting them collates
/// to one entry per comment — a replacement never becomes a comment of its
/// own.
pub proof fn lemma_collate_one_entry_per_id(items: Seq<TimelineItemV>)
    ensures
        spec_buffer_ids(spec_collate(items)).no_duplicates(),
        spec_buffer_ids(spec_collate(items)).to_set() == spec_effective_ids(items),
        spec_collate(items).len() == spec_effective_ids(items).len(),
{
    let empty = Seq::<CollatedEntryV>::empty();
    assert(spec_buffer_ids(empty) =~= Seq::<Seq<char>>::empty());
    lemma_collate_from_ids(empty, items);
    let ids = spec_buffer_ids(spec_collate(items));
    assert(spec_buffer_ids(empty).to_set() =~= Set::<Seq<char>>::empty());
    assert(Set::<Seq<char>>::empty().union(spec_effective_ids(items)) =~= spec_effective_ids(
        items,
    ));
    ids.unique_seq_to_set();
    assert(ids.len() == spec_collate(items).len());
}

fn find_entry(buffer: &Vec<CollatedEntry>, event_id: &String) -> (r: Option<usize>)
    ensures
        match r {
            Some(i) => 0 <= i < buffer@.len() && spec_find_entry(buffer.deep_view(), event_id@)
                == i as int,
            None => spec_find_entry(buffer.deep_view(), event_id@) == -1,
        },
{
    proof {
        lemma_find_entry(buffer.deep_view(), event_id@);
    }
    let mut i: usize = 0;
    while i < buffer.len()
        invariant
            0 <= i <= buffer@.len(),
            buffer.deep_view().len() == buffer@.len(),
            forall|j: int|
                0 <= j < i ==> #[trigger] buffer.deep_view()[j].event_id != event_id@,
        decreases buffer@.len() - i,
    {
        proof {
            assert(buffer.deep_view()[i as int] == buffer@[i as int]@);
        }
        if buffer[i].event_id == *event_id {
            proof {
                lemma_find_entry(buffer.deep_view(), event_id@);
                assert(buffer.deep_view()[i as int].event_id == event_id@);
                let r = spec_find_entry(buffer.deep_view(), event_id@);
                assert(r != -1);
                assert(!(r < i) && !(r > i));
            }
            return Some(i);
        }
        i += 1;
    }
    proof {
        lemma_find_entry(buffer.deep_view(), event_id@);
    }
    None
}

/// Scans a backward-ordered timeline into the collation buffer.
pub fn collate(items: &Vec<TimelineItem>) -> (r: Vec<CollatedEntry>)
    ensures
        r.deep_view() == spec_collate(items.deep_view()),
{
    let mut buffer: Vec<CollatedEntry> = Vec::new();
    let mut i: usize = 0;
    proof {
        assert(items.deep_view().skip(0) =~= items.deep_view());
        assert(buffer.deep_view() =~= Seq::<CollatedEntryV>::empty());
    }
    while i < items.len()
        invariant
            0 <= i <= items@.len(),
            items.deep_view().len() == items@.len(),
            spec_collate_from(buffer.deep_view(), items.deep_view().skip(i as int))
                == spec_collate(items.deep_view()),
        decreases items@.len() - i,
    {
        proof {
            assert(items.deep_view()[i as int] == items@[i as int]@);
            assert(items.deep_view().skip(i as int).first() == items.deep_view()[i as int]);
            assert(items.deep_view().skip(i as int).drop_first() =~= items.deep_view().skip(
                i + 1,
            ));
        }
        let ghost pre = buffer.deep_view();
        match &items[i] {
            TimelineItem::Message(m) => {
                let (event_id, content): (&String, &MessageContent) = match &m.replaces {
                    Some(rep) => (&rep.event_id, &rep.new_content),
                    None => (&m.event_id, &m.content),
                };
                match content {
                    MessageContent::Text(t) => {
                        match find_entry(&buffer, event_id) {
                            Some(idx) => {
                                let entry = buffer.remove(idx);
                                buffer.push(entry);
                                proof {
                                    assert(buffer.deep_view() =~= pre.remove(idx as int).push(
                                        pre[idx as int],
                                    ));
                                }
                            },
                            None => {
                                buffer.push(
                                    CollatedEntry {
                                        event_id: event_id.clone(),
                                        sender: m.sender.clone(),
                                        text: t.cloned(),
                                    },
                                );
                                proof {
                                    assert(t.deep_view() == t@);
                                    assert(buffer.deep_view() =~= pre.push(
                                        CollatedEntryV {
                                            event_id: event_id@,
                                            sender: m.sender@,
                                            text: t@,
                                        },
                                    ));
                                }
                            },
                        }
                    },
                    MessageContent::Other => {},
                }
            },
            TimelineItem::Other => {},
        }
        proof {
            assert(buffer.deep_view() == spec_collate_step(pre, items.deep_view()[i as int]));
        }
        i += 1;
    }
    proof {
        assert(items.deep_view().skip(items@.len() as int) =~= Seq::<TimelineItemV>::empty());
    }
    buffer
}

// ---------------------------------------------------------------------------
// Rendering
// ---------------------------------------------------------------------------

/// What one buffer entry becomes in the comment list: its pre-formatted body
/// sanitized when it is HTML, a body synthesized from the plain text via the
/// markdown transform (then sanitized) when there is none, and nothing when
/// the pre-formatted body is of some other format.
pub open spec fn spec_render_entry(e: CollatedEntryV) -> Option<MessageView> {
    match e.text.formatted {
        Some(f) => if f.is_html {
            Some(MessageView { html: sanitized_html_of(f.body), sender: e.sender })
        } else {
            None
        },
        None => Some(
            MessageView {
                html: sanitized_html_of(markdown_html_of(e.text.body)),
                sender: e.sender,
            },
        ),
    }
}

/// The rendered buffer in chronological order: the buffer holds newest
/// first, so rendering walks it from the back.
pub open spec fn spec_render_reversed(entries: Seq<CollatedEntryV>) -> Seq<MessageView>
    decreases entries.len(),
{
    if entries.len() == 0 {
        Seq::empty()
    } else {
        spec_render_reversed(entries.drop_first()) + match spec_render_entry(entries.first()) {
            Some(m) => seq![m],
            None => Seq::empty(),
        }
    }
}

/// The comment list of a post room, given its backward-ordered timeline:
/// collated, rendered, sanitized, oldest first.
pub open spec fn spec_collate_comments(items: Seq<TimelineItemV>) -> Seq<MessageView> {
    spec_render_reversed(spec_collate(items))
}

/// What one entry contributes to the comment list.
pub open spec fn spec_rendered(e: CollatedEntryV) -> Seq<MessageView> {
    match spec_render_entry(e) {
        Some(m) => seq![m],
        None => Seq::empty(),
    }
}

/// Edit collapsing, in general: a timeline holding comment `a`, a later
/// comment `b`, and a still later event replacing `a`'s content — fetched
/// backward, so scanned edit first — collates to `a` with the new content at
/// `a`'s position, before `b`; not after it.
pub proof fn lemma_edit_updates_content_in_place(
    a: MessageEventV,
    b: MessageEventV,
    edit: MessageEventV,
    a_text: TextContentV,
    b_text: TextContentV,
    new_text: TextContentV,
)
    requires
        a.event_id != b.event_id,
        a.replaces is None,
        b.replaces is None,
        a.content == MessageContentV::Text(a_text),
        b.content == MessageContentV::Text(b_text),
        edit.replaces == Some(
            ReplacementV { event_id: a.event_id, new_content: MessageContentV::Text(new_text) },
        ),
    ensures
        ({
            let items = seq![
                TimelineItemV::Message(edit),
                TimelineItemV::Message(b),
                TimelineItemV::Message(a),
            ];
            let a_entry = CollatedEntryV {
                event_id: a.event_id,
                sender: edit.sender,
                text: new_text,
            };
            let b_entry = CollatedEntryV { event_id: b.event_id, sender: b.sender, text: b_text };
            &&& spec_collate(items) == seq![b_entry, a_entry]
            &&& spec_collate_comments(items) == spec_rendered(a_entry) + spec_rendered(b_entry)
        }),
{
    let items = seq![
        TimelineItemV::Message(edit),
        TimelineItemV::Message(b),
        TimelineItemV::Message(a),
    ];
    let a_entry = CollatedEntryV { event_id: a.event_id, sender: edit.sender, text: new_text };
    let b_entry = CollatedEntryV { event_id: b.event_id, sender: b.sender, text: b_text };

    let rest1 = items.drop_first();
    let rest2 = rest1.drop_first();
    let rest3 = rest2.drop_first();
    assert(rest1 =~= seq![TimelineItemV::Message(b), TimelineItemV::Message(a)]);
    assert(rest2 =~= seq![TimelineItemV::Message(a)]);
    assert(rest3 =~= Seq::<TimelineItemV>::empty());
    assert(items.first() == TimelineItemV::Message(edit));
    assert(rest1.first() == TimelineItemV::Message(b));
    assert(rest2.first() == TimelineItemV::Message(a));

    let buf0 = Seq::<CollatedEntryV>::empty();
    let buf1 = spec_collate_step(buf0, items.first());
    assert(spec_find_entry(buf0, a.event_id) == -1);
    assert(buf1 =~= seq![a_entry]);

    let buf2 = spec_collate_step(buf1, rest1.first());
    assert(buf1.first() == a_entry);
    assert(buf1.drop_first() =~= buf0);
    assert(spec_find_entry(buf1.drop_first(), b.event_id) == -1);
    assert(spec_find_entry(buf1, b.event_id) == -1);
    assert(buf2 =~= seq![a_entry, b_entry]);

    let buf3 = spec_collate_step(buf2, rest2.first());
    assert(buf2.first() == a_entry);
    assert(spec_find_entry(buf2, a.event_id) == 0);
    assert(buf2.remove(0) =~= seq![b_entry]);
    assert(buf2[0] == a_entry);
    assert(buf3 =~= seq![b_entry, a_entry]);

    assert(spec_collate_from(buf0, items) == spec_collate_from(buf1, rest1));
    assert(spec_collate_from(buf1, rest1) == spec_collate_from(buf2, rest2));
    assert(spec_collate_from(buf2, rest2) == spec_collate_from(buf3, rest3));
    assert(spec_collate_from(buf3, rest3) == buf3);
    assert(spec_collate(items) =~= seq![b_entry, a_entry]);

    let collated = seq![b_entry, a_entry];
    assert(collated.first() == b_entry);
    let tail = collated.drop_first();
    assert(tail =~= seq![a_entry]);
    assert(tail.first() == a_entry);
    assert(tail.drop_first() =~= Seq::<CollatedEntryV>::empty());
    assert(spec_render_reversed(tail.drop_first()) =~= Seq::<MessageView>::empty());
    assert(spec_render_reversed(tail) =~= spec_rendered(a_entry));
    assert(spec_render_reversed(collated) =~= spec_rendered(a_entry) + spec_rendered(b_entry));
}

fn render_entry(e: &CollatedEntry) -> (r: Option<Message>)
    ensures
        r.deep_view() == spec_render_entry(e@),
{
    match &e.text.formatted {
        Some(f) => {
            if f.is_html {
                Some(Message { html: sanitize_html(f.body.as_str()), sender: e.sender.clone() })
            } else {
                None
            }
        },
        None => {
            let html = markdown_to_html(e.text.body.as_str());
            Some(Message { html: sanitize_html(html.as_str()), sender: e.sender.clone() })
        },
    }
}

/// Produces the ordered comment list for a post room from its timeline,
/// fetched backward from the most recent event. Malformed or non-text events
/// are skipped, edits are collapsed onto the edited event's id, and every
/// body passes the strict sanitizer.
pub fn collate_comments(items: &Vec<TimelineItem>) -> (r: Vec<Message>)
    ensures
        r.deep_view() == spec_collate_comments(items.deep_view()),
{
    let buffer = collate(items);
    let mut comments: Vec<Message> = Vec::new();
    let mut i: usize = buffer.len();
    proof {
        assert(buffer.deep_view().skip(i as int) =~= Seq::<CollatedEntryV>::empty());
        assert(comments.deep_view() =~= Seq::<MessageView>::empty());
    }
    while i > 0
        invariant
            0 <= i <= buffer@.len(),
            buffer.deep_view().len() == buffer@.len(),
            buffer.deep_view() == spec_collate(items.deep_view()),
            comments.deep_view() == spec_render_reversed(buffer.deep_view().skip(i as int)),
        decreases i,
    {
        i -= 1;
        proof {
            assert(buffer.deep_view()[i as int] == buffer@[i as int]@);
            assert(buffer.deep_view().skip(i as int).first() == buffer.deep_view()[i as int]);
            assert(buffer.deep_view().skip(i as int).drop_first() =~= buffer.deep_view().skip(
                i + 1,
            ));
        }
        let ghost pre = comments.deep_view();
        if let Some(m) = render_entry(&buffer[i]) {
            comments.push(m);
        }
        proof {
            assert(comments.deep_view() =~= spec_render_reversed(buffer.deep_view().skip(
                i as int,
            )));
        }
    }
    proof {
        assert(buffer.deep_view().skip(0) =~= buffer.deep_view());
    }
    comments
}

} // verus!
