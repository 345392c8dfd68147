//! The forum domain model. Every entity here is a read projection, recomputed
//! from backend room state and timelines on each query; the spec-level mirror
//! types (`*View`) are what contracts and laws speak about.
use vstd::prelude::*;

verus! {

// ---------------------------------------------------------------------------
// Categories and subcategories
// ---------------------------------------------------------------------------

/// A subcategory of the static catalog. `id == None` denotes the
/// distinguished "uncategorized" bucket.
#[derive(Clone, Debug, PartialEq, Eq)]
pub struct Subcategory {
    pub id: Option<String>,
    pub title: String,
    pub topic: String,
}

pub struct SubcategoryView {
    pub id: Option<Seq<char>>,
    pub title: Seq<char>,
    pub topic: Seq<char>,
}

impl View for Subcategory {
    type V = SubcategoryView;

    open spec fn view(&self) -> SubcategoryView {
        SubcategoryView { id: self.id.deep_view(), title: self.title@, topic: self.topic@ }
    }
}

impl DeepView for Subcategory {
    type V = SubcategoryView;

    open spec fn deep_view(&self) -> SubcategoryView {
        self.view()
    }
}

/// A top-level category of the static catalog, holding its subcategories in
/// display order.
#[derive(Clone, Debug, PartialEq, Eq)]
pub struct Category {
    pub title: String,
    pub topic: String,
    pub subcategories: Vec<Subcategory>,
}

pub struct CategoryView {
    pub title: Seq<char>,
    pub topic: Seq<char>,
    pub subcategories: Seq<SubcategoryView>,
}

impl View for Category {
    type V = CategoryView;

    open spec fn view(&self) -> CategoryView {
        CategoryView {
            title: self.title@,
            topic: self.topic@,
            subcategories: self.subcategories.deep_view(),
        }
    }
}

impl DeepView for Category {
    type V = CategoryView;

    open spec fn deep_view(&self) -> CategoryView {
        self.view()
    }
}

// ---------------------------------------------------------------------------
// Posts and comments
// ---------------------------------------------------------------------------

/// A forum post, identified by the dense integer taken from its room alias.
#[derive(Clone, Debug, PartialEq, Eq)]
pub struct Post {
    pub title: String,
    pub topic: Option<String>,
    pub id: u64,
}

pub struct PostView {
    pub title: Seq<char>,
    pub topic: Option<Seq<char>>,
    pub id: u64,
}

impl View for Post {
    type V = PostView;

    open spec fn view(&self) -> PostView {
        PostView { title: self.title@, topic: self.topic.deep_view(), id: self.id }
    }
}

impl DeepView for Post {
    type V = PostView;

    open spec fn deep_view(&self) -> PostView {
        self.view()
    }
}

/// A comment of a post: sanitized HTML plus the sending user id. A comment
/// has no identity beyond its position in the post's comment list.
#[derive(Clone, Debug, PartialEq, Eq)]
pub struct Comment {
    pub html: String,
    pub sender: String,
}

pub struct CommentView {
    pub html: Seq<char>,
    pub sender: Seq<char>,
}

impl View for Comment {
    type V = CommentView;

    open spec fn view(&self) -> CommentView {
        CommentView { html: self.html@, sender: self.sender@ }
    }
}

impl DeepView for Comment {
    type V = CommentView;

    open spec fn deep_view(&self) -> CommentView {
        self.view()
    }
}

/// A collated timeline message: the same shape as `Comment`, at the
/// classifier's level rather than the forum API's.
#[derive(Clone, Debug, PartialEq, Eq)]
pub struct Message {
    pub html: String,
    pub sender: String,
}

pub struct MessageView {
    pub html: Seq<char>,
    pub sender: Seq<char>,
}

impl View for Message {
    type V = MessageView;

    open spec fn view(&self) -> MessageView {
        MessageView { html: self.html@, sender: self.sender@ }
    }
}

impl DeepView for Message {
    type V = MessageView;

    open spec fn deep_view(&self) -> MessageView {
        self.view()
    }
}

// ---------------------------------------------------------------------------
// Classified rooms
// ---------------------------------------------------------------------------

/// A validated post room. Only materialized when both a title and a
/// decodable post alias were derived; topic and category may be absent.
#[derive(Clone, Debug, PartialEq, Eq)]
pub struct Room {
    pub title: String,
    pub topic: Option<String>,
    pub category: Option<String>,
    pub post_id: u64,
    pub room_id: String,
}

pub struct RoomView {
    pub title: Seq<char>,
    pub topic: Option<Seq<char>>,
    pub category: Option<Seq<char>>,
    pub post_id: u64,
    pub room_id: Seq<char>,
}

impl View for Room {
    type V = RoomView;

    open spec fn view(&self) -> RoomView {
        RoomView {
            title: self.title@,
            topic: self.topic.deep_view(),
            category: self.category.deep_view(),
            post_id: self.post_id,
            room_id: self.room_id@,
        }
    }
}

impl DeepView for Room {
    type V = RoomView;

    open spec fn deep_view(&self) -> RoomView {
        self.view()
    }
}

// ---------------------------------------------------------------------------
// Dynamic-mode projections: categories and posts as space children
// ---------------------------------------------------------------------------

/// A category discovered by traversing the top-level space: identity is the
/// slug taken from its `#forum-<slug>` alias, never the opaque room id.
#[derive(Clone, Debug, PartialEq, Eq)]
pub struct RoomCategory {
    pub title: String,
    pub topic: String,
    pub room_local_id: String,
}

pub struct RoomCategoryView {
    pub title: Seq<char>,
    pub topic: Seq<char>,
    pub room_local_id: Seq<char>,
}

impl View for RoomCategory {
    type V = RoomCategoryView;

    open spec fn view(&self) -> RoomCategoryView {
        RoomCategoryView {
            title: self.title@,
            topic: self.topic@,
            room_local_id: self.room_local_id@,
        }
    }
}

impl DeepView for RoomCategory {
    type V = RoomCategoryView;

    open spec fn deep_view(&self) -> RoomCategoryView {
        self.view()
    }
}

/// A post listed under a category room in dynamic mode, identified by the
/// raw backend room id.
#[derive(Clone, Debug, PartialEq, Eq)]
pub struct RoomPost {
    pub title: String,
    pub topic: Option<String>,
    pub room_id: String,
}

pub struct RoomPostView {
    pub title: Seq<char>,
    pub topic: Option<Seq<char>>,
    pub room_id: Seq<char>,
}

impl View for RoomPost {
    type V = RoomPostView;

    open spec fn view(&self) -> RoomPostView {
        RoomPostView { title: self.title@, topic: self.topic.deep_view(), room_id: self.room_id@ }
    }
}

impl DeepView for RoomPost {
    type V = RoomPostView;

    open spec fn deep_view(&self) -> RoomPostView {
        self.view()
    }
}

// ---------------------------------------------------------------------------
// Access and configuration
// ---------------------------------------------------------------------------

/// The payload of a signed, time-boxed credential: who may write, and until
/// when (unix seconds).
#[derive(Clone, Debug, PartialEq, Eq)]
pub struct AccessClaim {
    pub username: String,
    pub exp: u64,
}

pub struct AccessClaimView {
    pub username: Seq<char>,
    pub exp: u64,
}

impl View for AccessClaim {
    type V = AccessClaimView;

    open spec fn view(&self) -> AccessClaimView {
        AccessClaimView { username: self.username@, exp: self.exp }
    }
}

impl DeepView for AccessClaim {
    type V = AccessClaimView;

    open spec fn deep_view(&self) -> AccessClaimView {
        self.view()
    }
}

/// A user allowed to log in while the forum runs as a closed beta.
#[derive(Clone, Debug, PartialEq, Eq)]
pub struct ClosedBetaUser {
    pub username: String,
    pub password: String,
}

pub struct ClosedBetaUserView {
    pub username: Seq<char>,
    pub password: Seq<char>,
}

impl View for ClosedBetaUser {
    type V = ClosedBetaUserView;

    open spec fn view(&self) -> ClosedBetaUserView {
        ClosedBetaUserView { username: self.username@, password: self.password@ }
    }
}

impl DeepView for ClosedBetaUser {
    type V = ClosedBetaUserView;

    open spec fn deep_view(&self) -> ClosedBetaUserView {
        self.view()
    }
}

// ---------------------------------------------------------------------------
// View-preserving copies
// ---------------------------------------------------------------------------

fn clone_opt_string(o: &Option<String>) -> (r: Option<String>)
    ensures
        r.deep_view() == o.deep_view(),
{
    match o {
        None => None,
        Some(s) => Some(s.clone()),
    }
}

impl Subcategory {
    /// A copy with the same view; the derived `Clone` says nothing to the
    /// verifier.
    pub fn cloned(&self) -> (r: Subcategory)
        ensures
            r@ == self@,
    {
        Subcategory {
            id: clone_opt_string(&self.id),
            title: self.title.clone(),
            topic: self.topic.clone(),
        }
    }
}

impl Category {
    /// A copy with the same view.
    pub fn cloned(&self) -> (r: Category)
        ensures
            r@ == self@,
    {
        let mut subcategories: Vec<Subcategory> = Vec::new();
        let mut i: usize = 0;
        while i < self.subcategories.len()
            invariant
                0 <= i <= self.subcategories@.len(),
                self.subcategories.deep_view().len() == self.subcategories@.len(),
                subcategories.deep_view() == self.subcategories.deep_view().take(i as int),
            decreases self.subcategories@.len() - i,
        {
            proof {
                assert(self.subcategories.deep_view()[i as int] == self.subcategories@[i as int]@);
            }
            let ghost prev = subcategories.deep_view();
            subcategories.push(self.subcategories[i].cloned());
            proof {
                assert(subcategories.deep_view() =~= prev.push(self.subcategories@[i as int]@));
                assert(subcategories.deep_view() =~= self.subcategories.deep_view().take(i + 1));
            }
            i += 1;
        }
        proof {
            assert(self.subcategories.deep_view().take(self.subcategories@.len() as int)
                =~= self.subcategories.deep_view());
        }
        Category { title: self.title.clone(), topic: self.topic.clone(), subcategories }
    }
}

impl Room {
    /// A copy with the same view.
    pub fn cloned(&self) -> (r: Room)
        ensures
            r@ == self@,
    {
        Room {
            title: self.title.clone(),
            topic: clone_opt_string(&self.topic),
            category: clone_opt_string(&self.category),
            post_id: self.post_id,
            room_id: self.room_id.clone(),
        }
    }
}

impl Post {
    /// A copy with the same view.
    pub fn cloned(&self) -> (r: Post)
        ensures
            r@ == self@,
    {
        Post {
            title: self.title.clone(),
            topic: clone_opt_string(&self.topic),
            id: self.id,
        }
    }
}

// ---------------------------------------------------------------------------
// Errors
// ---------------------------------------------------------------------------

/// The error taxonomy of the mapping layer. Not-found and malformed-input
/// variants carry no payload; backend and transport failures are wrapped
/// opaquely by the surrounding program.
#[derive(Clone, Debug, PartialEq, Eq)]
pub enum Error {
    AlreadyLoggedIn,
    RequireLogin,
    InvalidLoginCredential,
    UnknownCategory,
    UnknownPost,
    UnknownPostTitle,
    UnknownCategoryTitle,
    UnknownCategoryTopic,
    UnknownToplevelRoom,
    UnknownCategoryRoom,
    InvalidCategoryAlias,
    BlankTitle,
    BlankTopic,
    BlankContent,
    Backend(String),
}

} // verus!
