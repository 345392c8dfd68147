//! The forum's JSON API surface: one request and one response type per
//! operation. The surrounding program moves these to and from the wire; the
//! mapping layer fills them.
use vstd::prelude::*;

use crate::types::{Category, Comment, Subcategory};

verus! {

/// A login request.
#[derive(Clone, Debug, PartialEq, Eq)]
pub struct Login {
    pub username: String,
    pub password: String,
}

/// A successful login: the signed, time-boxed access token.
#[derive(Clone, Debug, PartialEq, Eq)]
pub struct LoginResponse {
    pub access_token: String,
}

/// A request for the category catalog.
#[derive(Clone, Debug, PartialEq, Eq)]
pub struct Categories {}

#[derive(Clone, Debug, PartialEq, Eq)]
pub struct CategoriesResponse {
    pub categories: Vec<Category>,
}

/// A request for the posts of one subcategory; `None` addresses the
/// uncategorized bucket.
#[derive(Clone, Debug, PartialEq, Eq)]
pub struct Posts {
    pub category_id: Option<String>,
}

#[derive(Clone, Debug, PartialEq, Eq)]
pub struct PostsResponse {
    pub category: Category,
    pub subcategory: Subcategory,
    pub posts: Vec<crate::types::Post>,
}

/// A request for one post and its comments.
#[derive(Clone, Debug, PartialEq, Eq)]
pub struct Post {
    pub id: u64,
}

#[derive(Clone, Debug, PartialEq, Eq)]
pub struct PostResponse {
    pub post: crate::types::Post,
    pub comments: Vec<Comment>,
}

/// A new comment on an existing post, by the holder of `access_token`.
#[derive(Clone, Debug, PartialEq, Eq)]
pub struct NewComment {
    pub access_token: String,
    pub post_id: u64,
    pub markdown: String,
}

#[derive(Clone, Debug, PartialEq, Eq)]
pub struct NewCommentResponse {}

/// A new post, by the holder of `access_token`.
#[derive(Clone, Debug, PartialEq, Eq)]
pub struct NewPost {
    pub access_token: String,
    pub title: String,
    pub topic: String,
    pub markdown: String,
    pub category_id: Option<String>,
}

#[derive(Clone, Debug, PartialEq, Eq)]
pub struct NewPostResponse {
    pub post_id: u64,
}

} // verus!
