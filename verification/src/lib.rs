//! A forum whose persistent storage is a federated chat backend: categories
//! and posts are chat rooms, comments are timeline messages. This crate is
//! the mapping layer between the two worlds: alias-derived identity, state
//! event reading, timeline collation, room classification, the category
//! catalog, and the planning of multi-step forum mutations.
pub mod alias;
pub mod api;
pub mod catalog;
pub mod classify;
pub mod html;
pub mod mutate;
pub mod params;
pub mod space;
pub mod state;
pub mod sync;
pub mod timeline;
pub mod types;
