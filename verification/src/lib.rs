//! Data layer of a terminal browser for a tree-shaped remote content feed:
//! a time-bounded cache over remote lookups, a selection-driven fetch
//! orchestrator with cancellation, a comment-tree materializer, and a
//! bounded, persisted read-history store.

pub mod api_url;
pub mod article;
pub mod cache;
pub mod components;
pub mod consts;
pub mod get_items;
pub mod get_stories;
pub mod get_user;
pub mod list;
pub mod orchestrator;
pub mod panels;
pub mod render;
pub mod storages;
pub mod text;
