//! Verified core of a small event-driven blog backend: posts, comments,
//! moderation, an event bus and a query view that folds events into posts
//! with their comments.

pub mod text;
pub mod types;
pub mod ids;
pub mod request;
pub mod moderation;
pub mod comments;
pub mod posts;
pub mod event_bus;
pub mod query;
