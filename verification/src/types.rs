//! The values that the services exchange: posts, comments and the events
//! that announce them. A UUID is held as its 128-bit value.

use vstd::prelude::*;

verus! {

/// What happened, as announced on the event bus.
#[derive(Clone, Copy, Debug, PartialEq, Eq, Structural)]
pub enum EventType {
    PostCreated,
    CommentCreated,
    CommentModerated,
    CommentUpdated,
    Other,
}

/// Where a comment stands in moderation.
#[derive(Clone, Copy, Debug, PartialEq, Eq, Structural)]
pub enum CommentStatus {
    Pending,
    Approved,
    Rejected,
}

impl Default for CommentStatus {
    /// A comment starts out pending.
    fn default() -> (r: Self)
        ensures
            r == CommentStatus::Pending,
    {
        CommentStatus::Pending
    }
}

/// A post as the posts service stores it; the id is assigned on creation.
#[derive(Debug)]
pub struct Post {
    pub id: Option<u128>,
    pub title: String,
}

impl Post {
    /// A field-by-field copy.
    pub fn duplicate(&self) -> (r: Post)
        ensures
            r == *self,
    {
        Post { id: self.id, title: self.title.clone() }
    }
}

/// A comment as the comments service stores it; id, post and status are
/// assigned on creation.
#[derive(Debug)]
pub struct Comment {
    pub id: Option<u128>,
    pub post_id: Option<u128>,
    pub content: String,
    pub status: Option<CommentStatus>,
}

impl Comment {
    /// A field-by-field copy.
    pub fn duplicate(&self) -> (r: Comment)
        ensures
            r == *self,
    {
        Comment {
            id: self.id,
            post_id: self.post_id,
            content: self.content.clone(),
            status: self.status,
        }
    }
}

/// A comment with its moderation verdict.
#[derive(Debug)]
pub struct ModerateComment {
    pub id: u128,
    pub post_id: u128,
    pub content: String,
    pub status: CommentStatus,
}

impl ModerateComment {
    /// A field-by-field copy.
    pub fn duplicate(&self) -> (r: ModerateComment)
        ensures
            r == *self,
    {
        ModerateComment {
            id: self.id,
            post_id: self.post_id,
            content: self.content.clone(),
            status: self.status,
        }
    }
}

/// The payload of an event.
#[derive(Debug)]
pub enum Data {
    PostData(Post),
    CommentData(Comment),
}

impl Data {
    /// A field-by-field copy.
    pub fn duplicate(&self) -> (r: Data)
        ensures
            r == *self,
    {
        match self {
            Data::PostData(p) => Data::PostData(p.duplicate()),
            Data::CommentData(c) => Data::CommentData(c.duplicate()),
        }
    }
}

/// An event: its kind and its payload.
#[derive(Debug)]
pub struct Event {
    pub event_type: EventType,
    pub data: Data,
}

impl Event {
    /// A field-by-field copy.
    pub fn duplicate(&self) -> (r: Event)
        ensures
            r == *self,
    {
        Event { event_type: self.event_type, data: self.data.duplicate() }
    }
}

} // verus!
