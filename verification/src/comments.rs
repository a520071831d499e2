//! The comments service: it stores comments, lists those of a post and
//! creates new ones, each pending moderation.

use vstd::prelude::*;
use crate::ids::{id_generator, is_random_uuid};
use crate::types::{Comment, CommentStatus, Data, Event, EventType};

verus! {

/// The comments of `s` that belong to post `post_id`, in stored order.
pub open spec fn comments_for(s: Seq<Comment>, post_id: u128) -> Seq<Comment>
    decreases s.len(),
{
    if s.len() == 0 {
        Seq::empty()
    } else {
        let rest = comments_for(s.drop_last(), post_id);
        if s.last().post_id == Some(post_id) {
            rest.push(s.last())
        } else {
            rest
        }
    }
}

/// The comment that creation stores: the given text with the given id,
/// attached to the given post and pending moderation.
pub open spec fn created_comment(post_id: u128, id: u128, comment: Comment) -> Comment {
    Comment {
        id: Some(id),
        post_id: Some(post_id),
        content: comment.content,
        status: Some(CommentStatus::Pending),
    }
}

/// The comment store of the comments service.
#[derive(Debug)]
pub struct CommentData {
    pub comments: Vec<Comment>,
}

impl CommentData {
    /// An empty store.
    pub fn new() -> (r: CommentData)
        ensures
            r.comments@ == Seq::<Comment>::empty(),
    {
        CommentData { comments: Vec::new() }
    }

    /// The comments of post `post_id`, in the order they were stored.
    pub fn get_comments(&self, post_id: u128) -> (r: Vec<Comment>)
        ensures
            r@ == comments_for(self.comments@, post_id),
    {
        let mut r: Vec<Comment> = Vec::new();
        let n = self.comments.len();
        let mut i: usize = 0;
        while i < n
            invariant
                n == self.comments@.len(),
                i <= n,
                r@ == comments_for(self.comments@.subrange(0, i as int), post_id),
            decreases n - i,
        {
            let c = &self.comments[i];
            proof {
                let s = self.comments@.subrange(0, i + 1);
                assert(s.drop_last() =~= self.comments@.subrange(0, i as int));
                assert(s.last() == self.comments@[i as int]);
            }
            if c.post_id == Some(post_id) {
                r.push(c.duplicate());
            }
            i = i + 1;
        }
        assert(self.comments@.subrange(0, n as int) =~= self.comments@);
        r
    }

    /// Stores `comment` under post `post_id` with id `id`, pending
    /// moderation, and returns what was stored.
    pub fn add_comment(&mut self, post_id: u128, id: u128, comment: Comment) -> (r: Comment)
        ensures
            r == created_comment(post_id, id, comment),
            r.id == Some(id),
            r.post_id == Some(post_id),
            r.content == comment.content,
            r.status == Some(CommentStatus::Pending),
            final(self).comments@ == old(self).comments@.push(r),
    {
        let new_comment = Comment {
            id: Some(id),
            post_id: Some(post_id),
            content: comment.content,
            status: Some(CommentStatus::Pending),
        };
        self.comments.push(new_comment.duplicate());
        new_comment
    }

    /// Creates a comment on post `post_id` under a fresh random id, stores
    /// it and returns it.
    pub fn create_comment(&mut self, post_id: u128, comment: Comment) -> (r: Comment)
        ensures
            r.id is Some,
            is_random_uuid(r.id.unwrap()),
            r == created_comment(post_id, r.id.unwrap(), comment),
            final(self).comments@ == old(self).comments@.push(r),
    {
        let id = id_generator();
        self.add_comment(post_id, id, comment)
    }
}

/// The event that announces a created comment.
pub fn comment_created_event(comment: &Comment) -> (r: Event)
    ensures
        r == (Event { event_type: EventType::CommentCreated, data: Data::CommentData(*comment) }),
{
    Event { event_type: EventType::CommentCreated, data: Data::CommentData(comment.duplicate()) }
}

/// Storing a comment under post `p` adds it at the end of that post's list
/// and leaves the list of every other post as it was.
pub proof fn lemma_listing_after_store(s: Seq<Comment>, c: Comment, p: u128)
    ensures
        c.post_id == Some(p) ==> comments_for(s.push(c), p) == comments_for(s, p).push(c),
        c.post_id != Some(p) ==> comments_for(s.push(c), p) == comments_for(s, p),
{
    assert(s.push(c).drop_last() =~= s);
}

/// A comment created on a post is listed last among that post's comments,
/// and creating it leaves the listings of other posts unchanged.
pub proof fn lemma_created_comment_is_listed(
    before: Seq<Comment>,
    post_id: u128,
    id: u128,
    comment: Comment,
    other: u128,
)
    requires
        other != post_id,
    ensures
        comments_for(before.push(created_comment(post_id, id, comment)), post_id)
            == comments_for(before, post_id).push(created_comment(post_id, id, comment)),
        comments_for(before.push(created_comment(post_id, id, comment)), other)
            == comments_for(before, other),
{
    lemma_listing_after_store(before, created_comment(post_id, id, comment), post_id);
    lemma_listing_after_store(before, created_comment(post_id, id, comment), other);
}

/// Whatever a client submits, the stored comment carries exactly the id the
/// store was given, the post of the path, the submitted text and the status
/// Pending.
pub proof fn lemma_created_comment_fields(post_id: u128, id: u128, comment: Comment)
    ensures
        created_comment(post_id, id, comment).id == Some(id),
        created_comment(post_id, id, comment).post_id == Some(post_id),
        created_comment(post_id, id, comment).content == comment.content,
        created_comment(post_id, id, comment).status == Some(CommentStatus::Pending),
{
}

} // verus!
