//! The posts service: it stores posts and creates new ones under fresh ids.

use vstd::prelude::*;
use crate::ids::{id_generator, is_random_uuid};
use crate::types::{Data, Event, EventType, Post};

verus! {

/// The post that creation stores: the given title under the given id.
pub open spec fn created_post(id: u128, post: Post) -> Post {
    Post { id: Some(id), title: post.title }
}

/// The post store of the posts service.
#[derive(Debug)]
pub struct PostData {
    pub posts: Vec<Post>,
}

impl PostData {
    /// An empty store.
    pub fn new() -> (r: PostData)
        ensures
            r.posts@ == Seq::<Post>::empty(),
    {
        PostData { posts: Vec::new() }
    }

    /// Every stored post, in the order of creation.
    pub fn all_posts(&self) -> (r: Vec<Post>)
        ensures
            r@ == self.posts@,
    {
        let mut r: Vec<Post> = Vec::new();
        let n = self.posts.len();
        let mut i: usize = 0;
        while i < n
            invariant
                n == self.posts@.len(),
                i <= n,
                r@ == self.posts@.subrange(0, i as int),
            decreases n - i,
        {
            r.push(self.posts[i].duplicate());
            assert(r@ =~= self.posts@.subrange(0, i + 1));
            i = i + 1;
        }
        assert(self.posts@.subrange(0, n as int) =~= self.posts@);
        r
    }

    /// Stores `post` under id `id` (whatever id it carried) and returns what
    /// was stored.
    pub fn add_post(&mut self, id: u128, post: Post) -> (r: Post)
        ensures
            r == created_post(id, post),
            r.id == Some(id),
            r.title == post.title,
            final(self).posts@ == old(self).posts@.push(r),
    {
        let new_post = Post { id: Some(id), title: post.title };
        self.posts.push(new_post.duplicate());
        new_post
    }

    /// Creates a post under a fresh random id, stores it and returns it.
    pub fn create_post(&mut self, post: Post) -> (r: Post)
        ensures
            r.id is Some,
            is_random_uuid(r.id.unwrap()),
            r == created_post(r.id.unwrap(), post),
            final(self).posts@ == old(self).posts@.push(r),
    {
        let id = id_generator();
        self.add_post(id, post)
    }
}

/// The event that announces a created post.
pub fn post_created_event(post: &Post) -> (r: Event)
    ensures
        r == (Event { event_type: EventType::PostCreated, data: Data::PostData(*post) }),
{
    Event { event_type: EventType::PostCreated, data: Data::PostData(post.duplicate()) }
}

/// Whatever id a client submits, the stored post carries exactly the id the
/// store was given, with the submitted title.
pub proof fn lemma_created_post_fields(id: u128, post: Post)
    ensures
        created_post(id, post).id == Some(id),
        created_post(id, post).title == post.title,
{
}

} // verus!
