//! The query service: it folds the events it is sent into a list of posts,
//! each with its comments.

use vstd::prelude::*;
use crate::ids::{parse_uuid, uuid_parse_str};
use crate::text::str_equal;

verus! {

/// A comment as the query service keeps it; its status is kept as the text
/// it was announced with.
#[derive(Debug)]
pub struct Comment {
    pub id: u128,
    pub post_id: u128,
    pub content: String,
    pub status: String,
}

impl Comment {
    /// A field-by-field copy.
    pub fn duplicate(&self) -> (r: Comment)
        ensures
            r == *self,
    {
        Comment {
            id: self.id,
            post_id: self.post_id,
            content: self.content.clone(),
            status: self.status.clone(),
        }
    }
}

/// The model of a post of the query service.
pub struct PostView {
    pub id: u128,
    pub title: Seq<char>,
    pub comments: Seq<Comment>,
}

/// A post as the query service keeps it, with its comments in arrival order.
#[derive(Debug)]
pub struct Post {
    pub id: u128,
    pub title: String,
    pub comments: Vec<Comment>,
}

impl View for Post {
    type V = PostView;

    open spec fn view(&self) -> PostView {
        PostView { id: self.id, title: self.title@, comments: self.comments@ }
    }
}

/// A copy of a list of comments.
fn copy_comments(v: &Vec<Comment>) -> (r: Vec<Comment>)
    ensures
        r@ == v@,
{
    let mut r: Vec<Comment> = Vec::new();
    let n = v.len();
    let mut i: usize = 0;
    while i < n
        invariant
            n == v@.len(),
            i <= n,
            r@ == v@.subrange(0, i as int),
        decreases n - i,
    {
        r.push(v[i].duplicate());
        assert(r@ =~= v@.subrange(0, i + 1));
        i = i + 1;
    }
    assert(v@.subrange(0, n as int) =~= v@);
    r
}

impl Post {
    /// A copy with equal fields.
    pub fn duplicate(&self) -> (r: Post)
        ensures
            r@ == self@,
    {
        Post { id: self.id, title: self.title.clone(), comments: copy_comments(&self.comments) }
    }
}

/// The post list of the query service.
#[derive(Debug)]
pub struct PostData {
    pub posts: Vec<Post>,
}

impl View for PostData {
    type V = Seq<PostView>;

    open spec fn view(&self) -> Seq<PostView> {
        self.posts@.map_values(|p: Post| p@)
    }
}

/// The fields of a post-created payload, each present only where it is a
/// string.
#[derive(Debug)]
pub struct RawPostData {
    pub id: Option<String>,
    pub title: Option<String>,
}

/// The fields of a comment payload, each present only where it is a string.
#[derive(Debug)]
pub struct RawCommentData {
    pub id: Option<String>,
    pub post_id: Option<String>,
    pub content: Option<String>,
    pub status: Option<String>,
}

/// An event as it arrives: its type where that is a string, and the post
/// and comment payloads where they are objects.
#[derive(Debug)]
pub struct RawEvent {
    pub event_type: Option<String>,
    pub post_data: Option<RawPostData>,
    pub comment_data: Option<RawCommentData>,
}

/// An event read from its raw form.
#[derive(Debug)]
pub enum QueryEvent {
    PostCreated { id: u128, title: String },
    CommentCreated(Comment),
    CommentUpdated(Comment),
    /// An event of a type the query service does not handle.
    Unsupported(String),
    /// An event with no type, or without the payload its type calls for.
    Skipped,
}

/// The comment a payload describes, or `None` where a field is missing or
/// an id is not a UUID.
pub open spec fn decode_comment(c: RawCommentData) -> Option<Comment> {
    match (c.id, c.post_id, c.content, c.status) {
        (Some(id), Some(post_id), Some(content), Some(status)) => {
            match (uuid_parse_str(id@), uuid_parse_str(post_id@)) {
                (Some(i), Some(p)) => Some(Comment { id: i, post_id: p, content, status }),
                _ => None,
            }
        },
        _ => None,
    }
}

/// The event a raw event describes, or `None` where the service cannot read
/// a payload that its type calls for.
pub open spec fn decode_event(raw: RawEvent) -> Option<QueryEvent> {
    match raw.event_type {
        None => Some(QueryEvent::Skipped),
        Some(t) => if t@ == "PostCreated"@ {
            match raw.post_data {
                None => Some(QueryEvent::Skipped),
                Some(p) => match (p.id, p.title) {
                    (Some(id), Some(title)) => match uuid_parse_str(id@) {
                        Some(i) => Some(QueryEvent::PostCreated { id: i, title }),
                        None => None,
                    },
                    _ => None,
                },
            }
        } else if t@ == "CommentCreated"@ {
            match raw.comment_data {
                None => Some(QueryEvent::Skipped),
                Some(c) => match decode_comment(c) {
                    Some(cm) => Some(QueryEvent::CommentCreated(cm)),
                    None => None,
                },
            }
        } else if t@ == "CommentUpdated"@ {
            match raw.comment_data {
                None => Some(QueryEvent::Skipped),
                Some(c) => match decode_comment(c) {
                    Some(cm) => Some(QueryEvent::CommentUpdated(cm)),
                    None => None,
                },
            }
        } else {
            Some(QueryEvent::Unsupported(t))
        },
    }
}

/// `i` is the first post with id `id`.
pub open spec fn is_first_post(posts: Seq<PostView>, id: u128, i: int) -> bool {
    &&& 0 <= i < posts.len()
    &&& posts[i].id == id
    &&& forall|j: int| 0 <= j < i ==> #[trigger] posts[j].id != id
}

/// `j` is the first comment with id `id`.
pub open spec fn is_first_comment(comments: Seq<Comment>, id: u128, j: int) -> bool {
    &&& 0 <= j < comments.len()
    &&& comments[j].id == id
    &&& forall|k: int| 0 <= k < j ==> #[trigger] comments[k].id != id
}

/// The posts after a comment arrives: it is added to the comments of the
/// first post with its post id; without such a post nothing changes.
pub open spec fn with_comment_added(posts: Seq<PostView>, c: Comment) -> Seq<PostView> {
    if exists|i: int| is_first_post(posts, c.post_id, i) {
        let i = choose|i: int| is_first_post(posts, c.post_id, i);
        posts.update(i, PostView {
            id: posts[i].id,
            title: posts[i].title,
            comments: posts[i].comments.push(c),
        })
    } else {
        posts
    }
}

/// A comment with the content and status of `c` and everything else of `old`.
pub open spec fn revised(old: Comment, c: Comment) -> Comment {
    Comment { id: old.id, post_id: old.post_id, content: c.content, status: c.status }
}

/// The posts after a comment is updated: in the first post with its post id,
/// the first comment with its id takes its content and status; without such
/// a post or comment nothing changes.
pub open spec fn with_comment_updated(posts: Seq<PostView>, c: Comment) -> Seq<PostView> {
    if exists|i: int| is_first_post(posts, c.post_id, i) {
        let i = choose|i: int| is_first_post(posts, c.post_id, i);
        let p = posts[i];
        if exists|j: int| is_first_comment(p.comments, c.id, j) {
            let j = choose|j: int| is_first_comment(p.comments, c.id, j);
            posts.update(i, PostView {
                id: p.id,
                title: p.title,
                comments: p.comments.update(j, revised(p.comments[j], c)),
            })
        } else {
            posts
        }
    } else {
        posts
    }
}

/// The posts after one event.
pub open spec fn apply_event(posts: Seq<PostView>, e: QueryEvent) -> Seq<PostView> {
    match e {
        QueryEvent::PostCreated { id, title } => posts.push(
            PostView { id, title: title@, comments: Seq::empty() },
        ),
        QueryEvent::CommentCreated(c) => with_comment_added(posts, c),
        QueryEvent::CommentUpdated(c) => with_comment_updated(posts, c),
        _ => posts,
    }
}

/// The first `n` raw events can all be read.
pub open spec fn all_readable(raws: Seq<RawEvent>, n: int) -> bool {
    forall|k: int| 0 <= k < n ==> (#[trigger] decode_event(raws[k])) is Some
}

/// The posts after the first `n` raw events, applied in order.
pub open spec fn apply_events(posts: Seq<PostView>, raws: Seq<RawEvent>, n: nat) -> Seq<PostView>
    decreases n,
{
    if n == 0 {
        posts
    } else {
        apply_event(apply_events(posts, raws, (n - 1) as nat), decode_event(raws[n - 1]).unwrap())
    }
}

/// The types of the unsupported events among the first `n` raw events, in
/// order.
pub open spec fn unsupported_types(raws: Seq<RawEvent>, n: nat) -> Seq<String>
    decreases n,
{
    if n == 0 {
        Seq::empty()
    } else {
        let rest = unsupported_types(raws, (n - 1) as nat);
        match decode_event(raws[n - 1]) {
            Some(QueryEvent::Unsupported(t)) => rest.push(t),
            _ => rest,
        }
    }
}

/// What a batch of events came to: the types of the unsupported events met,
/// and the position of the first event that could not be read, where the
/// batch stopped.
#[derive(Debug)]
pub struct BatchOutcome {
    pub unsupported: Vec<String>,
    pub failed_at: Option<usize>,
}

/// Reads a comment payload.
pub fn read_comment(c: &RawCommentData) -> (r: Option<Comment>)
    ensures
        r == decode_comment(*c),
{
    match (&c.id, &c.post_id, &c.content, &c.status) {
        (Some(id), Some(post_id), Some(content), Some(status)) => {
            let i = parse_uuid(id.as_str());
            let p = parse_uuid(post_id.as_str());
            match (i, p) {
                (Some(i), Some(p)) => Some(Comment {
                    id: i,
                    post_id: p,
                    content: content.clone(),
                    status: status.clone(),
                }),
                _ => None,
            }
        },
        _ => None,
    }
}

/// Reads a raw event.
pub fn read_event(raw: &RawEvent) -> (r: Option<QueryEvent>)
    ensures
        r == decode_event(*raw),
{
    match &raw.event_type {
        None => Some(QueryEvent::Skipped),
        Some(t) => {
            if str_equal(t.as_str(), "PostCreated") {
                match &raw.post_data {
                    None => Some(QueryEvent::Skipped),
                    Some(p) => match (&p.id, &p.title) {
                        (Some(id), Some(title)) => match parse_uuid(id.as_str()) {
                            Some(i) => Some(QueryEvent::PostCreated { id: i, title: title.clone() }),
                            None => None,
                        },
                        _ => None,
                    },
                }
            } else if str_equal(t.as_str(), "CommentCreated") {
                match &raw.comment_data {
                    None => Some(QueryEvent::Skipped),
                    Some(c) => match read_comment(c) {
                        Some(cm) => Some(QueryEvent::CommentCreated(cm)),
                        None => None,
                    },
                }
            } else if str_equal(t.as_str(), "CommentUpdated") {
                match &raw.comment_data {
                    None => Some(QueryEvent::Skipped),
                    Some(c) => match read_comment(c) {
                        Some(cm) => Some(QueryEvent::CommentUpdated(cm)),
                        None => None,
                    },
                }
            } else {
                Some(QueryEvent::Unsupported(t.clone()))
            }
        },
    }
}

/// At most one position is the first post with a given id.
proof fn lemma_first_post_unique(posts: Seq<PostView>, id: u128, i: int, k: int)
    requires
        is_first_post(posts, id, i),
        is_first_post(posts, id, k),
    ensures
        i == k,
{
    if i < k {
        assert(posts[i].id != id);
    } else if k < i {
        assert(posts[k].id != id);
    }
}

/// At most one position is the first comment with a given id.
proof fn lemma_first_comment_unique(comments: Seq<Comment>, id: u128, j: int, k: int)
    requires
        is_first_comment(comments, id, j),
        is_first_comment(comments, id, k),
    ensures
        j == k,
{
    if j < k {
        assert(comments[j].id != id);
    } else if k < j {
        assert(comments[k].id != id);
    }
}

/// The position of the first comment with id `id`.
fn find_comment(comments: &Vec<Comment>, id: u128) -> (r: Option<usize>)
    ensures
        match r {
            Some(j) => is_first_comment(comments@, id, j as int),
            None => forall|k: int| 0 <= k < comments@.len() ==> #[trigger] comments@[k].id != id,
        },
{
    let n = comments.len();
    let mut j: usize = 0;
    while j < n
        invariant
            n == comments@.len(),
            j <= n,
            forall|k: int| 0 <= k < j ==> #[trigger] comments@[k].id != id,
        decreases n - j,
    {
        if comments[j].id == id {
            return Some(j);
        }
        j = j + 1;
    }
    None
}

impl PostData {
    /// An empty post list.
    pub fn new() -> (r: PostData)
        ensures
            r@ == Seq::<PostView>::empty(),
    {
        let r = PostData { posts: Vec::new() };
        assert(r@ =~= Seq::<PostView>::empty());
        r
    }

    /// Every post with its comments, in the order of creation.
    pub fn all_posts(&self) -> (r: Vec<Post>)
        ensures
            r@.map_values(|p: Post| p@) == self@,
    {
        let mut r: Vec<Post> = Vec::new();
        let n = self.posts.len();
        let mut i: usize = 0;
        while i < n
            invariant
                n == self.posts@.len(),
                i <= n,
                r@.len() == i,
                forall|k: int| 0 <= k < i ==> #[trigger] r@[k]@ == self.posts@[k]@,
            decreases n - i,
        {
            r.push(self.posts[i].duplicate());
            i = i + 1;
        }
        assert(r@.map_values(|p: Post| p@) =~= self@);
        r
    }

    /// The position of the first post with id `id`.
    fn find_post(&self, id: u128) -> (r: Option<usize>)
        ensures
            self.posts@.len() == self@.len(),
            match r {
                Some(i) => is_first_post(self@, id, i as int),
                None => forall|k: int| 0 <= k < self@.len() ==> #[trigger] self@[k].id != id,
            },
    {
        let n = self.posts.len();
        let mut i: usize = 0;
        while i < n
            invariant
                n == self.posts@.len(),
                n == self@.len(),
                i <= n,
                forall|k: int| 0 <= k < i ==> #[trigger] self@[k].id != id,
            decreases n - i,
        {
            if self.posts[i].id == id {
                assert(self@[i as int].id == id);
                return Some(i);
            }
            assert(self@[i as int].id != id);
            i = i + 1;
        }
        None
    }

    /// Applies one event.
    pub fn apply(&mut self, e: QueryEvent)
        ensures
            final(self)@ == apply_event(old(self)@, e),
    {
        match e {
            QueryEvent::PostCreated { id, title } => {
                self.handle_post_created(Post { id, title, comments: Vec::new() });
            },
            QueryEvent::CommentCreated(c) => self.handle_comment_created(c),
            QueryEvent::CommentUpdated(c) => self.handle_comment_updated(&c),
            _ => {},
        }
    }

    /// Applies a batch of raw events in order. It stops at the first event
    /// that cannot be read (a missing field or an id that is no UUID), after
    /// applying those before it, and reports its position; it reports the
    /// types of the unsupported events it met.
    pub fn handle_event(&mut self, events: &Vec<RawEvent>) -> (r: BatchOutcome)
        ensures
            match r.failed_at {
                None => {
                    &&& all_readable(events@, events@.len() as int)
                    &&& final(self)@ == apply_events(old(self)@, events@, events@.len())
                    &&& r.unsupported@ == unsupported_types(events@, events@.len())
                },
                Some(n) => {
                    &&& n < events@.len()
                    &&& all_readable(events@, n as int)
                    &&& decode_event(events@[n as int]) is None
                    &&& final(self)@ == apply_events(old(self)@, events@, n as nat)
                    &&& r.unsupported@ == unsupported_types(events@, n as nat)
                },
            },
    {
        let mut unsupported: Vec<String> = Vec::new();
        let n = events.len();
        let mut i: usize = 0;
        while i < n
            invariant
                n == events@.len(),
                i <= n,
                all_readable(events@, i as int),
                self@ == apply_events(old(self)@, events@, i as nat),
                unsupported@ == unsupported_types(events@, i as nat),
            decreases n - i,
        {
            match read_event(&events[i]) {
                None => {
                    return BatchOutcome { unsupported, failed_at: Some(i) };
                },
                Some(e) => {
                    if let QueryEvent::Unsupported(t) = &e {
                        unsupported.push(t.clone());
                    }
                    self.apply(e);
                },
            }
            i = i + 1;
        }
        BatchOutcome { unsupported, failed_at: None }
    }

    /// Adds a newly created post at the end.
    pub fn handle_post_created(&mut self, post: Post)
        ensures
            final(self)@ == old(self)@.push(post@),
    {
        self.posts.push(post);
        assert(self@ =~= old(self)@.push(post@));
    }

    /// Adds a comment to the first post with its post id; without such a
    /// post nothing changes.
    pub fn handle_comment_created(&mut self, comment: Comment)
        ensures
            final(self)@ == with_comment_added(old(self)@, comment),
    {
        match self.find_post(comment.post_id) {
            Some(i) => {
                proof {
                    assert forall|k: int| is_first_post(old(self)@, comment.post_id, k) implies k == i by {
                        lemma_first_post_unique(old(self)@, comment.post_id, i as int, k);
                    }
                }
                let ghost c = comment;
                self.posts[i].comments.push(comment);
                assert(self@ =~= with_comment_added(old(self)@, c));
            },
            None => {
                assert(!exists|k: int| is_first_post(old(self)@, comment.post_id, k));
            },
        }
    }

    /// Gives the first comment with the id of `comment`, in the first post
    /// with its post id, the content and status of `comment`; without such
    /// a post or comment nothing changes.
    pub fn handle_comment_updated(&mut self, comment: &Comment)
        ensures
            final(self)@ == with_comment_updated(old(self)@, *comment),
            final(self)@.len() == old(self)@.len(),
            forall|i: int, j: int|
                is_first_post(old(self)@, comment.post_id, i) && is_first_comment(
                    old(self)@[i].comments,
                    comment.id,
                    j,
                ) ==> {
                    &&& final(self)@[i].comments.len() == old(self)@[i].comments.len()
                    &&& final(self)@[i].comments[j].id == comment.id
                    &&& final(self)@[i].comments[j].content == comment.content
                    &&& final(self)@[i].comments[j].status == comment.status
                    &&& forall|k: int|
                        0 <= k < old(self)@[i].comments.len() && k != j
                            ==> #[trigger] final(self)@[i].comments[k] == old(self)@[i].comments[k]
                },
    {
        proof {
            assert forall|i: int, j: int|
                is_first_post(old(self)@, comment.post_id, i) && is_first_comment(
                    old(self)@[i].comments,
                    comment.id,
                    j,
                ) implies {
                    &&& with_comment_updated(old(self)@, *comment)[i].comments.len() == old(self)@[i].comments.len()
                    &&& with_comment_updated(old(self)@, *comment)[i].comments[j].id == comment.id
                    &&& with_comment_updated(old(self)@, *comment)[i].comments[j].content == comment.content
                    &&& with_comment_updated(old(self)@, *comment)[i].comments[j].status == comment.status
                    &&& forall|k: int|
                        0 <= k < old(self)@[i].comments.len() && k != j
                            ==> #[trigger] with_comment_updated(old(self)@, *comment)[i].comments[k] == old(self)@[i].comments[k]
                } by {
                lemma_update_changes_only_the_matching_comment(old(self)@, *comment, i, j);
            }
            lemma_comment_events_keep_posts(old(self)@, *comment);
        }
        match self.find_post(comment.post_id) {
            Some(i) => {
                proof {
                    assert forall|k: int| is_first_post(old(self)@, comment.post_id, k) implies k == i by {
                        lemma_first_post_unique(old(self)@, comment.post_id, i as int, k);
                    }
                }
                match find_comment(&self.posts[i].comments, comment.id) {
                    Some(j) => {
                        let ghost cs = self.posts@[i as int].comments@;
                        proof {
                            assert forall|k: int| is_first_comment(cs, comment.id, k) implies k == j by {
                                lemma_first_comment_unique(cs, comment.id, j as int, k);
                            }
                        }
                        self.posts[i].comments[j].content = comment.content.clone();
                        self.posts[i].comments[j].status = comment.status.clone();
                        proof {
                            assert(old(self)@[i as int].comments == cs);
                            assert(is_first_comment(cs, comment.id, j as int));
                            assert(self.posts@[i as int].comments@ =~= cs.update(
                                j as int,
                                revised(cs[j as int], *comment),
                            ));
                        }
                        assert(self@ =~= with_comment_updated(old(self)@, *comment));
                    },
                    None => {
                        assert(!exists|k: int| is_first_comment(old(self)@[i as int].comments, comment.id, k));
                    },
                }
            },
            None => {
                assert(!exists|k: int| is_first_post(old(self)@, comment.post_id, k));
            },
        }
    }
}

/// Comment events never add, drop or rename posts: the list keeps its length
/// and every post its id and title.
pub proof fn lemma_comment_events_keep_posts(posts: Seq<PostView>, c: Comment)
    ensures
        with_comment_added(posts, c).len() == posts.len(),
        with_comment_updated(posts, c).len() == posts.len(),
        forall|k: int|
            0 <= k < posts.len() ==> {
                &&& (#[trigger] with_comment_added(posts, c)[k]).id == posts[k].id
                &&& with_comment_added(posts, c)[k].title == posts[k].title
                &&& (#[trigger] with_comment_updated(posts, c)[k]).id == posts[k].id
                &&& with_comment_updated(posts, c)[k].title == posts[k].title
            },
{
}

/// A comment created on a post and then updated ends up last among that
/// post's comments, with its own id and post and the new content and
/// status; every other post is untouched.
pub proof fn lemma_update_after_create(posts: Seq<PostView>, i: int, c: Comment, u: Comment)
    requires
        is_first_post(posts, c.post_id, i),
        forall|k: int| 0 <= k < posts[i].comments.len() ==> #[trigger] posts[i].comments[k].id != c.id,
        u.id == c.id,
        u.post_id == c.post_id,
    ensures
        with_comment_updated(with_comment_added(posts, c), u).len() == posts.len(),
        with_comment_updated(with_comment_added(posts, c), u)[i].comments
            == posts[i].comments.push(revised(c, u)),
        forall|k: int|
            0 <= k < posts.len() && k != i ==> #[trigger] with_comment_updated(
                with_comment_added(posts, c),
                u,
            )[k] == posts[k],
{
    let mid = with_comment_added(posts, c);
    assert forall|k: int| is_first_post(posts, c.post_id, k) implies k == i by {
        lemma_first_post_unique(posts, c.post_id, i, k);
    }
    assert(is_first_post(mid, c.post_id, i));
    assert forall|k: int| is_first_post(mid, c.post_id, k) implies k == i by {
        lemma_first_post_unique(mid, c.post_id, i, k);
    }
    let cs = mid[i].comments;
    let j = posts[i].comments.len() as int;
    assert(cs[j] == c);
    assert(is_first_comment(cs, c.id, j));
    assert forall|k: int| is_first_comment(cs, c.id, k) implies k == j by {
        lemma_first_comment_unique(cs, c.id, j, k);
    }
    assert(cs.update(j, revised(cs[j], u)) =~= posts[i].comments.push(revised(c, u)));
    assert((choose|k: int| is_first_post(mid, u.post_id, k)) == i);
    assert((choose|k: int| is_first_comment(cs, u.id, k)) == j);
    let after = with_comment_updated(mid, u);
    assert(after[i].comments == cs.update(j, revised(cs[j], u)));
}

/// A comment on a post that was just created, and whose id no earlier post
/// carries, becomes that post's only comment.
pub proof fn lemma_comment_on_new_post(posts: Seq<PostView>, id: u128, title: Seq<char>, c: Comment)
    requires
        forall|k: int| 0 <= k < posts.len() ==> #[trigger] posts[k].id != id,
        c.post_id == id,
    ensures
        with_comment_added(posts.push(PostView { id, title, comments: Seq::empty() }), c)
            == posts.push(PostView { id, title, comments: seq![c] }),
{
    let with_post = posts.push(PostView { id, title, comments: Seq::empty() });
    let i = posts.len() as int;
    assert(is_first_post(with_post, id, i));
    assert forall|k: int| is_first_post(with_post, id, k) implies k == i by {
        lemma_first_post_unique(with_post, id, i, k);
    }
    assert(Seq::<Comment>::empty().push(c) =~= seq![c]);
    assert(with_comment_added(with_post, c) =~= posts.push(PostView { id, title, comments: seq![c] }));
}

/// An update for comment id `x` on post `p`, where the first post with id
/// `p` holds a comment with id `x`: the first such comment takes the new
/// content and status and keeps its id and post; every other comment of
/// that post, at any other position, and every other post stay as they were.
pub proof fn lemma_update_changes_only_the_matching_comment(
    posts: Seq<PostView>,
    c: Comment,
    i: int,
    j: int,
)
    requires
        is_first_post(posts, c.post_id, i),
        is_first_comment(posts[i].comments, c.id, j),
    ensures
        with_comment_updated(posts, c).len() == posts.len(),
        with_comment_updated(posts, c)[i].id == posts[i].id,
        with_comment_updated(posts, c)[i].title == posts[i].title,
        with_comment_updated(posts, c)[i].comments.len() == posts[i].comments.len(),
        with_comment_updated(posts, c)[i].comments[j].id == c.id,
        with_comment_updated(posts, c)[i].comments[j].post_id == posts[i].comments[j].post_id,
        with_comment_updated(posts, c)[i].comments[j].content == c.content,
        with_comment_updated(posts, c)[i].comments[j].status == c.status,
        forall|k: int|
            0 <= k < posts[i].comments.len() && k != j
                ==> #[trigger] with_comment_updated(posts, c)[i].comments[k] == posts[i].comments[k],
        forall|k: int|
            0 <= k < posts.len() && k != i ==> #[trigger] with_comment_updated(posts, c)[k] == posts[k],
{
    assert forall|k: int| is_first_post(posts, c.post_id, k) implies k == i by {
        lemma_first_post_unique(posts, c.post_id, i, k);
    }
    assert((choose|k: int| is_first_post(posts, c.post_id, k)) == i);
    let cs = posts[i].comments;
    assert forall|k: int| is_first_comment(cs, c.id, k) implies k == j by {
        lemma_first_comment_unique(cs, c.id, j, k);
    }
    assert((choose|k: int| is_first_comment(cs, c.id, k)) == j);
}

/// An update whose id no comment of the first post with its post id carries,
/// or whose post id no post carries, changes nothing.
pub proof fn lemma_update_without_match_changes_nothing(posts: Seq<PostView>, c: Comment)
    requires
        forall|i: int|
            0 <= i < posts.len() && posts[i].id == c.post_id ==> forall|k: int|
                0 <= k < posts[i].comments.len() ==> #[trigger] posts[i].comments[k].id != c.id,
    ensures
        with_comment_updated(posts, c) == posts,
{
    if exists|i: int| is_first_post(posts, c.post_id, i) {
        let i = choose|i: int| is_first_post(posts, c.post_id, i);
        assert(!exists|j: int| is_first_comment(posts[i].comments, c.id, j));
    }
}

} // verus!
