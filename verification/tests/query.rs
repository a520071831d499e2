use blog_services::query::{Comment, Post, PostData, RawCommentData, RawEvent, RawPostData};

const ID_A: &str = "550e8400-e29b-41d4-a716-446655440000";
const ID_B: &str = "6fa459ea-ee8a-3ca4-894e-db77e160355e";
const ID_C: &str = "9b2d3c4a-1111-4222-8333-444455556666";
const POST_A: u128 = 0x550e8400_e29b_41d4_a716_446655440000;
const POST_B: u128 = 0x6fa459ea_ee8a_3ca4_894e_db77e160355e;
const COMMENT_C: u128 = 0x9b2d3c4a_1111_4222_8333_444455556666;

fn s(v: &str) -> Option<String> {
    Some(v.to_string())
}

fn post_created(id: &str, title: &str) -> RawEvent {
    RawEvent {
        event_type: s("PostCreated"),
        post_data: Some(RawPostData { id: s(id), title: s(title) }),
        comment_data: None,
    }
}

fn comment_event(kind: &str, id: &str, post_id: &str, content: &str, status: &str) -> RawEvent {
    RawEvent {
        event_type: s(kind),
        post_data: None,
        comment_data: Some(RawCommentData {
            id: s(id),
            post_id: s(post_id),
            content: s(content),
            status: s(status),
        }),
    }
}

#[test]
fn post_and_comment_events_build_the_view() {
    let mut data = PostData::new();
    let events = vec![
        post_created(ID_A, "First"),
        comment_event("CommentCreated", ID_C, ID_A, "hello", "Pending"),
    ];
    let outcome = data.handle_event(&events);
    assert_eq!(outcome.failed_at, None);
    assert!(outcome.unsupported.is_empty());
    let posts = data.all_posts();
    assert_eq!(posts.len(), 1);
    assert_eq!(posts[0].id, POST_A);
    assert_eq!(posts[0].title, "First");
    assert_eq!(posts[0].comments.len(), 1);
    assert_eq!(posts[0].comments[0].id, COMMENT_C);
    assert_eq!(posts[0].comments[0].post_id, POST_A);
    assert_eq!(posts[0].comments[0].content, "hello");
    assert_eq!(posts[0].comments[0].status, "Pending");
}

#[test]
fn comment_update_changes_content_and_status() {
    let mut data = PostData::new();
    let events = vec![
        post_created(ID_A, "First"),
        comment_event("CommentCreated", ID_C, ID_A, "hello", "Pending"),
        comment_event("CommentUpdated", ID_C, ID_A, "hello!", "Approved"),
    ];
    assert_eq!(data.handle_event(&events).failed_at, None);
    let c = &data.posts[0].comments[0];
    assert_eq!(c.content, "hello!");
    assert_eq!(c.status, "Approved");
    assert_eq!(c.id, COMMENT_C);
}

#[test]
fn comment_for_unknown_post_is_dropped() {
    let mut data = PostData::new();
    let events = vec![
        post_created(ID_A, "First"),
        comment_event("CommentCreated", ID_C, ID_B, "lost", "Pending"),
        comment_event("CommentUpdated", ID_B, ID_A, "nobody", "Approved"),
    ];
    assert_eq!(data.handle_event(&events).failed_at, None);
    assert_eq!(data.posts.len(), 1);
    assert!(data.posts[0].comments.is_empty());
}

#[test]
fn comment_goes_to_first_post_with_the_id() {
    let mut data = PostData::new();
    data.handle_post_created(Post { id: POST_B, title: "b".to_string(), comments: vec![] });
    data.handle_post_created(Post { id: POST_A, title: "a1".to_string(), comments: vec![] });
    data.handle_post_created(Post { id: POST_A, title: "a2".to_string(), comments: vec![] });
    data.handle_comment_created(Comment {
        id: 1,
        post_id: POST_A,
        content: "x".to_string(),
        status: "Pending".to_string(),
    });
    assert!(data.posts[0].comments.is_empty());
    assert_eq!(data.posts[1].comments.len(), 1);
    assert!(data.posts[2].comments.is_empty());
}

#[test]
fn unsupported_and_untyped_events_are_skipped() {
    let mut data = PostData::new();
    let events = vec![
        RawEvent { event_type: s("CommentModerated"), post_data: None, comment_data: None },
        RawEvent { event_type: None, post_data: None, comment_data: None },
        RawEvent { event_type: s("PostCreated"), post_data: None, comment_data: None },
        post_created(ID_B, "Second"),
        RawEvent { event_type: s("Other"), post_data: None, comment_data: None },
    ];
    let outcome = data.handle_event(&events);
    assert_eq!(outcome.failed_at, None);
    assert_eq!(outcome.unsupported, vec!["CommentModerated".to_string(), "Other".to_string()]);
    assert_eq!(data.posts.len(), 1);
    assert_eq!(data.posts[0].id, POST_B);
}

#[test]
fn unreadable_event_stops_the_batch() {
    let mut data = PostData::new();
    let events = vec![
        post_created(ID_A, "First"),
        post_created("not-a-uuid", "Broken"),
        post_created(ID_B, "Never"),
    ];
    let outcome = data.handle_event(&events);
    assert_eq!(outcome.failed_at, Some(1));
    assert_eq!(data.posts.len(), 1);
    assert_eq!(data.posts[0].title, "First");
}

#[test]
fn missing_field_stops_the_batch() {
    let mut data = PostData::new();
    let mut broken = comment_event("CommentCreated", ID_C, ID_A, "x", "Pending");
    if let Some(c) = broken.comment_data.as_mut() {
        c.status = None;
    }
    let events = vec![post_created(ID_A, "First"), broken];
    let outcome = data.handle_event(&events);
    assert_eq!(outcome.failed_at, Some(1));
    assert_eq!(data.posts.len(), 1);
    assert!(data.posts[0].comments.is_empty());
}
