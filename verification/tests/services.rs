use blog_services::comments::{comment_created_event, CommentData};
use blog_services::event_bus::EventData;
use blog_services::ids::parse_uuid;
use blog_services::moderation::{moderate_content, moderation, ModerationOutcome};
use blog_services::posts::{post_created_event, PostData};
use blog_services::request::on_response;
use blog_services::types::{Comment, CommentStatus, Data, Event, EventType, Post};

const POST_A: u128 = 0x550e8400_e29b_41d4_a716_446655440000;
const POST_B: u128 = 0x6fa459ea_ee8a_3ca4_894e_db77e160355e;

fn comment(text: &str) -> Comment {
    Comment { id: None, post_id: None, content: text.to_string(), status: None }
}

fn is_v4(v: u128) -> bool {
    (v >> 76) & 0xf == 4 && (v >> 62) & 0x3 == 2
}

#[test]
fn default_status_is_pending() {
    assert_eq!(CommentStatus::default(), CommentStatus::Pending);
}

#[test]
fn success_statuses_are_ok() {
    assert_eq!(on_response(Ok(200)), Ok(()));
    assert_eq!(on_response(Ok(204)), Ok(()));
    assert_eq!(on_response(Ok(299)), Ok(()));
}

#[test]
fn unexpected_status_is_reported() {
    assert_eq!(on_response(Ok(404)), Err("Unexpected response status: 404".to_string()));
    assert_eq!(on_response(Ok(199)), Err("Unexpected response status: 199".to_string()));
    assert_eq!(on_response(Ok(300)), Err("Unexpected response status: 300".to_string()));
    assert_eq!(on_response(Ok(500)), Err("Unexpected response status: 500".to_string()));
}

#[test]
fn transport_errors_are_reported() {
    assert_eq!(on_response(Err(None)), Err("HTTP error: None".to_string()));
    assert_eq!(on_response(Err(Some(503))), Err("HTTP error: Some(503)".to_string()));
}

#[test]
fn parse_uuid_reads_hyphenated_and_simple_forms() {
    assert_eq!(parse_uuid("550e8400-e29b-41d4-a716-446655440000"), Some(POST_A));
    assert_eq!(parse_uuid("550e8400e29b41d4a716446655440000"), Some(POST_A));
    assert_eq!(parse_uuid("not-a-uuid"), None);
    assert_eq!(parse_uuid(""), None);
}

#[test]
fn orange_comments_are_rejected() {
    assert_eq!(moderate_content(&"I like oranges".to_string()), CommentStatus::Rejected);
    assert_eq!(moderate_content(&"orange".to_string()), CommentStatus::Rejected);
    assert_eq!(moderate_content(&"Orange".to_string()), CommentStatus::Approved);
    assert_eq!(moderate_content(&"oran ge".to_string()), CommentStatus::Approved);
    assert_eq!(moderate_content(&"".to_string()), CommentStatus::Approved);
}

#[test]
fn created_comment_event_is_moderated() {
    let mut c = comment("an orange tree");
    c.id = Some(7);
    c.post_id = Some(POST_A);
    let event = Event { event_type: EventType::CommentCreated, data: Data::CommentData(c) };
    match moderation(&event) {
        ModerationOutcome::Publish { event_type, comment, status } => {
            assert_eq!(event_type, EventType::CommentModerated);
            assert_eq!(status, CommentStatus::Rejected);
            assert_eq!(comment.id, Some(7));
            assert_eq!(comment.post_id, Some(POST_A));
            assert_eq!(comment.content, "an orange tree");
        }
        other => panic!("unexpected outcome {:?}", other),
    }
}

#[test]
fn plain_comment_is_approved() {
    let event = Event { event_type: EventType::CommentCreated, data: Data::CommentData(comment("nice post")) };
    match moderation(&event) {
        ModerationOutcome::Publish { status, .. } => assert_eq!(status, CommentStatus::Approved),
        other => panic!("unexpected outcome {:?}", other),
    }
}

#[test]
fn other_events_are_unexpected_or_ignored() {
    let post_event = Event {
        event_type: EventType::PostCreated,
        data: Data::PostData(Post { id: Some(1), title: "t".to_string() }),
    };
    assert!(matches!(moderation(&post_event), ModerationOutcome::Unexpected));
    let odd = Event {
        event_type: EventType::CommentCreated,
        data: Data::PostData(Post { id: Some(1), title: "t".to_string() }),
    };
    assert!(matches!(moderation(&odd), ModerationOutcome::Ignored));
    let moderated = Event { event_type: EventType::CommentModerated, data: Data::CommentData(comment("x")) };
    assert!(matches!(moderation(&moderated), ModerationOutcome::Unexpected));
}

#[test]
fn create_comment_assigns_id_post_and_status() {
    let mut store = CommentData::new();
    let mut c = comment("hello");
    c.status = Some(CommentStatus::Approved);
    c.post_id = Some(POST_B);
    let created = store.create_comment(POST_A, c);
    assert!(created.id.is_some());
    assert!(is_v4(created.id.unwrap()));
    assert_eq!(created.post_id, Some(POST_A));
    assert_eq!(created.status, Some(CommentStatus::Pending));
    assert_eq!(created.content, "hello");
    assert_eq!(store.comments.len(), 1);
    assert_eq!(store.comments[0].id, created.id);
}

#[test]
fn fresh_ids_differ() {
    let mut store = CommentData::new();
    let a = store.create_comment(POST_A, comment("a"));
    let b = store.create_comment(POST_A, comment("b"));
    assert_ne!(a.id, b.id);
}

#[test]
fn comments_are_listed_per_post_in_order() {
    let mut store = CommentData::new();
    store.add_comment(POST_A, 1, comment("first"));
    store.add_comment(POST_B, 2, comment("other"));
    store.add_comment(POST_A, 3, comment("second"));
    let listed = store.get_comments(POST_A);
    assert_eq!(listed.len(), 2);
    assert_eq!(listed[0].id, Some(1));
    assert_eq!(listed[0].content, "first");
    assert_eq!(listed[1].id, Some(3));
    assert_eq!(listed[1].content, "second");
    let other = store.get_comments(POST_B);
    assert_eq!(other.len(), 1);
    assert_eq!(other[0].id, Some(2));
    assert!(store.get_comments(42).is_empty());
}

#[test]
fn created_comment_is_listed_last() {
    let mut store = CommentData::new();
    store.add_comment(POST_A, 1, comment("old"));
    let before_b = store.get_comments(POST_B).len();
    let created = store.create_comment(POST_A, comment("new"));
    let listed = store.get_comments(POST_A);
    assert_eq!(listed.len(), 2);
    assert_eq!(listed[1].id, created.id);
    assert_eq!(store.get_comments(POST_B).len(), before_b);
}

#[test]
fn comment_event_carries_the_comment() {
    let mut store = CommentData::new();
    let created = store.add_comment(POST_A, 9, comment("hi"));
    let event = comment_created_event(&created);
    assert_eq!(event.event_type, EventType::CommentCreated);
    match event.data {
        Data::CommentData(c) => {
            assert_eq!(c.id, Some(9));
            assert_eq!(c.post_id, Some(POST_A));
            assert_eq!(c.content, "hi");
            assert_eq!(c.status, Some(CommentStatus::Pending));
        }
        Data::PostData(_) => panic!("wrong payload"),
    }
}

#[test]
fn create_post_assigns_fresh_id() {
    let mut store = PostData::new();
    let created = store.create_post(Post { id: Some(5), title: "Hello".to_string() });
    assert!(created.id.is_some());
    assert!(is_v4(created.id.unwrap()));
    assert_ne!(created.id, Some(5));
    assert_eq!(created.title, "Hello");
    let all = store.all_posts();
    assert_eq!(all.len(), 1);
    assert_eq!(all[0].id, created.id);
    assert_eq!(all[0].title, "Hello");
}

#[test]
fn posts_are_listed_in_creation_order() {
    let mut store = PostData::new();
    store.add_post(1, Post { id: None, title: "one".to_string() });
    store.add_post(2, Post { id: None, title: "two".to_string() });
    let all = store.all_posts();
    assert_eq!(all.len(), 2);
    assert_eq!(all[0].id, Some(1));
    assert_eq!(all[1].title, "two");
    let event = post_created_event(&all[1]);
    assert_eq!(event.event_type, EventType::PostCreated);
    match event.data {
        Data::PostData(p) => {
            assert_eq!(p.id, Some(2));
            assert_eq!(p.title, "two");
        }
        Data::CommentData(_) => panic!("wrong payload"),
    }
}

#[test]
fn event_bus_forwards_the_whole_log() {
    let mut bus = EventData::new();
    let first = bus.handle_event(Event {
        event_type: EventType::PostCreated,
        data: Data::PostData(Post { id: Some(1), title: "a".to_string() }),
    });
    assert_eq!(first.len(), 1);
    let second = bus.handle_event(Event {
        event_type: EventType::CommentCreated,
        data: Data::CommentData(comment("c")),
    });
    assert_eq!(second.len(), 2);
    assert_eq!(second[0].event_type, EventType::PostCreated);
    assert_eq!(second[1].event_type, EventType::CommentCreated);
    let log = bus.events();
    assert_eq!(log.len(), 2);
    assert_eq!(log[1].event_type, EventType::CommentCreated);
}
