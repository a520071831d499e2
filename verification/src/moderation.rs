//! The moderation service's rule: a comment that mentions "orange" is
//! rejected, any other is approved.

use vstd::prelude::*;
use crate::text::{contains_seq, str_contains};
use crate::types::{Comment, CommentStatus, Data, Event, EventType};

verus! {

/// The verdict on a comment's text.
pub open spec fn verdict(content: Seq<char>) -> CommentStatus {
    if contains_seq(content, "orange"@) {
        CommentStatus::Rejected
    } else {
        CommentStatus::Approved
    }
}

/// What the moderation service does with an event it receives.
#[derive(Debug)]
pub enum ModerationOutcome {
    /// Publish the comment with its verdict as an event of this type.
    Publish { event_type: EventType, comment: Comment, status: CommentStatus },
    /// A comment-created event that carries no comment: nothing to do.
    Ignored,
    /// Any other kind of event: refused as unexpected.
    Unexpected,
}

/// Judges a comment's text.
pub fn moderate_content(content: &String) -> (r: CommentStatus)
    ensures
        r == verdict(content@),
        r == CommentStatus::Rejected <==> exists|i: int|
            0 <= i && i + 6 <= content@.len() && #[trigger] content@.subrange(i, i + 6) == "orange"@,
        r == CommentStatus::Rejected || r == CommentStatus::Approved,
{
    proof {
        lemma_rejected_iff_mentions_orange(content@);
    }
    if str_contains(content.as_str(), "orange") {
        CommentStatus::Rejected
    } else {
        CommentStatus::Approved
    }
}

/// Decides what to do with an incoming event: a created comment is judged
/// and published as moderated; a comment-created event without a comment is
/// ignored; every other event type is unexpected.
pub fn moderation(event: &Event) -> (r: ModerationOutcome)
    ensures
        match event.event_type {
            EventType::CommentCreated => match event.data {
                Data::CommentData(c) => r == (ModerationOutcome::Publish {
                    event_type: EventType::CommentModerated,
                    comment: c,
                    status: verdict(c.content@),
                }),
                Data::PostData(_) => r is Ignored,
            },
            _ => r is Unexpected,
        },
{
    match event.event_type {
        EventType::CommentCreated => match &event.data {
            Data::CommentData(c) => {
                let status = moderate_content(&c.content);
                ModerationOutcome::Publish {
                    event_type: EventType::CommentModerated,
                    comment: c.duplicate(),
                    status,
                }
            },
            Data::PostData(_) => ModerationOutcome::Ignored,
        },
        _ => ModerationOutcome::Unexpected,
    }
}

/// A text that mentions "orange" anywhere, whatever comes before or after
/// it and however long it is, is rejected.
pub proof fn lemma_orange_anywhere_is_rejected(t: Seq<char>, u: Seq<char>)
    ensures
        verdict(t + "orange"@ + u) == CommentStatus::Rejected,
{
    reveal_strlit("orange");
    let s = t + "orange"@ + u;
    let i = t.len() as int;
    assert(s.subrange(i, i + "orange"@.len()) =~= "orange"@);
}

/// A text is rejected exactly when "orange" occurs in it as a contiguous run
/// of characters, and approved otherwise.
pub proof fn lemma_rejected_iff_mentions_orange(content: Seq<char>)
    ensures
        verdict(content) == CommentStatus::Rejected <==> exists|i: int|
            0 <= i && i + 6 <= content.len() && #[trigger] content.subrange(i, i + 6) == "orange"@,
        verdict(content) != CommentStatus::Rejected ==> verdict(content) == CommentStatus::Approved,
{
    reveal_strlit("orange");
    if verdict(content) == CommentStatus::Rejected {
        let i = choose|i: int| 0 <= i && i + "orange"@.len() <= content.len()
            && #[trigger] content.subrange(i, i + "orange"@.len()) == "orange"@;
        assert(content.subrange(i, i + 6) == "orange"@);
    } else {
        assert forall|i: int| 0 <= i && i + 6 <= content.len() implies #[trigger] content.subrange(i, i + 6) != "orange"@ by {
            assert(content.subrange(i, i + "orange"@.len()) != "orange"@);
        }
    }
}

} // verus!
