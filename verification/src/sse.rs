use vstd::prelude::*;
use crate::content::{ContentType, Like};
use crate::ids::{ContentId, UserId};
use crate::keys::{get_key, sse_channel_key};

verus! {

/// The kinds of live events.
#[derive(Debug, Clone, Copy, PartialEq, Eq, Structural)]
pub enum SseEventType {
    Like,
    Unlike,
    Heartbeat,
    Shutdown,
}

/// A live event about a content item, or a heartbeat. `timestamp` is in
/// nanoseconds since the Unix epoch, UTC.
#[derive(Debug)]
pub struct SseLikeEvent {
    pub event: SseEventType,
    pub content_type: Option<ContentType>,
    pub content_id: Option<ContentId>,
    pub user_id: Option<UserId>,
    pub count: Option<u64>,
    pub timestamp: i64,
}

impl Clone for SseLikeEvent {
    fn clone(&self) -> (r: Self)
        ensures
            r == *self,
    {
        SseLikeEvent {
            event: self.event,
            content_type: match &self.content_type {
                Some(t) => Some(t.clone()),
                None => None,
            },
            content_id: self.content_id,
            user_id: self.user_id,
            count: self.count,
            timestamp: self.timestamp,
        }
    }
}

/// The event that announces a change of a content item's like count.
pub open spec fn change_event(
    e_type: SseEventType,
    c_type: ContentType,
    c_id: ContentId,
    user: UserId,
    count: u64,
    now: i64,
) -> SseLikeEvent {
    SseLikeEvent {
        event: e_type,
        content_type: Some(c_type),
        content_id: Some(c_id),
        user_id: Some(user),
        count: Some(count),
        timestamp: now,
    }
}

impl SseLikeEvent {
    /// The event of a like with the content item's count after it; its time
    /// is the like's.
    pub fn from_like(like: Like, count: u64, e_type: SseEventType) -> (r: Self)
        ensures
            r == change_event(e_type, like.content_type, like.content_id, like.user_id, count,
                like.created_at),
    {
        SseLikeEvent {
            content_id: Some(like.content_id),
            content_type: Some(like.content_type),
            count: Some(count),
            event: e_type,
            user_id: Some(like.user_id),
            timestamp: like.created_at,
        }
    }

    /// The event that announces a change of a content item's like count.
    pub fn change(
        e_type: SseEventType,
        c_type: &ContentType,
        c_id: &ContentId,
        user: &UserId,
        count: u64,
        now: i64,
    ) -> (r: Self)
        ensures
            r == change_event(e_type, *c_type, *c_id, *user, count, now),
    {
        SseLikeEvent {
            event: e_type,
            content_type: Some(c_type.clone()),
            content_id: Some(*c_id),
            user_id: Some(*user),
            count: Some(count),
            timestamp: now,
        }
    }

    /// A heartbeat at time `now`: it names no content item.
    pub fn heartbeat(now: i64) -> (r: Self)
        ensures
            r == (SseLikeEvent {
                event: SseEventType::Heartbeat,
                content_type: None,
                content_id: None,
                user_id: None,
                count: None,
                timestamp: now,
            }),
    {
        SseLikeEvent {
            event: SseEventType::Heartbeat,
            content_type: None,
            content_id: None,
            user_id: None,
            count: None,
            timestamp: now,
        }
    }

    /// The local channel to which an incoming event is routed: the one of its
    /// content item, or none when the event does not name one.
    pub fn route_key(&self) -> (k: Option<String>)
        ensures
            match (self.content_type, self.content_id) {
                (Some(t), Some(i)) => k matches Some(s) && s@ == sse_channel_key(t@, i.0),
                _ => k is None,
            },
    {
        match (&self.content_type, &self.content_id) {
            (Some(t), Some(i)) => Some(get_key(t, i)),
            _ => None,
        }
    }
}

/// Whether a local channel is dropped after an event was handed to it: when
/// the hand-over failed and nobody listens any more.
pub fn should_drop_channel(send_failed: bool, receiver_count: usize) -> (b: bool)
    ensures
        b == (send_failed && receiver_count == 0),
{
    send_failed && receiver_count == 0
}

} // verus!
