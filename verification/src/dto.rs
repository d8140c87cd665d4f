use vstd::prelude::*;
use crate::content::{ContentType, Like};
use crate::ids::{uuid_text, ContentId, UserId};
use vstd::string::StringExecFns;

verus! {

/// A request to like a content item.
#[derive(Debug)]
pub struct LikeRequest {
    pub content_type: ContentType,
    pub content_id: ContentId,
}

/// The command to like a content item on behalf of a user.
#[derive(Debug)]
pub struct AddLikeCommand {
    pub user_id: UserId,
    pub content_id: ContentId,
    pub content_type: ContentType,
}

impl From<(UserId, LikeRequest)> for AddLikeCommand {
    fn from(pair: (UserId, LikeRequest)) -> (r: Self) {
        let (user_id, req) = pair;
        AddLikeCommand { user_id, content_id: req.content_id, content_type: req.content_type }
    }
}

impl vstd::std_specs::convert::FromSpecImpl<(UserId, LikeRequest)> for AddLikeCommand {
    open spec fn obeys_from_spec() -> bool {
        true
    }

    open spec fn from_spec(pair: (UserId, LikeRequest)) -> AddLikeCommand {
        AddLikeCommand { user_id: pair.0, content_id: pair.1.content_id, content_type: pair.1.content_type }
    }
}

/// The outcome of a like: `liked_at` in nanoseconds since the Unix epoch, UTC.
#[derive(Debug, Default, Clone, Copy, PartialEq, Eq, Structural)]
pub struct AddLikeCommandResult {
    pub liked: bool,
    pub already_existed: bool,
    pub count: u64,
    pub liked_at: i64,
}

/// The answer to a like.
#[derive(Debug, Clone, Copy, PartialEq, Eq, Structural)]
pub struct LikeResponse {
    pub liked: bool,
    pub already_existed: bool,
    pub count: u64,
    pub liked_at: i64,
}

impl From<AddLikeCommandResult> for LikeResponse {
    fn from(value: AddLikeCommandResult) -> (r: Self) {
        LikeResponse {
            already_existed: value.already_existed,
            liked: value.liked,
            count: value.count,
            liked_at: value.liked_at,
        }
    }
}

impl vstd::std_specs::convert::FromSpecImpl<AddLikeCommandResult> for LikeResponse {
    open spec fn obeys_from_spec() -> bool {
        true
    }

    open spec fn from_spec(v: AddLikeCommandResult) -> LikeResponse {
        LikeResponse { liked: v.liked, already_existed: v.already_existed, count: v.count, liked_at: v.liked_at }
    }
}

/// The answer to an unlike.
#[derive(Debug, Clone, Copy, PartialEq, Eq, Structural)]
pub struct UnlikeResponse {
    pub liked: bool,
    pub was_liked: bool,
    pub count: u64,
}

/// The like count of a content item.
#[derive(Debug)]
pub struct CountResponse {
    pub content_type: String,
    pub content_id: String,
    pub count: u64,
}

impl CountResponse {
    /// The count of a content item, with its type and identifier as texts.
    pub fn for_content(c_type: &ContentType, c_id: &ContentId, count: u64) -> (r: Self)
        ensures
            r.content_type@ == c_type@,
            r.content_id@ == uuid_text(c_id.0),
            r.count == count,
    {
        CountResponse { content_type: c_type.to_text(), content_id: c_id.to_text(), count }
    }
}

/// Whether a user likes a content item, and since when.
#[derive(Debug, Default, Clone, Copy, PartialEq, Eq, Structural)]
pub struct StatusResponse {
    pub liked: bool,
    pub liked_at: Option<i64>,
}

impl StatusResponse {
    /// The status that a lookup of the user's like gives: liked when the
    /// like was found (any failure of the lookup counts as not liked).
    pub fn from_lookup<E>(found: Result<Like, E>) -> (r: Self)
        ensures
            r.liked == found is Ok,
            r.liked_at == (match found {
                Ok(l) => Some(l.created_at),
                Err(_) => None,
            }),
    {
        match found {
            Ok(l) => StatusResponse { liked: true, liked_at: Some(l.created_at) },
            Err(_) => StatusResponse { liked: false, liked_at: None },
        }
    }
}

/// A content item named in a batch request.
#[derive(Debug)]
pub struct ContentItem {
    pub content_type: ContentType,
    pub content_id: ContentId,
}

impl Clone for ContentItem {
    fn clone(&self) -> (r: Self)
        ensures
            r == *self,
    {
        ContentItem { content_type: self.content_type.clone(), content_id: self.content_id }
    }
}

/// A batch request.
#[derive(Debug)]
pub struct BatchRequest {
    pub items: Vec<ContentItem>,
}

/// The like count of a content item in a batch answer.
#[derive(Debug)]
pub struct ContentCount {
    pub content_type: ContentType,
    pub content_id: ContentId,
    pub count: u64,
}

impl Clone for ContentCount {
    fn clone(&self) -> (r: Self)
        ensures
            r == *self,
    {
        ContentCount { content_type: self.content_type.clone(), content_id: self.content_id, count: self.count }
    }
}

/// A batch answer of counts.
#[derive(Debug)]
pub struct BatchCountResponse {
    pub results: Vec<ContentCount>,
}

/// Whether a user likes a content item, in a batch answer.
#[derive(Debug)]
pub struct ContentStatus {
    pub content_type: ContentType,
    pub content_id: ContentId,
    pub liked: bool,
    pub liked_at: Option<i64>,
}

/// A batch answer of statuses.
#[derive(Debug)]
pub struct BatchStatusResponse {
    pub results: Vec<ContentStatus>,
}

/// The query of a user's likes.
#[derive(Debug)]
pub struct UserLikesQuery {
    pub content_type: Option<String>,
    pub cursor: Option<String>,
    pub limit: Option<usize>,
}

impl UserLikesQuery {
    /// The page size asked for: twenty when the query names none.
    pub fn page_limit(&self) -> (n: usize)
        ensures
            n == (match self.limit {
                Some(l) => l,
                None => 20,
            }),
    {
        match self.limit {
            Some(l) => l,
            None => 20,
        }
    }
}

/// A page of a user's likes.
#[derive(Debug)]
pub struct UserLikesResponse {
    pub items: Vec<LikedItemDto>,
    pub next_cursor: Option<String>,
}

/// A liked content item in a user's page of likes.
#[derive(Debug)]
pub struct LikedItemDto {
    pub content_type: String,
    pub content_id: String,
    pub liked_at: i64,
}

impl LikedItemDto {
    /// The page entry of a like.
    pub fn from_like(like: Like) -> (r: Self)
        ensures
            r.content_type@ == like.content_type@,
            r.content_id@ == uuid_text(like.content_id.0),
            r.liked_at == like.created_at,
    {
        LikedItemDto {
            content_type: like.content_type.to_text(),
            content_id: like.content_id.to_text(),
            liked_at: like.created_at,
        }
    }
}

/// The query of the leaderboard.
#[derive(Debug)]
pub struct TopLikesQuery {
    pub content_type: Option<String>,
    pub window: String,
    pub limit: Option<i64>,
}

impl TopLikesQuery {
    /// The number of entries asked for: ten when the query names none.
    pub fn entry_limit(&self) -> (n: i64)
        ensures
            n == (match self.limit {
                Some(l) => l,
                None => 10,
            }),
    {
        match self.limit {
            Some(l) => l,
            None => 10,
        }
    }

    /// The content type asked for: `all` when the query names none (taken as
    /// given, not lower-cased).
    pub fn content_type_or_all(&self) -> (t: ContentType)
        ensures
            t@ == (match self.content_type {
                Some(c) => c@,
                None => "all"@,
            }),
    {
        match &self.content_type {
            Some(c) => ContentType(c.clone()),
            None => ContentType(String::from_str("all")),
        }
    }
}

/// An entry of the leaderboard.
#[derive(Debug)]
pub struct TopLikeItem {
    pub content_type: String,
    pub content_id: String,
    pub count: i64,
}

impl Clone for TopLikeItem {
    fn clone(&self) -> (r: Self)
        ensures
            r == *self,
    {
        TopLikeItem { content_type: self.content_type.clone(), content_id: self.content_id.clone(), count: self.count }
    }
}

/// The leaderboard of a window.
#[derive(Debug)]
pub struct TopLikesResponse {
    pub window: String,
    pub content_type: ContentType,
    pub items: Vec<TopLikeItem>,
}

/// The query that opens a live-event stream.
#[derive(Debug)]
pub struct StreamQuery {
    pub content_type: ContentType,
    pub content_id: ContentId,
}

/// A cached answer of a validation.
#[derive(Debug, Clone, Copy, PartialEq, Eq, Structural)]
pub enum ValidationResult {
    Valid(u128),
    NotFound,
}

} // verus!
