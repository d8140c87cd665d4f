use social_api::batch::{check_batch_size, copy_counts, count_lock_keys, counts_from_mget, select_claimed, statuses_of};
use social_api::batch_flow::{BatchAction, BatchCountFlow, BatchEvent, BatchState, BATCH_WAIT_ROUNDS};
use social_api::content::{ContentType, Like};
use social_api::count_flow::{get_cache_like_count, CountAction, CountEvent, CountFlow, CountState};
use social_api::dto::{
    AddLikeCommand, AddLikeCommandResult, ContentCount, ContentItem, CountResponse, LikeRequest,
    LikeResponse, LikedItemDto, StatusResponse, TopLikeItem, TopLikesQuery, UserLikesQuery,
    ValidationResult,
};
use social_api::errors::DomainError;
use social_api::ids::{ContentId, UserId};
use social_api::leaderboard::{window_since, RefreshJob, TopAction, TopEvent, TopLikesFlow, NANOS_PER_HOUR};
use social_api::like_flow::{
    AddLikeAction, AddLikeEvent, AddLikeFlow, RemoveLikeAction, RemoveLikeEvent, RemoveLikeFlow,
};
use social_api::mock::{check_content, check_typed_content, validate_profile_token, validate_token, AppState, ProfileAnswer};
use social_api::pagination::{fetch_limit, page_of, LikeRecord, PaginationCursor};
use social_api::sse::{should_drop_channel, SseEventType, SseLikeEvent};
use social_api::validation::{
    body_error, content_api_url, content_cache_entry, content_response_outcome, content_service_name,
    profile_response_outcome, profile_service_name, profile_validate_url, user_cache_entry,
    user_from_cache, ContentValidationFlow, ResponseOutcome, ValidationAction, ValidationEvent,
};
use social_api::config::ContentApis;

const USER: u128 = 0x550e8400_e29b_41d4_a716_446655440001;
const POST: u128 = 0x731b0395_4888_4822_b516_05b4b7bf2089;
const NOW: i64 = 1_700_000_000_000_000_000;

fn cmd() -> AddLikeCommand {
    AddLikeCommand { user_id: UserId(USER), content_id: ContentId(POST), content_type: ContentType::new("post") }
}

fn item(t: &str, id: u128) -> ContentItem {
    ContentItem { content_type: ContentType::new(t), content_id: ContentId(id) }
}

#[test]
fn new_like_is_counted_by_cache_and_announced() {
    let (mut f, a) = AddLikeFlow::start(cmd(), NOW);
    assert!(matches!(a, AddLikeAction::ValidateContent));
    let ev = AddLikeEvent::ContentValidated(Ok(POST));
    assert!(f.accepts(&ev));
    match f.step(ev) {
        AddLikeAction::SaveLike(l) => {
            assert_eq!(l.user_id, UserId(USER));
            assert_eq!(l.content_id, ContentId(POST));
            assert_eq!(l.content_type.as_str(), "post");
            assert_eq!(l.created_at, NOW);
        }
        _ => panic!("save expected"),
    }
    assert!(matches!(f.step(AddLikeEvent::Saved(Ok(false))), AddLikeAction::ReadCounter));
    assert!(matches!(f.step(AddLikeEvent::CounterRead(Ok(Some(0)))), AddLikeAction::IncrementCache));
    match f.step(AddLikeEvent::Incremented(Ok(1))) {
        AddLikeAction::Finish { result: Ok(r), publish: Some(ev) } => {
            assert_eq!(r, AddLikeCommandResult { liked: true, already_existed: false, count: 1, liked_at: NOW });
            assert_eq!(ev.event, SseEventType::Like);
            assert_eq!(ev.count, Some(1));
            assert_eq!(ev.content_id, Some(ContentId(POST)));
            assert_eq!(ev.user_id, Some(UserId(USER)));
            assert_eq!(ev.timestamp, NOW);
            let resp: LikeResponse = r.into();
            assert_eq!(resp.count, 1);
            assert!(!resp.already_existed);
        }
        _ => panic!("finish expected"),
    }
}

#[test]
fn duplicate_like_reports_existing_without_event() {
    let (mut f, _) = AddLikeFlow::start(cmd(), NOW);
    f.step(AddLikeEvent::ContentValidated(Ok(POST)));
    assert!(matches!(f.step(AddLikeEvent::Saved(Ok(true))), AddLikeAction::CountWithFallback));
    assert!(matches!(f.step(AddLikeEvent::Counted(Ok(1))), AddLikeAction::GetExistingLike));
    let existing = Like { user_id: UserId(USER), content_type: ContentType::new("post"), content_id: ContentId(POST), created_at: 42 };
    match f.step(AddLikeEvent::ExistingLike(Ok(existing))) {
        AddLikeAction::Finish { result: Ok(r), publish: None } => {
            assert!(r.already_existed && r.liked);
            assert_eq!(r.count, 1);
            assert_eq!(r.liked_at, 42);
        }
        _ => panic!("silent finish expected"),
    }
}

#[test]
fn like_falls_back_to_database_count_and_fails_on_errors() {
    let (mut f, _) = AddLikeFlow::start(cmd(), NOW);
    f.step(AddLikeEvent::ContentValidated(Ok(POST)));
    f.step(AddLikeEvent::Saved(Ok(false)));
    f.step(AddLikeEvent::CounterRead(Ok(Some(9))));
    assert!(matches!(
        f.step(AddLikeEvent::Incremented(Err(DomainError::CacheError("down".into())))),
        AddLikeAction::CountInDb
    ));
    match f.step(AddLikeEvent::Counted(Ok(10))) {
        AddLikeAction::Finish { result: Ok(r), publish: Some(ev) } => {
            assert_eq!(r.count, 10);
            assert_eq!(ev.count, Some(10));
        }
        _ => panic!("finish expected"),
    }
    let (mut g, _) = AddLikeFlow::start(cmd(), NOW);
    let nf = DomainError::ContentNotFound { content_type: "post".into(), content_id: "x".into() };
    assert!(matches!(
        g.step(AddLikeEvent::ContentValidated(Err(nf))),
        AddLikeAction::Finish { result: Err(DomainError::ContentNotFound { .. }), publish: None }
    ));
    assert!(!g.accepts(&AddLikeEvent::Saved(Ok(true))));
}

#[test]
fn cold_counter_takes_the_database_count() {
    // Three likes were stored before; the counter expired from the cache.
    let (mut f, _) = AddLikeFlow::start(cmd(), NOW);
    f.step(AddLikeEvent::ContentValidated(Ok(POST)));
    f.step(AddLikeEvent::Saved(Ok(false)));
    assert!(matches!(f.step(AddLikeEvent::CounterRead(Ok(None))), AddLikeAction::CountInDb));
    assert!(matches!(f.step(AddLikeEvent::Counted(Ok(4))), AddLikeAction::RefillCache(4)));
    match f.step(AddLikeEvent::Refilled) {
        AddLikeAction::Finish { result: Ok(r), publish: Some(ev) } => {
            assert_eq!(r.count, 4);
            assert_eq!(ev.count, Some(4));
        }
        _ => panic!("finish expected"),
    }
    // A failing cache is not refilled.
    let (mut g, _) = AddLikeFlow::start(cmd(), NOW);
    g.step(AddLikeEvent::ContentValidated(Ok(POST)));
    g.step(AddLikeEvent::Saved(Ok(false)));
    assert!(matches!(g.step(AddLikeEvent::CounterRead(Err(DomainError::CacheError("down".into())))), AddLikeAction::CountInDb));
    assert!(matches!(g.step(AddLikeEvent::Counted(Ok(4))), AddLikeAction::Finish { result: Ok(_), .. }));
}

#[test]
fn unlike_decrements_and_announces() {
    let (mut f, a) = RemoveLikeFlow::start(&UserId(USER), &ContentType::new("post"), &ContentId(POST), NOW);
    assert!(matches!(a, RemoveLikeAction::ValidateContent));
    assert!(matches!(f.step(RemoveLikeEvent::ContentValidated(Ok(POST))), RemoveLikeAction::RemoveLike));
    assert!(matches!(f.step(RemoveLikeEvent::Removed(Ok(true))), RemoveLikeAction::CountWithFallback));
    assert!(matches!(f.step(RemoveLikeEvent::Counted(Ok(1))), RemoveLikeAction::DecrementCache));
    match f.step(RemoveLikeEvent::Decremented(Ok(0))) {
        RemoveLikeAction::Finish { result: Ok(r), publish: Some(ev) } => {
            assert!(!r.liked && r.was_liked);
            assert_eq!(r.count, 0);
            assert_eq!(ev.event, SseEventType::Unlike);
            assert_eq!(ev.count, Some(0));
        }
        _ => panic!("finish expected"),
    }
}

#[test]
fn unlike_without_like_is_silent() {
    let (mut f, _) = RemoveLikeFlow::start(&UserId(USER), &ContentType::new("post"), &ContentId(POST), NOW);
    f.step(RemoveLikeEvent::ContentValidated(Ok(POST)));
    f.step(RemoveLikeEvent::Removed(Ok(false)));
    match f.step(RemoveLikeEvent::Counted(Ok(5))) {
        RemoveLikeAction::Finish { result: Ok(r), publish: None } => {
            assert!(!r.was_liked && !r.liked);
            assert_eq!(r.count, 5);
        }
        _ => panic!("silent finish expected"),
    }
}

#[test]
fn unlike_at_zero_does_not_decrement() {
    let (mut f, _) = RemoveLikeFlow::start(&UserId(USER), &ContentType::new("post"), &ContentId(POST), NOW);
    f.step(RemoveLikeEvent::ContentValidated(Ok(POST)));
    f.step(RemoveLikeEvent::Removed(Ok(true)));
    match f.step(RemoveLikeEvent::Counted(Ok(0))) {
        RemoveLikeAction::Finish { result: Ok(r), publish: Some(_) } => assert_eq!(r.count, 0),
        _ => panic!("finish expected"),
    }
    let (mut g, _) = RemoveLikeFlow::start(&UserId(USER), &ContentType::new("post"), &ContentId(POST), NOW);
    g.step(RemoveLikeEvent::ContentValidated(Ok(POST)));
    g.step(RemoveLikeEvent::Removed(Ok(true)));
    g.step(RemoveLikeEvent::Counted(Ok(3)));
    assert!(matches!(g.step(RemoveLikeEvent::Decremented(Err(DomainError::CacheMiss))), RemoveLikeAction::CountInDb));
    assert!(matches!(
        g.step(RemoveLikeEvent::Counted(Err(DomainError::DatabaseError("x".into())))),
        RemoveLikeAction::Finish { result: Err(DomainError::DatabaseError(_)), publish: None }
    ));
}

#[test]
fn count_lookup_cache_then_database() {
    let t = ContentType::new("post");
    let id = ContentId(POST);
    let (mut f, a) = CountFlow::start(&t, &id);
    assert!(matches!(a, CountAction::ReadCache));
    assert_eq!(f.lock_key, "lock:count:post:731b0395-4888-4822-b516-05b4b7bf2089");
    assert!(matches!(f.step(CountEvent::CacheRead(Ok(None))), CountAction::AcquireLock));
    assert!(matches!(f.step(CountEvent::LockHeld), CountAction::ReadCache));
    assert!(matches!(f.step(CountEvent::CacheRead(Err(DomainError::CacheError("x".into())))), CountAction::ReadDb));
    assert!(matches!(f.step(CountEvent::DbCount(Ok(4))), CountAction::WriteCache(4)));
    assert!(matches!(f.step(CountEvent::CacheWritten), CountAction::Finish { result: Ok(4), release_lock: true }));
    assert_eq!(f.state, CountState::Finished);

    let (mut hit, _) = CountFlow::start(&t, &id);
    assert!(matches!(hit.step(CountEvent::CacheRead(Ok(Some(9)))), CountAction::Finish { result: Ok(9), release_lock: false }));

    let (mut second, _) = CountFlow::start(&t, &id);
    second.step(CountEvent::CacheRead(Ok(None)));
    second.step(CountEvent::LockHeld);
    assert!(matches!(second.step(CountEvent::CacheRead(Ok(Some(2)))), CountAction::Finish { result: Ok(2), release_lock: true }));

    let (mut failing, _) = CountFlow::start(&t, &id);
    failing.step(CountEvent::CacheRead(Ok(None)));
    failing.step(CountEvent::LockHeld);
    failing.step(CountEvent::CacheRead(Ok(None)));
    assert!(matches!(
        failing.step(CountEvent::DbCount(Err(DomainError::DatabaseError("x".into())))),
        CountAction::Finish { result: Err(_), release_lock: false }
    ));
    assert!(matches!(get_cache_like_count(Ok(None)), Err(DomainError::CacheMiss)));
    assert_eq!(get_cache_like_count(Ok(Some(3))).unwrap(), 3);
}

#[test]
fn count_response_texts() {
    let r = CountResponse::for_content(&ContentType::new("post"), &ContentId(POST), 1);
    assert_eq!(r.content_type, "post");
    assert_eq!(r.content_id, "731b0395-4888-4822-b516-05b4b7bf2089");
    assert_eq!(r.count, 1);
}

fn top_item(id: &str, count: i64) -> TopLikeItem {
    TopLikeItem { content_type: "post".into(), content_id: id.into(), count }
}

#[test]
fn leaderboard_windows() {
    assert_eq!(window_since("24h", NOW).unwrap(), Some(NOW - 24 * NANOS_PER_HOUR));
    assert_eq!(window_since("7d", NOW).unwrap(), Some(NOW - 7 * 24 * NANOS_PER_HOUR));
    assert_eq!(window_since("30d", NOW).unwrap(), Some(NOW - 30 * 24 * NANOS_PER_HOUR));
    assert_eq!(window_since("all", NOW).unwrap(), None);
    match window_since("invalid_window", NOW) {
        Err(DomainError::ValidationError(m)) => assert_eq!(m, "Invalid window"),
        _ => panic!("refusal expected"),
    }
}

#[test]
fn leaderboard_invalid_window_is_internal_error() {
    let (_, a) = TopLikesFlow::start(ContentType::new("all"), "invalid_window".into(), 10, NOW);
    match a {
        TopAction::Finish { result: Err(e), store_canary_ttl: None, refresh: None } => {
            assert_eq!(social_api::errors::ApiError(e, "r".into()).status(), 500);
        }
        _ => panic!("refusal expected"),
    }
}

#[test]
fn leaderboard_cold_start_queries_capped_and_stores() {
    let (mut f, a) = TopLikesFlow::start(ContentType::new("post"), "24h".into(), 9999, NOW);
    assert!(matches!(a, TopAction::ReadCache));
    assert_eq!(f.limit, 50);
    match f.step(TopEvent::CacheRead(Ok((None, false)))) {
        TopAction::QueryDb { since, limit } => {
            assert_eq!(since, Some(NOW - 24 * NANOS_PER_HOUR));
            assert_eq!(limit, 50);
        }
        _ => panic!("query expected"),
    }
    match f.step(TopEvent::DbTop(Ok(vec![top_item("a", 10)]))) {
        TopAction::Finish { result: Ok(r), store_canary_ttl: Some(30), refresh: None } => {
            assert_eq!(r.window, "24h");
            assert_eq!(r.items.len(), 1);
            assert_eq!(r.items[0].count, 10);
        }
        _ => panic!("finish expected"),
    }
}

#[test]
fn leaderboard_fresh_cache_served() {
    let (mut f, _) = TopLikesFlow::start(ContentType::new("post"), "7d".into(), 10, NOW);
    match f.step(TopEvent::CacheRead(Ok((Some(vec![top_item("a", 15)]), true)))) {
        TopAction::Finish { result: Ok(r), store_canary_ttl: None, refresh: None } => assert_eq!(r.items[0].count, 15),
        _ => panic!("finish expected"),
    }
    // a failing cache behaves as an empty one
    let (mut g, _) = TopLikesFlow::start(ContentType::new("post"), "all".into(), 5, NOW);
    assert!(matches!(
        g.step(TopEvent::CacheRead(Err(DomainError::CacheError("x".into())))),
        TopAction::QueryDb { since: None, limit: 5 }
    ));
}

#[test]
fn leaderboard_stale_cache_served_and_refreshed_by_lock_holder() {
    let (mut f, _) = TopLikesFlow::start(ContentType::new("post"), "24h".into(), 10, NOW);
    assert!(matches!(f.step(TopEvent::CacheRead(Ok((Some(vec![top_item("a", 10)]), false)))), TopAction::TryRefreshLock));
    match f.step(TopEvent::LockTried(Ok(true))) {
        TopAction::Finish { result: Ok(r), store_canary_ttl: None, refresh: Some(job) } => {
            assert_eq!(r.items[0].count, 10);
            assert_eq!(job, RefreshJob { since: Some(NOW - 24 * NANOS_PER_HOUR), limit: 10, canary_ttl: 30 });
        }
        _ => panic!("finish expected"),
    }
    let (mut g, _) = TopLikesFlow::start(ContentType::new("post"), "30d".into(), 10, NOW);
    g.step(TopEvent::CacheRead(Ok((Some(vec![top_item("b", 1)]), false))));
    match g.step(TopEvent::LockTried(Ok(false))) {
        TopAction::Finish { result: Ok(r), refresh: None, .. } => assert_eq!(r.items[0].content_id, "b"),
        _ => panic!("finish expected"),
    }
    let (mut h, _) = TopLikesFlow::start(ContentType::new("post"), "7d".into(), 10, NOW);
    h.step(TopEvent::CacheRead(Ok((Some(vec![]), false))));
    match h.step(TopEvent::LockTried(Ok(true))) {
        TopAction::Finish { refresh: Some(job), .. } => assert_eq!(job.canary_ttl, 300),
        _ => panic!("refresh expected"),
    }
}

#[test]
fn top_query_defaults() {
    let q = TopLikesQuery { content_type: None, window: "24h".into(), limit: None };
    assert_eq!(q.entry_limit(), 10);
    assert_eq!(q.content_type_or_all().as_str(), "all");
    let q = TopLikesQuery { content_type: Some("Post".into()), window: "24h".into(), limit: Some(3) };
    assert_eq!(q.entry_limit(), 3);
    assert_eq!(q.content_type_or_all().as_str(), "Post");
    let u = UserLikesQuery { content_type: None, cursor: None, limit: None };
    assert_eq!(u.page_limit(), 20);
}

#[test]
fn batch_size_limit() {
    assert!(check_batch_size(100).is_ok());
    assert!(matches!(check_batch_size(101), Err(DomainError::BatchTooLarge(101))));
}

#[test]
fn batch_helpers() {
    let items = vec![item("post", 1), item("post", 2), item("post", 3)];
    let cached = counts_from_mget(&items, &vec![Some(5), None, Some(7)]);
    assert_eq!(cached, vec![(ContentId(1), 5), (ContentId(3), 7)]);
    let keys = count_lock_keys(&items);
    assert_eq!(keys[1], "lock:count:post:00000000-0000-0000-0000-000000000002");
    let (picked, held) = select_claimed(&items, &keys, &vec![false, true, false]);
    assert_eq!(picked.len(), 1);
    assert_eq!(picked[0].content_id, ContentId(2));
    assert_eq!(held, vec![keys[1].clone()]);
    let db = vec![ContentCount { content_type: ContentType::new("post"), content_id: ContentId(2), count: 0 }];
    assert_eq!(copy_counts(&db).len(), 1);
}

fn counts_of(action: BatchAction) -> Vec<(u128, u64)> {
    match action {
        BatchAction::Finish { result: Ok(r), release } => {
            assert!(release.is_empty());
            r.iter().map(|c| (c.content_id.0, c.count)).collect()
        }
        other => panic!("unexpected action {:?}", other),
    }
}

fn db_row(id: u128, count: u64) -> ContentCount {
    ContentCount { content_type: ContentType::new("post"), content_id: ContentId(id), count }
}

#[test]
fn batch_counts_answer_every_item() {
    // Item 1 is cached, item 2 is counted here, item 3's lock is held by another request.
    let items = vec![item("post", 1), item("post", 2), item("post", 3)];
    let (mut f, a) = BatchCountFlow::start(items);
    assert!(matches!(&a, BatchAction::ReadCache(q) if q.len() == 3));
    let a = f.step(BatchEvent::CacheRead(Ok(vec![(ContentId(1), 5)])));
    match &a {
        BatchAction::Claim(want) => assert_eq!(want, &vec![false, true, true]),
        other => panic!("unexpected action {:?}", other),
    }
    let a = f.step(BatchEvent::Claimed(vec![false, true, false]));
    match &a {
        BatchAction::QueryDb(q) => assert_eq!(q.iter().map(|i| i.content_id.0).collect::<Vec<_>>(), vec![2]),
        other => panic!("unexpected action {:?}", other),
    }
    let a = f.step(BatchEvent::DbCounts(Ok(vec![db_row(2, 4)])));
    match &a {
        BatchAction::StoreAndRelease { counts, keys } => {
            assert_eq!(counts.len(), 1);
            assert_eq!(keys, &vec!["lock:count:post:00000000-0000-0000-0000-000000000002".to_string()]);
        }
        other => panic!("unexpected action {:?}", other),
    }
    let a = f.step(BatchEvent::Stored);
    match &a {
        BatchAction::CheckLocks { keys, after_millis: 0 } => {
            assert_eq!(keys, &vec!["lock:count:post:00000000-0000-0000-0000-000000000003".to_string()])
        }
        other => panic!("unexpected action {:?}", other),
    }
    // The other request still holds the lock: look again after a pause.
    let a = f.step(BatchEvent::LocksChecked(false));
    assert!(matches!(&a, BatchAction::CheckLocks { keys, after_millis: 50 } if keys.len() == 1));
    assert_eq!(f.state, BatchState::Waiting { rounds_left: BATCH_WAIT_ROUNDS - 1 });
    let a = f.step(BatchEvent::LocksChecked(true));
    assert!(matches!(&a, BatchAction::ReadCache(q) if q.len() == 1 && q[0].content_id == ContentId(3)));
    let a = f.step(BatchEvent::CacheRead(Ok(vec![(ContentId(3), 9)])));
    assert_eq!(counts_of(a), vec![(1, 5), (2, 4), (3, 9)]);
    assert_eq!(f.state, BatchState::Finished);
}

#[test]
fn batch_counts_take_the_last_cached_value_of_an_identifier() {
    // Two items share an identifier under two types: the cache's answers are
    // taken by identifier, the later one winning.
    let items = vec![item("post", 1), item("video", 1)];
    let cached = counts_from_mget(&items, &vec![Some(5), Some(7)]);
    let (mut f, _) = BatchCountFlow::start(items);
    let a = f.step(BatchEvent::CacheRead(Ok(cached)));
    assert_eq!(counts_of(a), vec![(1, 7), (1, 7)]);
}

#[test]
fn batch_counts_fall_back_to_database_after_waiting() {
    let items = vec![item("post", 1), item("post", 2)];
    let (mut f, _) = BatchCountFlow::start(items);
    let _ = f.step(BatchEvent::CacheRead(Err(DomainError::CacheError("down".into()))));
    let a = f.step(BatchEvent::Claimed(vec![false, false]));
    assert!(matches!(&a, BatchAction::CheckLocks { keys, .. } if keys.len() == 2));
    // The locks stay held: after the last look the batch counts by itself.
    for _ in 0..BATCH_WAIT_ROUNDS {
        assert!(matches!(f.step(BatchEvent::LocksChecked(false)), BatchAction::CheckLocks { .. }));
    }
    let a = f.step(BatchEvent::LocksChecked(false));
    assert!(matches!(&a, BatchAction::ReadCache(q) if q.len() == 2));
    let a = f.step(BatchEvent::CacheRead(Ok(vec![(ContentId(2), 1)])));
    assert!(matches!(&a, BatchAction::QueryDb(q) if q.len() == 1 && q[0].content_id == ContentId(1)));
    // The database lists no row for item 1: it has no likes.
    let a = f.step(BatchEvent::DbCounts(Ok(vec![])));
    assert_eq!(counts_of(a), vec![(1, 0), (2, 1)]);
}

#[test]
fn batch_counts_release_locks_on_database_error() {
    let items = vec![item("post", 1)];
    let (mut f, _) = BatchCountFlow::start(items);
    let _ = f.step(BatchEvent::CacheRead(Ok(vec![])));
    let _ = f.step(BatchEvent::Claimed(vec![true]));
    match f.step(BatchEvent::DbCounts(Err(DomainError::DatabaseError("down".into())))) {
        BatchAction::Finish { result: Err(DomainError::DatabaseError(_)), release } => {
            assert_eq!(release, vec!["lock:count:post:00000000-0000-0000-0000-000000000001".to_string()])
        }
        other => panic!("unexpected action {:?}", other),
    }
}

#[test]
fn batch_counts_cached_and_refused() {
    let (mut f, _) = BatchCountFlow::start(vec![item("post", 1), item("post", 2)]);
    let a = f.step(BatchEvent::CacheRead(Ok(vec![(ContentId(2), 3), (ContentId(1), 8)])));
    assert_eq!(counts_of(a), vec![(1, 8), (2, 3)]);
    let many: Vec<ContentItem> = (0..101).map(|i| item("post", i)).collect();
    let (_, a) = BatchCountFlow::start(many);
    assert!(matches!(a, BatchAction::Finish { result: Err(DomainError::BatchTooLarge(101)), .. }));
}

#[test]
fn batch_statuses_follow_found_likes() {
    let items = vec![item("post", 1), item("post", 2), item("video", 1)];
    let likes = vec![
        Like { user_id: UserId(USER), content_type: ContentType::new("post"), content_id: ContentId(1), created_at: 11 },
        Like { user_id: UserId(USER), content_type: ContentType::new("post"), content_id: ContentId(1), created_at: 12 },
    ];
    let r = statuses_of(&UserId(USER), items.clone(), &likes);
    assert_eq!(r.results.len(), 3);
    assert!(r.results[0].liked);
    assert_eq!(r.results[0].liked_at, Some(12));
    assert!(!r.results[1].liked);
    assert_eq!(r.results[1].liked_at, None);
    assert!(!r.results[2].liked);
    // Another user's statuses do not depend on these likes.
    let other = statuses_of(&UserId(USER + 1), items, &likes);
    assert!(other.results.iter().all(|s| !s.liked && s.liked_at.is_none()));
}

#[test]
fn status_from_lookup() {
    let l = Like { user_id: UserId(1), content_type: ContentType::new("post"), content_id: ContentId(2), created_at: 99 };
    assert_eq!(StatusResponse::from_lookup::<()>(Ok(l)), StatusResponse { liked: true, liked_at: Some(99) });
    assert_eq!(StatusResponse::from_lookup::<DomainError>(Err(DomainError::DatabaseError("x".into()))), StatusResponse { liked: false, liked_at: None });
}

#[test]
fn cursor_text_round_trip_and_refusal() {
    let bytes = br#"{"t":"2024-01-01T00:00:00Z","id":"550e8400-e29b-41d4-a716-446655440001"}"#.to_vec();
    let text = PaginationCursor::encode_bytes(&bytes);
    assert_eq!(PaginationCursor::decode_opt(Some(text)).unwrap(), Some(bytes));
    assert_eq!(PaginationCursor::encode_bytes(&b"hi".to_vec()), "aGk=");
    assert_eq!(PaginationCursor::encode_bytes(&b"Man".to_vec()), "TWFu");
    assert_eq!(PaginationCursor::encode_bytes(&b"M".to_vec()), "TQ==");
    assert_eq!(PaginationCursor::encode_bytes(&vec![0xfb, 0xff]), "+/8=");
    assert_eq!(PaginationCursor::decode_opt(None).unwrap(), None);
    match PaginationCursor::decode_opt(Some("not-base64-content".into())) {
        Err(DomainError::InvalidCursor(m)) => assert_eq!(m, "Bad Base64"),
        _ => panic!("refusal expected"),
    }
    let api = social_api::errors::ApiError(DomainError::InvalidCursor("Bad Base64".into()), "r".into());
    assert_eq!(api.status(), 400);
}

fn record(id: u128, t: i64) -> LikeRecord {
    LikeRecord { id, like: Like { user_id: UserId(USER), content_type: ContentType::new("post"), content_id: ContentId(id), created_at: t } }
}

#[test]
fn pages_of_user_likes() {
    assert_eq!(fetch_limit(10), 11);
    let rows: Vec<LikeRecord> = (0..11).map(|i| record(i as u128, 100 - i)).collect();
    let (page, cursor) = page_of(rows, 10);
    assert_eq!(page.len(), 10);
    assert_eq!(cursor, Some(PaginationCursor { t: 91, id: 9 }));
    let rows: Vec<LikeRecord> = (0..5).map(|i| record(i as u128, 50 - i)).collect();
    let (page, cursor) = page_of(rows, 10);
    assert_eq!(page.len(), 5);
    assert_eq!(cursor, None);
    let dto = LikedItemDto::from_like(record(POST, 7).like);
    assert_eq!(dto.content_type, "post");
    assert_eq!(dto.content_id, "731b0395-4888-4822-b516-05b4b7bf2089");
    assert_eq!(dto.liked_at, 7);
}

#[test]
fn commands_from_requests() {
    let req = LikeRequest { content_type: ContentType::new("post"), content_id: ContentId(POST) };
    let c: AddLikeCommand = (UserId(USER), req).into();
    assert_eq!(c.user_id, UserId(USER));
    assert_eq!(c.content_id, ContentId(POST));
    assert_eq!(c.content_type.as_str(), "post");
}

#[test]
fn live_events() {
    let hb = SseLikeEvent::heartbeat(5);
    assert_eq!(hb.event, SseEventType::Heartbeat);
    assert!(hb.content_type.is_none() && hb.count.is_none());
    assert!(hb.route_key().is_none());
    let l = Like { user_id: UserId(USER), content_type: ContentType::new("post"), content_id: ContentId(POST), created_at: 8 };
    let ev = SseLikeEvent::from_like(l, 3, SseEventType::Like);
    assert_eq!(ev.count, Some(3));
    assert_eq!(ev.timestamp, 8);
    assert_eq!(ev.route_key().unwrap(), "post:731b0395-4888-4822-b516-05b4b7bf2089");
    let copy = ev.clone();
    assert_eq!(copy.user_id, Some(UserId(USER)));
    assert!(should_drop_channel(true, 0));
    assert!(!should_drop_channel(true, 1));
    assert!(!should_drop_channel(false, 0));
}

#[test]
fn outside_validation_answers() {
    assert_eq!(profile_service_name(), "Profile API");
    assert_eq!(profile_validate_url("http://p"), "http://p/v1/auth/validate");
    assert!(matches!(profile_response_outcome(200), ResponseOutcome::ReadBody));
    match profile_response_outcome(404) {
        ResponseOutcome::Fail(DomainError::DependencyNotFound { service }) => assert_eq!(service, "Profile API"),
        _ => panic!(),
    }
    assert!(matches!(profile_response_outcome(500), ResponseOutcome::Fail(DomainError::DependencyUnavailable { .. })));
    let t = ContentType::new("post");
    let service = content_service_name(&t);
    assert_eq!(service, "POST API");
    match content_response_outcome(404, &t, &ContentId(POST), &service) {
        ResponseOutcome::Fail(DomainError::ContentNotFound { content_type, content_id }) => {
            assert_eq!(content_type, "post");
            assert_eq!(content_id, "731b0395-4888-4822-b516-05b4b7bf2089");
        }
        _ => panic!(),
    }
    match content_response_outcome(502, &t, &ContentId(POST), &service) {
        ResponseOutcome::Fail(DomainError::DependencyUnavailable { service }) => assert_eq!(service, "POST API"),
        _ => panic!(),
    }
    assert!(matches!(content_response_outcome(204, &t, &ContentId(POST), &service), ResponseOutcome::ReadBody));
    assert!(matches!(body_error(&service), DomainError::DependencyDeserializeError { .. }));
    let mut apis = ContentApis::new();
    apis.insert("post".into(), "http://c".into());
    assert_eq!(
        content_api_url(&apis, &t, &ContentId(POST)).unwrap(),
        "http://c/v1/post/731b0395-4888-4822-b516-05b4b7bf2089"
    );
    assert!(matches!(content_api_url(&apis, &ContentType::new("video"), &ContentId(1)), Err(DomainError::UnknownContentType { .. })));
}

#[test]
fn validation_caching_rules() {
    assert!(matches!(user_from_cache(Some(ValidationResult::Valid(3))), Some(Ok(3))));
    match user_from_cache(Some(ValidationResult::NotFound)) {
        Some(Err(DomainError::DependencyNotFound { service })) => assert_eq!(service, "Profile API"),
        other => panic!("unexpected {:?}", other),
    }
    assert!(user_from_cache(None).is_none());
    assert_eq!(user_cache_entry(&Ok(3)), Some((ValidationResult::Valid(3), 300)));
    let missing = DomainError::DependencyNotFound { service: "Profile API".into() };
    assert_eq!(user_cache_entry(&Err(missing)), Some((ValidationResult::NotFound, 300)));
    assert_eq!(user_cache_entry(&Err(DomainError::Unauthorized)), None);
    assert_eq!(content_cache_entry(&Ok(3)), Some((ValidationResult::Valid(3), 3600)));
    assert_eq!(
        content_cache_entry(&Err(DomainError::ContentNotFound { content_type: "p".into(), content_id: "i".into() })),
        Some((ValidationResult::NotFound, 300))
    );
    assert_eq!(content_cache_entry(&Err(DomainError::DependencyUnavailable { service: "s".into() })), None);
}

#[test]
fn content_validation_flow() {
    let t = ContentType::new("post");
    let (mut f, a) = ContentValidationFlow::start(&t, &ContentId(POST));
    assert!(matches!(a, ValidationAction::ReadCache));
    assert_eq!(f.key, "val:content:post:731b0395-4888-4822-b516-05b4b7bf2089");
    assert!(matches!(f.step(ValidationEvent::CacheRead(None)), ValidationAction::Claim));
    assert!(matches!(f.step(ValidationEvent::Claimed(false)), ValidationAction::Wait));
    assert!(matches!(f.step(ValidationEvent::Waited), ValidationAction::ReadCache));
    f.step(ValidationEvent::CacheRead(None));
    assert!(matches!(f.step(ValidationEvent::Claimed(true)), ValidationAction::CallService));
    assert!(matches!(f.step(ValidationEvent::Called(Ok(POST))), ValidationAction::Store(ValidationResult::Valid(POST), 3600)));
    assert!(matches!(f.step(ValidationEvent::Stored), ValidationAction::Finish { result: Ok(POST), release: true }));

    let (mut cached, _) = ContentValidationFlow::start(&t, &ContentId(POST));
    match cached.step(ValidationEvent::CacheRead(Some(ValidationResult::NotFound))) {
        ValidationAction::Finish { result: Err(DomainError::ContentNotFound { content_id, .. }), release: false } => {
            assert_eq!(content_id, "731b0395-4888-4822-b516-05b4b7bf2089")
        }
        _ => panic!(),
    }
    let (mut down, _) = ContentValidationFlow::start(&t, &ContentId(POST));
    down.step(ValidationEvent::CacheRead(None));
    down.step(ValidationEvent::Claimed(true));
    assert!(matches!(
        down.step(ValidationEvent::Called(Err(DomainError::DependencyUnavailable { service: "POST API".into() }))),
        ValidationAction::Finish { result: Err(_), release: true }
    ));
}

#[test]
fn stand_in_services() {
    let st = AppState::new();
    let (code, r) = check_content(POST, &st);
    assert_eq!((code, r.exists), (200, true));
    let (code, r) = check_content(5, &st);
    assert_eq!((code, r.exists, r.id), (404, false, 5));
    let (code, r) = validate_token(Some("Bearer 550e8400-e29b-41d4-a716-446655440002"), &st);
    assert_eq!(code, 200);
    assert!(r.valid);
    assert_eq!(r.user_id.as_deref(), Some("tok_user_2"));
    let (code, r) = validate_token(Some("Bearer tok_bad"), &st);
    assert_eq!((code, r.valid), (401, false));
    let (code, _) = validate_token(None, &st);
    assert_eq!(code, 401);
    match validate_profile_token(Some("Bearer 550e8400-e29b-41d4-a716-446655440003"), &st) {
        (200, ProfileAnswer::Valid { user_id, display_name }) => {
            assert_eq!(user_id, "550e8400-e29b-41d4-a716-446655440003");
            assert_eq!(display_name, "tok_user_3");
        }
        _ => panic!(),
    }
    match validate_profile_token(Some("Token x"), &st) {
        (401, ProfileAnswer::Invalid { error }) => assert_eq!(error, "invalid_token"),
        _ => panic!(),
    }
    assert_eq!(check_typed_content("post", POST, &st), (200, Some((POST, "post".to_string()))));
    assert_eq!(check_typed_content("post", 1, &st), (404, None));
}
