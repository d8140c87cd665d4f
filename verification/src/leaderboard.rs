use vstd::prelude::*;
use vstd::string::StringExecFns;
use crate::content::{str_equal, ContentType};
use crate::dto::{TopLikeItem, TopLikesResponse};
use crate::errors::DomainError;

verus! {

/// Nanoseconds in an hour.
pub const NANOS_PER_HOUR: i64 = 3_600_000_000_000;

/// The most leaderboard entries ever asked of the database.
pub const MAX_TOP_LIMIT: i64 = 50;

/// The start of a leaderboard window ending at `now` (nanoseconds): 24 hours,
/// 7 days or 30 days back, no start for `all` (`None` for any other window).
pub open spec fn window_start(window: Seq<char>, now: i64) -> Option<Option<i64>> {
    if window == "24h"@ {
        Some(Some((now - 24 * NANOS_PER_HOUR) as i64))
    } else if window == "7d"@ {
        Some(Some((now - 7 * 24 * NANOS_PER_HOUR) as i64))
    } else if window == "30d"@ {
        Some(Some((now - 30 * 24 * NANOS_PER_HOUR) as i64))
    } else if window == "all"@ {
        Some(None)
    } else {
        None
    }
}

/// Whether a window is one of the known ones.
pub open spec fn known_window(window: Seq<char>) -> bool {
    window == "24h"@ || window == "7d"@ || window == "30d"@ || window == "all"@
}

/// The start of a leaderboard window ending at `now` (nanoseconds).
pub fn window_since(window: &str, now: i64) -> (r: Result<Option<i64>, DomainError>)
    requires
        now >= i64::MIN + 30 * 24 * NANOS_PER_HOUR,
    ensures
        known_window(window@) ==> r == Ok::<Option<i64>, DomainError>(window_start(window@, now)->Some_0),
        !known_window(window@) ==> (r matches Err(DomainError::ValidationError(m)) && m@ == "Invalid window"@),
{
    if str_equal(window, "24h") {
        Ok(Some(now - 24 * NANOS_PER_HOUR))
    } else if str_equal(window, "7d") {
        Ok(Some(now - 7 * 24 * NANOS_PER_HOUR))
    } else if str_equal(window, "30d") {
        Ok(Some(now - 30 * 24 * NANOS_PER_HOUR))
    } else if str_equal(window, "all") {
        Ok(None)
    } else {
        Err(DomainError::ValidationError(String::from_str("Invalid window")))
    }
}

/// The number of entries asked of the database: never more than fifty.
pub open spec fn clamped_limit(limit: i64) -> i64 {
    if limit < MAX_TOP_LIMIT { limit } else { MAX_TOP_LIMIT }
}

/// How long the freshness marker of a refreshed leaderboard lives: thirty
/// seconds for the 24-hour window, five minutes for the others.
pub open spec fn refresh_canary_ttl(window: Seq<char>) -> u64 {
    if window == "24h"@ { 30 } else { 300 }
}

/// A background refresh of a stale leaderboard: query the database with
/// these bounds and store the result with a marker of this lifetime.
#[derive(Debug, Clone, Copy, PartialEq, Eq, Structural)]
pub struct RefreshJob {
    pub since: Option<i64>,
    pub limit: i64,
    pub canary_ttl: u64,
}

/// Where a leaderboard lookup stands.
#[derive(Debug, Clone, Copy, PartialEq, Eq, Structural)]
pub enum TopState {
    /// The cached leaderboard and its freshness marker are read.
    ReadingCache,
    /// The cached leaderboard is stale: the refresh lock is tried.
    Locking,
    /// Nothing is cached: the database is queried.
    QueryingDb,
    /// The lookup is over.
    Finished,
}

/// What the outside world answered to the last action of a leaderboard lookup.
#[derive(Debug)]
pub enum TopEvent {
    /// The cached entries, if any, and whether the freshness marker is there.
    CacheRead(Result<(Option<Vec<TopLikeItem>>, bool), DomainError>),
    LockTried(Result<bool, DomainError>),
    DbTop(Result<Vec<TopLikeItem>, DomainError>),
}

/// What a leaderboard lookup asks the outside world to do next.
#[derive(Debug)]
pub enum TopAction {
    /// Read the cached leaderboard and its freshness marker.
    ReadCache,
    /// Try to take the refresh lock of the leaderboard.
    TryRefreshLock,
    /// Query the database's leaderboard.
    QueryDb { since: Option<i64>, limit: i64 },
    /// The lookup's answer. With `store_canary_ttl`, the answer's entries are
    /// first stored in the cache (outcome ignored) with a freshness marker of
    /// that lifetime; with `refresh`, a background refresh is started.
    Finish {
        result: Result<TopLikesResponse, DomainError>,
        store_canary_ttl: Option<u64>,
        refresh: Option<RefreshJob>,
    },
}

/// A leaderboard lookup of a content type over a window.
#[derive(Debug)]
pub struct TopLikesFlow {
    pub content_type: ContentType,
    pub window: String,
    pub limit: i64,
    pub since: Option<i64>,
    pub cached: Vec<TopLikeItem>,
    pub state: TopState,
}

/// Whether a leaderboard answer has these entries, window and content type.
pub open spec fn answers(r: TopLikesResponse, f: TopLikesFlow, items: Seq<TopLikeItem>) -> bool {
    r.window == f.window && r.content_type == f.content_type && r.items@ == items
}

/// Whether a lookup in a state takes an event.
pub open spec fn top_expects(s: TopState, ev: TopEvent) -> bool {
    match s {
        TopState::ReadingCache => ev is CacheRead,
        TopState::Locking => ev is LockTried,
        TopState::QueryingDb => ev is DbTop,
        TopState::Finished => false,
    }
}

/// What a cache read means: a failing cache holds nothing.
pub open spec fn cache_view(r: Result<(Option<Vec<TopLikeItem>>, bool), DomainError>) -> (Option<Vec<TopLikeItem>>, bool) {
    match r {
        Ok(p) => p,
        Err(_) => (None, false),
    }
}

/// The next step of a leaderboard lookup, as a relation between the lookup,
/// the event, the next state and the action. Cached entries are answered at
/// once, fresh or stale; a stale leaderboard is refreshed in the background by
/// whoever takes the refresh lock. Without cached entries the database is
/// queried, its entries stored with a thirty-second marker and answered.
pub open spec fn top_step(f: TopLikesFlow, ev: TopEvent, s: TopState, a: TopAction) -> bool {
    match f.state {
        TopState::ReadingCache => {
            let (data, fresh) = cache_view(ev->CacheRead_0);
            match data {
                Some(items) => if fresh {
                    &&& s == TopState::Finished
                    &&& a matches TopAction::Finish { result: Ok(r), store_canary_ttl: None, refresh: None }
                    &&& answers(r, f, items@)
                } else {
                    s == TopState::Locking && a is TryRefreshLock
                },
                None => s == TopState::QueryingDb && a == (TopAction::QueryDb { since: f.since, limit: f.limit }),
            }
        },
        TopState::Locking => {
            &&& s == TopState::Finished
            &&& a matches TopAction::Finish { result: Ok(r), store_canary_ttl: None, refresh }
            &&& answers(r, f, f.cached@)
            &&& refresh == (if ev->LockTried_0 == Ok::<bool, DomainError>(true) {
                Some(RefreshJob { since: f.since, limit: f.limit, canary_ttl: refresh_canary_ttl(f.window@) })
            } else {
                None
            })
        },
        TopState::QueryingDb => {
            &&& s == TopState::Finished
            &&& match ev->DbTop_0 {
                Ok(items) => a matches TopAction::Finish { result: Ok(r), store_canary_ttl: Some(30), refresh: None }
                    && answers(r, f, items@),
                Err(e) => a == (TopAction::Finish { result: Err(e), store_canary_ttl: None, refresh: None }),
            }
        },
        TopState::Finished => false,
    }
}

impl TopLikesFlow {
    /// Starts a lookup at time `now` (nanoseconds): the limit is capped at
    /// fifty; an unknown window ends the lookup at once with a validation
    /// error, else the cache is read first.
    pub fn start(content_type: ContentType, window: String, limit: i64, now: i64) -> (r: (TopLikesFlow, TopAction))
        requires
            now >= i64::MIN + 30 * 24 * NANOS_PER_HOUR,
        ensures
            r.0.content_type == content_type,
            r.0.window == window,
            r.0.limit == clamped_limit(limit),
            known_window(window@) ==> {
                &&& r.0.since == window_start(window@, now)->Some_0
                &&& r.0.state == TopState::ReadingCache
                &&& r.1 is ReadCache
            },
            !known_window(window@) ==> {
                &&& r.0.state == TopState::Finished
                &&& r.1 matches TopAction::Finish { result: Err(DomainError::ValidationError(m)), store_canary_ttl: None, refresh: None }
                &&& m@ == "Invalid window"@
            },
    {
        let limit = if limit < MAX_TOP_LIMIT { limit } else { MAX_TOP_LIMIT };
        match window_since(window.as_str(), now) {
            Ok(since) => (
                TopLikesFlow { content_type, window, limit, since, cached: Vec::new(), state: TopState::ReadingCache },
                TopAction::ReadCache,
            ),
            Err(e) => (
                TopLikesFlow { content_type, window, limit, since: None, cached: Vec::new(), state: TopState::Finished },
                TopAction::Finish { result: Err(e), store_canary_ttl: None, refresh: None },
            ),
        }
    }

    /// Whether the lookup takes an event now.
    pub fn accepts(&self, ev: &TopEvent) -> (b: bool)
        ensures
            b == top_expects(self.state, *ev),
    {
        match (self.state, ev) {
            (TopState::ReadingCache, TopEvent::CacheRead(_)) => true,
            (TopState::Locking, TopEvent::LockTried(_)) => true,
            (TopState::QueryingDb, TopEvent::DbTop(_)) => true,
            _ => false,
        }
    }

    fn answer(&self, items: Vec<TopLikeItem>) -> (r: TopLikesResponse)
        ensures
            answers(r, *self, items@),
    {
        TopLikesResponse { window: self.window.clone(), content_type: self.content_type.clone(), items }
    }

    /// Takes the outside world's answer and gives the next action.
    pub fn step(&mut self, ev: TopEvent) -> (a: TopAction)
        requires
            top_expects(old(self).state, ev),
        ensures
            top_step(*old(self), ev, final(self).state, a),
            final(self).content_type == old(self).content_type,
            final(self).window == old(self).window,
            final(self).limit == old(self).limit,
            final(self).since == old(self).since,
            (old(self).state == TopState::ReadingCache && final(self).state == TopState::Locking)
                ==> final(self).cached@ == cache_view(ev->CacheRead_0).0->Some_0@,
    {
        match (self.state, ev) {
            (TopState::ReadingCache, TopEvent::CacheRead(r)) => {
                let (data, fresh) = match r {
                    Ok(p) => p,
                    Err(_) => (None, false),
                };
                match data {
                    Some(items) => {
                        if fresh {
                            self.state = TopState::Finished;
                            let resp = self.answer(items);
                            TopAction::Finish { result: Ok(resp), store_canary_ttl: None, refresh: None }
                        } else {
                            self.state = TopState::Locking;
                            self.cached = items;
                            TopAction::TryRefreshLock
                        }
                    },
                    None => {
                        self.state = TopState::QueryingDb;
                        TopAction::QueryDb { since: self.since, limit: self.limit }
                    },
                }
            },
            (TopState::Locking, TopEvent::LockTried(r)) => {
                let ghost old_self = *self;
                let acquired = match r {
                    Ok(b) => b,
                    Err(_) => false,
                };
                let mut items: Vec<TopLikeItem> = Vec::new();
                std::mem::swap(&mut items, &mut self.cached);
                self.state = TopState::Finished;
                let resp = TopLikesResponse {
                    window: self.window.clone(),
                    content_type: self.content_type.clone(),
                    items,
                };
                let refresh = if acquired {
                    let ttl: u64 = if str_equal(self.window.as_str(), "24h") { 30 } else { 300 };
                    Some(RefreshJob { since: self.since, limit: self.limit, canary_ttl: ttl })
                } else {
                    None
                };
                TopAction::Finish { result: Ok(resp), store_canary_ttl: None, refresh }
            },
            (TopState::QueryingDb, TopEvent::DbTop(r)) => {
                self.state = TopState::Finished;
                match r {
                    Ok(items) => {
                        let resp = self.answer(items);
                        TopAction::Finish { result: Ok(resp), store_canary_ttl: Some(30), refresh: None }
                    },
                    Err(e) => TopAction::Finish { result: Err(e), store_canary_ttl: None, refresh: None },
                }
            },
            _ => TopAction::ReadCache,
        }
    }
}

/// The database is never asked for more than fifty leaderboard entries, and
/// is asked for the limit given when that is smaller.
pub proof fn law_limit_capped(limit: i64)
    ensures
        clamped_limit(limit) <= MAX_TOP_LIMIT,
        limit <= MAX_TOP_LIMIT ==> clamped_limit(limit) == limit,
{
}

/// Cached entries are answered at once, whether the freshness marker is there
/// or not; a background refresh is started only by the lookup that took the
/// refresh lock.
pub proof fn law_stale_served_refresh_by_lock_holder(f: TopLikesFlow, ev: TopEvent, s: TopState, a: TopAction)
    requires
        top_expects(f.state, ev),
        top_step(f, ev, s, a),
    ensures
        a matches TopAction::Finish { refresh: Some(job), .. } ==> f.state == TopState::Locking
            && ev == TopEvent::LockTried(Ok(true)) && job.limit == f.limit,
        (f.state == TopState::ReadingCache && cache_view(ev->CacheRead_0).0 is Some) ==> (
            a is TryRefreshLock || a matches TopAction::Finish { result: Ok(_), .. }),
        f.state == TopState::Locking ==> (a matches TopAction::Finish { result: Ok(r), .. } && r.items@ == f.cached@),
{
}

/// The length (nanoseconds) of each bounded window: one day, seven days,
/// thirty days; the window ends at the lookup's time.
pub proof fn law_window_lengths(now: i64)
    requires
        now >= i64::MIN + 30 * 24 * NANOS_PER_HOUR,
    ensures
        window_start("24h"@, now) == Some(Some((now - 86_400_000_000_000) as i64)),
        window_start("7d"@, now) == Some(Some((now - 604_800_000_000_000) as i64)),
        window_start("30d"@, now) == Some(Some((now - 2_592_000_000_000_000) as i64)),
        window_start("all"@, now) == Some(None::<i64>),
{
    reveal_strlit("24h");
    reveal_strlit("7d");
    reveal_strlit("30d");
    reveal_strlit("all");
    assert("7d"@.len() != "24h"@.len());
    assert("30d"@[0] != "24h"@[0]);
    assert("30d"@[0] != "7d"@[0]);
    assert("all"@[0] != "24h"@[0]);
    assert("all"@.len() != "7d"@.len());
    assert("all"@[0] != "30d"@[0]);
}

/// The database is asked, and a background refresh recounts, with the
/// lookup's own window bounds and limit, whatever the window: a refresh of
/// a stale leaderboard stores a recount of the same window. Its freshness
/// marker lives thirty seconds for the day window and five minutes for the
/// others.
pub proof fn law_refresh_recounts_window(f: TopLikesFlow, ev: TopEvent, s: TopState, a: TopAction)
    requires
        top_expects(f.state, ev),
        top_step(f, ev, s, a),
    ensures
        a matches TopAction::Finish { refresh: Some(job), .. } ==> {
            &&& job.since == f.since
            &&& job.limit == f.limit
            &&& job.canary_ttl == (if f.window@ == "24h"@ { 30u64 } else { 300u64 })
        },
        a matches TopAction::QueryDb { since, limit } ==> since == f.since && limit == f.limit,
{
}

/// What a leaderboard lookup answers, over all cache and database answers:
/// cached entries are answered as they are (fresh: nothing else happens);
/// without cached entries, the database's entries are answered and stored
/// with a thirty-second freshness marker; a database error is answered as
/// it is, and nothing is stored.
pub proof fn law_leaderboard_answers(f: TopLikesFlow, ev: TopEvent, s: TopState, a: TopAction)
    requires
        top_expects(f.state, ev),
        top_step(f, ev, s, a),
    ensures
        (f.state == TopState::ReadingCache && cache_view(ev->CacheRead_0).0 is Some && cache_view(ev->CacheRead_0).1)
            ==> {
            &&& s == TopState::Finished
            &&& a matches TopAction::Finish { result: Ok(r), store_canary_ttl: None, refresh: None }
            &&& r.items@ == cache_view(ev->CacheRead_0).0->Some_0@
            &&& r.window == f.window && r.content_type == f.content_type
        },
        (f.state == TopState::ReadingCache && cache_view(ev->CacheRead_0).0 is None) ==> a == (TopAction::QueryDb {
            since: f.since, limit: f.limit }),
        f.state == TopState::QueryingDb ==> match ev->DbTop_0 {
            Ok(items) => a matches TopAction::Finish { result: Ok(r), store_canary_ttl: Some(ttl), refresh: None }
                && ttl == 30 && r.items@ == items@ && r.window == f.window && r.content_type == f.content_type,
            Err(e) => a == (TopAction::Finish { result: Err(e), store_canary_ttl: None, refresh: None }),
        },
{
}

} // verus!
