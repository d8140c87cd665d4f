use vstd::prelude::*;
use crate::content::ContentType;
use crate::errors::DomainError;
use crate::ids::ContentId;
use crate::keys::{format_lock_key, lock_key, RefreshType};

verus! {

/// The count that a cache read gives: a stored count, a miss, or the
/// cache's error.
pub open spec fn cached_count_of(r: Result<Option<u64>, DomainError>) -> Result<u64, DomainError> {
    match r {
        Ok(Some(n)) => Ok(n),
        Ok(None) => Err(DomainError::CacheMiss),
        Err(e) => Err(e),
    }
}

/// The count that a cache read gives: a stored count, a miss, or the
/// cache's error.
pub fn get_cache_like_count(r: Result<Option<u64>, DomainError>) -> (c: Result<u64, DomainError>)
    ensures
        c == cached_count_of(r),
{
    match r {
        Ok(Some(n)) => Ok(n),
        Ok(None) => Err(DomainError::CacheMiss),
        Err(e) => Err(e),
    }
}

/// Where a count lookup with database fallback stands.
#[derive(Debug, Clone, Copy, PartialEq, Eq, Structural)]
pub enum CountState {
    /// The cache is read a first time.
    FirstLook,
    /// The single-flight lock of the counter is being taken.
    Locking,
    /// The cache is read again under the lock.
    SecondLook,
    /// The database counts the likes.
    AskingDb,
    /// The database's count is written back to the cache.
    Refilling { count: u64 },
    /// The lookup is over.
    Finished,
}

/// What the outside world answered to the last action of a count lookup.
#[derive(Debug)]
pub enum CountEvent {
    CacheRead(Result<Option<u64>, DomainError>),
    LockHeld,
    DbCount(Result<u64, DomainError>),
    CacheWritten,
}

/// What a count lookup asks the outside world to do next.
#[derive(Debug)]
pub enum CountAction {
    /// Read the counter from the cache.
    ReadCache,
    /// Take the single-flight lock of the counter (waiting for it).
    AcquireLock,
    /// Count the likes in the database.
    ReadDb,
    /// Store the count in the cache (its outcome is ignored).
    WriteCache(u64),
    /// The lookup's result; with `release_lock`, the lock entry is removed.
    Finish { result: Result<u64, DomainError>, release_lock: bool },
}

/// Whether a count lookup in a state takes an event.
pub open spec fn count_expects(s: CountState, ev: CountEvent) -> bool {
    match s {
        CountState::FirstLook => ev is CacheRead,
        CountState::Locking => ev is LockHeld,
        CountState::SecondLook => ev is CacheRead,
        CountState::AskingDb => ev is DbCount,
        CountState::Refilling { .. } => ev is CacheWritten,
        CountState::Finished => false,
    }
}

/// The next state and action of a count lookup: the cache's count when it
/// has one (looked up again under the lock after a miss), else the
/// database's, which is then written back to the cache.
pub open spec fn count_next(s: CountState, ev: CountEvent) -> (CountState, CountAction) {
    match s {
        CountState::FirstLook => match cached_count_of(ev->CacheRead_0) {
            Ok(n) => (CountState::Finished, CountAction::Finish { result: Ok(n), release_lock: false }),
            Err(_) => (CountState::Locking, CountAction::AcquireLock),
        },
        CountState::Locking => (CountState::SecondLook, CountAction::ReadCache),
        CountState::SecondLook => match cached_count_of(ev->CacheRead_0) {
            Ok(n) => (CountState::Finished, CountAction::Finish { result: Ok(n), release_lock: true }),
            Err(_) => (CountState::AskingDb, CountAction::ReadDb),
        },
        CountState::AskingDb => match ev->DbCount_0 {
            Ok(n) => (CountState::Refilling { count: n }, CountAction::WriteCache(n)),
            Err(e) => (CountState::Finished, CountAction::Finish { result: Err(e), release_lock: false }),
        },
        CountState::Refilling { count } => (
            CountState::Finished,
            CountAction::Finish { result: Ok(count), release_lock: true },
        ),
        CountState::Finished => (s, CountAction::ReadCache),
    }
}

/// A like-count lookup of a content item that prefers the cache and falls
/// back to the database under a single-flight lock.
#[derive(Debug)]
pub struct CountFlow {
    pub c_type: ContentType,
    pub c_id: ContentId,
    pub lock_key: String,
    pub state: CountState,
}

impl CountFlow {
    /// Starts a lookup: the cache is read first.
    pub fn start(c_type: &ContentType, c_id: &ContentId) -> (r: (CountFlow, CountAction))
        ensures
            r.0.c_type == *c_type,
            r.0.c_id == *c_id,
            r.0.lock_key@ == lock_key(RefreshType::Count, c_type@, c_id.0),
            r.0.state == CountState::FirstLook,
            r.1 is ReadCache,
    {
        let flow = CountFlow {
            c_type: c_type.clone(),
            c_id: *c_id,
            lock_key: format_lock_key(RefreshType::Count, c_type, c_id),
            state: CountState::FirstLook,
        };
        (flow, CountAction::ReadCache)
    }

    /// Whether the lookup takes an event now.
    pub fn accepts(&self, ev: &CountEvent) -> (b: bool)
        ensures
            b == count_expects(self.state, *ev),
    {
        match (self.state, ev) {
            (CountState::FirstLook, CountEvent::CacheRead(_)) => true,
            (CountState::Locking, CountEvent::LockHeld) => true,
            (CountState::SecondLook, CountEvent::CacheRead(_)) => true,
            (CountState::AskingDb, CountEvent::DbCount(_)) => true,
            (CountState::Refilling { .. }, CountEvent::CacheWritten) => true,
            _ => false,
        }
    }

    /// Takes the outside world's answer and gives the next action.
    pub fn step(&mut self, ev: CountEvent) -> (a: CountAction)
        requires
            count_expects(old(self).state, ev),
        ensures
            (final(self).state, a) == count_next(old(self).state, ev),
            final(self).c_type == old(self).c_type,
            final(self).c_id == old(self).c_id,
            final(self).lock_key == old(self).lock_key,
    {
        match self.state {
            CountState::FirstLook => match ev {
                CountEvent::CacheRead(r) => match get_cache_like_count(r) {
                    Ok(n) => {
                        self.state = CountState::Finished;
                        CountAction::Finish { result: Ok(n), release_lock: false }
                    },
                    Err(_) => {
                        self.state = CountState::Locking;
                        CountAction::AcquireLock
                    },
                },
                _ => CountAction::ReadCache,
            },
            CountState::Locking => {
                self.state = CountState::SecondLook;
                CountAction::ReadCache
            },
            CountState::SecondLook => match ev {
                CountEvent::CacheRead(r) => match get_cache_like_count(r) {
                    Ok(n) => {
                        self.state = CountState::Finished;
                        CountAction::Finish { result: Ok(n), release_lock: true }
                    },
                    Err(_) => {
                        self.state = CountState::AskingDb;
                        CountAction::ReadDb
                    },
                },
                _ => CountAction::ReadCache,
            },
            CountState::AskingDb => match ev {
                CountEvent::DbCount(Ok(n)) => {
                    self.state = CountState::Refilling { count: n };
                    CountAction::WriteCache(n)
                },
                CountEvent::DbCount(Err(e)) => {
                    self.state = CountState::Finished;
                    CountAction::Finish { result: Err(e), release_lock: false }
                },
                _ => CountAction::ReadCache,
            },
            CountState::Refilling { count } => {
                self.state = CountState::Finished;
                CountAction::Finish { result: Ok(count), release_lock: true }
            },
            CountState::Finished => CountAction::ReadCache,
        }
    }
}

/// A count that the cache holds at the first look is the lookup's result,
/// at once and without the lock.
pub proof fn law_cache_hit_answers_at_once(n: u64)
    ensures
        count_next(CountState::FirstLook, CountEvent::CacheRead(Ok(Some(n)))) == (
            CountState::Finished,
            CountAction::Finish { result: Ok(n), release_lock: false },
        ),
{
}

/// When the cache misses twice, the database's count is written back to the
/// cache and is the lookup's result, whatever the cache write gave.
pub proof fn law_db_count_refills_cache(miss1: Result<Option<u64>, DomainError>, miss2: Result<Option<u64>, DomainError>, n: u64)
    requires
        cached_count_of(miss1) is Err,
        cached_count_of(miss2) is Err,
    ensures
        count_next(CountState::FirstLook, CountEvent::CacheRead(miss1)).1 is AcquireLock,
        count_next(CountState::SecondLook, CountEvent::CacheRead(miss2)).1 is ReadDb,
        count_next(CountState::AskingDb, CountEvent::DbCount(Ok(n))) == (
            CountState::Refilling { count: n },
            CountAction::WriteCache(n),
        ),
        count_next(CountState::Refilling { count: n }, CountEvent::CacheWritten) == (
            CountState::Finished,
            CountAction::Finish { result: Ok(n), release_lock: true },
        ),
{
}

} // verus!
