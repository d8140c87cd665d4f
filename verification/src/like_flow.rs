use vstd::prelude::*;
use crate::content::{ContentType, Like};
use crate::dto::{AddLikeCommand, AddLikeCommandResult, UnlikeResponse};
use crate::errors::DomainError;
use crate::ids::{ContentId, UserId};
use crate::sse::{change_event, SseEventType, SseLikeEvent};

verus! {

// ---------------------------------------------------------------- like

/// Where a like stands.
#[derive(Debug, Clone, Copy, PartialEq, Eq, Structural)]
pub enum AddLikeState {
    /// The content item is checked with its service.
    Validating,
    /// The like is written to the database.
    Saving,
    /// The like existed: the item's count is looked up (cache, then database).
    CountingExisting,
    /// The like existed: it is read back for its time.
    FetchingExisting { count: u64 },
    /// The like is new: the cached counter is looked for.
    CheckingCounter,
    /// The like is new and the counter is cached: it is incremented.
    Incrementing,
    /// The like is new and the cache has no counter (`refill`) or failed:
    /// the database counts the likes.
    CountingInDb { refill: bool },
    /// The database's count is written to the cache.
    Refilling { count: u64 },
    /// The like is over.
    Finished,
}

/// What the outside world answered to the last action of a like.
#[derive(Debug)]
pub enum AddLikeEvent {
    ContentValidated(Result<u128, DomainError>),
    /// `Ok(true)` when the like already existed.
    Saved(Result<bool, DomainError>),
    Counted(Result<u64, DomainError>),
    ExistingLike(Result<Like, DomainError>),
    Incremented(Result<u64, DomainError>),
    /// The cached counter, if there is one.
    CounterRead(Result<Option<u64>, DomainError>),
    /// The cache was given the count (outcome ignored).
    Refilled,
}

/// What a like asks the outside world to do next.
#[derive(Debug)]
pub enum AddLikeAction {
    /// Check that the content item exists.
    ValidateContent,
    /// Write the like unless it exists (answer: whether it existed).
    SaveLike(Like),
    /// Look up the item's count, cache first then database.
    CountWithFallback,
    /// Read back the user's like of the item.
    GetExistingLike,
    /// Read the item's cached counter.
    ReadCounter,
    /// Increment the item's cached counter.
    IncrementCache,
    /// Write this count to the item's cached counter.
    RefillCache(u64),
    /// Count the item's likes in the database.
    CountInDb,
    /// The like's outcome, and the live event to publish, if any.
    Finish { result: Result<AddLikeCommandResult, DomainError>, publish: Option<SseLikeEvent> },
}

/// A like of a content item by a user, started at time `now` (nanoseconds).
#[derive(Debug)]
pub struct AddLikeFlow {
    pub cmd: AddLikeCommand,
    pub now: i64,
    pub state: AddLikeState,
}

/// Whether a like in a state takes an event.
pub open spec fn add_like_expects(s: AddLikeState, ev: AddLikeEvent) -> bool {
    match s {
        AddLikeState::Validating => ev is ContentValidated,
        AddLikeState::Saving => ev is Saved,
        AddLikeState::CountingExisting => ev is Counted,
        AddLikeState::FetchingExisting { .. } => ev is ExistingLike,
        AddLikeState::CheckingCounter => ev is CounterRead,
        AddLikeState::Incrementing => ev is Incremented,
        AddLikeState::CountingInDb { .. } => ev is Counted,
        AddLikeState::Refilling { .. } => ev is Refilled,
        AddLikeState::Finished => false,
    }
}

/// The like that a command writes at time `now`.
pub open spec fn like_of(cmd: AddLikeCommand, now: i64) -> Like {
    Like { user_id: cmd.user_id, content_type: cmd.content_type, content_id: cmd.content_id, created_at: now }
}

/// The end of a like that was new, with the item's count after it: the
/// answer, and the live event that announces it.
pub open spec fn new_like_finish(cmd: AddLikeCommand, now: i64, count: u64) -> (AddLikeState, AddLikeAction) {
    (
        AddLikeState::Finished,
        AddLikeAction::Finish {
            result: Ok(AddLikeCommandResult { liked: true, already_existed: false, count, liked_at: now }),
            publish: Some(change_event(SseEventType::Like, cmd.content_type, cmd.content_id, cmd.user_id, count, now)),
        },
    )
}

/// The end of a like on an error.
pub open spec fn add_like_failed(e: DomainError) -> (AddLikeState, AddLikeAction) {
    (AddLikeState::Finished, AddLikeAction::Finish { result: Err(e), publish: None })
}

/// The next state and action of a like. An unknown content item, or a
/// failing database, ends it with the error. A like that existed is answered
/// with the item's current count and the like's own time, and announces
/// nothing. A new like is counted by the cache when the cache holds the
/// item's counter; when it holds none, the database counts the likes and
/// the cache is given that count; when the cache fails, the database counts.
/// The new like is announced with its count.
pub open spec fn add_like_next(f: AddLikeFlow, ev: AddLikeEvent) -> (AddLikeState, AddLikeAction) {
    match f.state {
        AddLikeState::Validating => match ev->ContentValidated_0 {
            Ok(_) => (AddLikeState::Saving, AddLikeAction::SaveLike(like_of(f.cmd, f.now))),
            Err(e) => add_like_failed(e),
        },
        AddLikeState::Saving => match ev->Saved_0 {
            Ok(true) => (AddLikeState::CountingExisting, AddLikeAction::CountWithFallback),
            Ok(false) => (AddLikeState::CheckingCounter, AddLikeAction::ReadCounter),
            Err(e) => add_like_failed(e),
        },
        AddLikeState::CheckingCounter => match ev->CounterRead_0 {
            Ok(Some(_)) => (AddLikeState::Incrementing, AddLikeAction::IncrementCache),
            Ok(None) => (AddLikeState::CountingInDb { refill: true }, AddLikeAction::CountInDb),
            Err(_) => (AddLikeState::CountingInDb { refill: false }, AddLikeAction::CountInDb),
        },
        AddLikeState::CountingExisting => match ev->Counted_0 {
            Ok(c) => (AddLikeState::FetchingExisting { count: c }, AddLikeAction::GetExistingLike),
            Err(e) => add_like_failed(e),
        },
        AddLikeState::FetchingExisting { count } => match ev->ExistingLike_0 {
            Ok(l) => (
                AddLikeState::Finished,
                AddLikeAction::Finish {
                    result: Ok(AddLikeCommandResult { liked: true, already_existed: true, count, liked_at: l.created_at }),
                    publish: None,
                },
            ),
            Err(e) => add_like_failed(e),
        },
        AddLikeState::Incrementing => match ev->Incremented_0 {
            Ok(n) => new_like_finish(f.cmd, f.now, n),
            Err(_) => (AddLikeState::CountingInDb { refill: false }, AddLikeAction::CountInDb),
        },
        AddLikeState::CountingInDb { refill } => match ev->Counted_0 {
            Ok(n) => if refill {
                (AddLikeState::Refilling { count: n }, AddLikeAction::RefillCache(n))
            } else {
                new_like_finish(f.cmd, f.now, n)
            },
            Err(e) => add_like_failed(e),
        },
        AddLikeState::Refilling { count } => new_like_finish(f.cmd, f.now, count),
        AddLikeState::Finished => (f.state, AddLikeAction::ValidateContent),
    }
}

impl AddLikeFlow {
    /// Starts a like at time `now`: the content item is checked first.
    pub fn start(cmd: AddLikeCommand, now: i64) -> (r: (AddLikeFlow, AddLikeAction))
        ensures
            r.0.cmd == cmd,
            r.0.now == now,
            r.0.state == AddLikeState::Validating,
            r.1 is ValidateContent,
    {
        (AddLikeFlow { cmd, now, state: AddLikeState::Validating }, AddLikeAction::ValidateContent)
    }

    /// Whether the like takes an event now.
    pub fn accepts(&self, ev: &AddLikeEvent) -> (b: bool)
        ensures
            b == add_like_expects(self.state, *ev),
    {
        match (self.state, ev) {
            (AddLikeState::Validating, AddLikeEvent::ContentValidated(_)) => true,
            (AddLikeState::Saving, AddLikeEvent::Saved(_)) => true,
            (AddLikeState::CountingExisting, AddLikeEvent::Counted(_)) => true,
            (AddLikeState::FetchingExisting { .. }, AddLikeEvent::ExistingLike(_)) => true,
            (AddLikeState::CheckingCounter, AddLikeEvent::CounterRead(_)) => true,
            (AddLikeState::Incrementing, AddLikeEvent::Incremented(_)) => true,
            (AddLikeState::CountingInDb { .. }, AddLikeEvent::Counted(_)) => true,
            (AddLikeState::Refilling { .. }, AddLikeEvent::Refilled) => true,
            _ => false,
        }
    }

    fn finish_new(&mut self, count: u64) -> (a: AddLikeAction)
        ensures
            (final(self).state, a) == new_like_finish(old(self).cmd, old(self).now, count),
            final(self).cmd == old(self).cmd,
            final(self).now == old(self).now,
    {
        self.state = AddLikeState::Finished;
        let event = SseLikeEvent::change(
            SseEventType::Like,
            &self.cmd.content_type,
            &self.cmd.content_id,
            &self.cmd.user_id,
            count,
            self.now,
        );
        AddLikeAction::Finish {
            result: Ok(AddLikeCommandResult { liked: true, already_existed: false, count, liked_at: self.now }),
            publish: Some(event),
        }
    }

    fn fail(&mut self, e: DomainError) -> (a: AddLikeAction)
        ensures
            (final(self).state, a) == add_like_failed(e),
            final(self).cmd == old(self).cmd,
            final(self).now == old(self).now,
    {
        self.state = AddLikeState::Finished;
        AddLikeAction::Finish { result: Err(e), publish: None }
    }

    /// Takes the outside world's answer and gives the next action.
    pub fn step(&mut self, ev: AddLikeEvent) -> (a: AddLikeAction)
        requires
            add_like_expects(old(self).state, ev),
        ensures
            (final(self).state, a) == add_like_next(*old(self), ev),
            final(self).cmd == old(self).cmd,
            final(self).now == old(self).now,
    {
        match (self.state, ev) {
            (AddLikeState::Validating, AddLikeEvent::ContentValidated(r)) => match r {
                Ok(_) => {
                    self.state = AddLikeState::Saving;
                    AddLikeAction::SaveLike(Like {
                        user_id: self.cmd.user_id,
                        content_type: self.cmd.content_type.clone(),
                        content_id: self.cmd.content_id,
                        created_at: self.now,
                    })
                },
                Err(e) => self.fail(e),
            },
            (AddLikeState::Saving, AddLikeEvent::Saved(r)) => match r {
                Ok(true) => {
                    self.state = AddLikeState::CountingExisting;
                    AddLikeAction::CountWithFallback
                },
                Ok(false) => {
                    self.state = AddLikeState::CheckingCounter;
                    AddLikeAction::ReadCounter
                },
                Err(e) => self.fail(e),
            },
            (AddLikeState::CountingExisting, AddLikeEvent::Counted(r)) => match r {
                Ok(c) => {
                    self.state = AddLikeState::FetchingExisting { count: c };
                    AddLikeAction::GetExistingLike
                },
                Err(e) => self.fail(e),
            },
            (AddLikeState::FetchingExisting { count }, AddLikeEvent::ExistingLike(r)) => match r {
                Ok(l) => {
                    self.state = AddLikeState::Finished;
                    AddLikeAction::Finish {
                        result: Ok(AddLikeCommandResult { liked: true, already_existed: true, count, liked_at: l.created_at }),
                        publish: None,
                    }
                },
                Err(e) => self.fail(e),
            },
            (AddLikeState::CheckingCounter, AddLikeEvent::CounterRead(r)) => match r {
                Ok(Some(_)) => {
                    self.state = AddLikeState::Incrementing;
                    AddLikeAction::IncrementCache
                },
                Ok(None) => {
                    self.state = AddLikeState::CountingInDb { refill: true };
                    AddLikeAction::CountInDb
                },
                Err(_) => {
                    self.state = AddLikeState::CountingInDb { refill: false };
                    AddLikeAction::CountInDb
                },
            },
            (AddLikeState::Incrementing, AddLikeEvent::Incremented(r)) => match r {
                Ok(n) => self.finish_new(n),
                Err(_) => {
                    self.state = AddLikeState::CountingInDb { refill: false };
                    AddLikeAction::CountInDb
                },
            },
            (AddLikeState::CountingInDb { refill }, AddLikeEvent::Counted(r)) => match r {
                Ok(n) => if refill {
                    self.state = AddLikeState::Refilling { count: n };
                    AddLikeAction::RefillCache(n)
                } else {
                    self.finish_new(n)
                },
                Err(e) => self.fail(e),
            },
            (AddLikeState::Refilling { count }, AddLikeEvent::Refilled) => self.finish_new(count),
            _ => AddLikeAction::ValidateContent,
        }
    }
}

/// The states a like passes through once the database said it existed.
pub open spec fn on_duplicate_path(s: AddLikeState) -> bool {
    s is CountingExisting || s is FetchingExisting
}

/// A like that already existed is answered as such, never touches the cached
/// counter and announces nothing: from the database's answer on, every step
/// stays on that path or finishes without an event.
pub proof fn law_duplicate_like_is_silent(f: AddLikeFlow, ev: AddLikeEvent)
    requires
        on_duplicate_path(f.state) || (f.state == AddLikeState::Saving && ev == AddLikeEvent::Saved(Ok(true))),
        add_like_expects(f.state, ev),
    ensures
        ({
            let (s, a) = add_like_next(f, ev);
            &&& !(a is IncrementCache)
            &&& (on_duplicate_path(s) || s == AddLikeState::Finished)
            &&& (a matches AddLikeAction::Finish { result, publish } ==> publish is None && (result matches Ok(r)
                ==> r.already_existed && r.liked))
        }),
{
}

/// A new like is announced with the very count it is answered with, at the
/// time it was written.
pub proof fn law_new_like_announced(f: AddLikeFlow, ev: AddLikeEvent)
    requires
        f.state is Incrementing || f.state is CountingInDb || f.state is Refilling,
        add_like_expects(f.state, ev),
    ensures
        ({
            let (s, a) = add_like_next(f, ev);
            a matches AddLikeAction::Finish { result: Ok(r), publish } ==> {
                &&& !r.already_existed
                &&& r.liked_at == f.now
                &&& publish == Some(change_event(SseEventType::Like, f.cmd.content_type, f.cmd.content_id,
                    f.cmd.user_id, r.count, f.now))
            }
        }),
{
}

/// A like of an existing content item that the database takes as new, while
/// the cache holds the item's counter, is answered with the cache's new
/// count, at the time it was written, and announced with that count.
pub proof fn law_new_like_run(cmd: AddLikeCommand, now: i64, u: u128, m: u64, n: u64)
    ensures
        ({
            let f0 = AddLikeFlow { cmd, now, state: AddLikeState::Validating };
            let (s1, a1) = add_like_next(f0, AddLikeEvent::ContentValidated(Ok(u)));
            let f1 = AddLikeFlow { state: s1, ..f0 };
            let (s2, a2) = add_like_next(f1, AddLikeEvent::Saved(Ok(false)));
            let f2 = AddLikeFlow { state: s2, ..f1 };
            let (s3, a3) = add_like_next(f2, AddLikeEvent::CounterRead(Ok(Some(m))));
            let f3 = AddLikeFlow { state: s3, ..f2 };
            let (s4, a4) = add_like_next(f3, AddLikeEvent::Incremented(Ok(n)));
            &&& a1 == AddLikeAction::SaveLike(like_of(cmd, now))
            &&& a2 is ReadCounter
            &&& a3 is IncrementCache
            &&& s4 == AddLikeState::Finished
            &&& a4 == (AddLikeAction::Finish {
                result: Ok(AddLikeCommandResult { liked: true, already_existed: false, count: n, liked_at: now }),
                publish: Some(change_event(SseEventType::Like, cmd.content_type, cmd.content_id, cmd.user_id, n, now)),
            })
        }),
{
}

/// A new like whose counter the cache does not hold (it expired, or the
/// cache restarted) is answered with the database's count, which already
/// includes it, and the cache is given that count before the answer: the
/// cached counter is never restarted from one.
pub proof fn law_cold_counter_takes_db_count(f: AddLikeFlow, n: u64)
    requires
        f.state == AddLikeState::CheckingCounter,
    ensures
        add_like_next(f, AddLikeEvent::CounterRead(Ok(None))) == (AddLikeState::CountingInDb { refill: true },
            AddLikeAction::CountInDb),
        add_like_next(AddLikeFlow { state: AddLikeState::CountingInDb { refill: true }, ..f },
            AddLikeEvent::Counted(Ok(n))) == (AddLikeState::Refilling { count: n }, AddLikeAction::RefillCache(n)),
        add_like_next(AddLikeFlow { state: AddLikeState::Refilling { count: n }, ..f }, AddLikeEvent::Refilled)
            == new_like_finish(f.cmd, f.now, n),
{
}

/// A failing cache does not fail a new like: the database's count answers
/// it instead (and the failing cache is not written to).
pub proof fn law_cache_failure_falls_back(f: AddLikeFlow, e: DomainError, n: u64)
    requires
        f.state == AddLikeState::Incrementing,
    ensures
        add_like_next(f, AddLikeEvent::Incremented(Err(e))) == (AddLikeState::CountingInDb { refill: false },
            AddLikeAction::CountInDb),
        add_like_next(AddLikeFlow { state: AddLikeState::CountingInDb { refill: false }, ..f }, AddLikeEvent::Counted(Ok(n)))
            == new_like_finish(f.cmd, f.now, n),
        add_like_next(AddLikeFlow { state: AddLikeState::CheckingCounter, ..f }, AddLikeEvent::CounterRead(Err(e)))
            == (AddLikeState::CountingInDb { refill: false }, AddLikeAction::CountInDb),
{
}

// ---------------------------------------------------------------- unlike

/// Where an unlike stands.
#[derive(Debug, Clone, Copy, PartialEq, Eq, Structural)]
pub enum RemoveLikeState {
    /// The content item is checked with its service.
    Validating,
    /// The like is deleted from the database.
    Removing,
    /// The item's count is looked up (cache, then database).
    Counting { was_liked: bool },
    /// The cached counter is decremented.
    Decrementing,
    /// The cache failed: the database counts the likes.
    CountingInDb,
    /// The unlike is over.
    Finished,
}

/// What the outside world answered to the last action of an unlike.
#[derive(Debug)]
pub enum RemoveLikeEvent {
    ContentValidated(Result<u128, DomainError>),
    /// `Ok(true)` when a like was deleted.
    Removed(Result<bool, DomainError>),
    Counted(Result<u64, DomainError>),
    Decremented(Result<u64, DomainError>),
}

/// What an unlike asks the outside world to do next.
#[derive(Debug)]
pub enum RemoveLikeAction {
    /// Check that the content item exists.
    ValidateContent,
    /// Delete the user's like of the item (answer: whether there was one).
    RemoveLike,
    /// Look up the item's count, cache first then database.
    CountWithFallback,
    /// Decrement the item's cached counter.
    DecrementCache,
    /// Count the item's likes in the database.
    CountInDb,
    /// The unlike's outcome, and the live event to publish, if any.
    Finish { result: Result<UnlikeResponse, DomainError>, publish: Option<SseLikeEvent> },
}

/// An unlike of a content item by a user, started at time `now` (nanoseconds).
#[derive(Debug)]
pub struct RemoveLikeFlow {
    pub user_id: UserId,
    pub content_type: ContentType,
    pub content_id: ContentId,
    pub now: i64,
    pub state: RemoveLikeState,
}

/// Whether an unlike in a state takes an event.
pub open spec fn remove_like_expects(s: RemoveLikeState, ev: RemoveLikeEvent) -> bool {
    match s {
        RemoveLikeState::Validating => ev is ContentValidated,
        RemoveLikeState::Removing => ev is Removed,
        RemoveLikeState::Counting { .. } => ev is Counted,
        RemoveLikeState::Decrementing => ev is Decremented,
        RemoveLikeState::CountingInDb => ev is Counted,
        RemoveLikeState::Finished => false,
    }
}

/// The end of an unlike that deleted a like, with the item's count after it.
pub open spec fn unliked_finish(f: RemoveLikeFlow, count: u64) -> (RemoveLikeState, RemoveLikeAction) {
    (
        RemoveLikeState::Finished,
        RemoveLikeAction::Finish {
            result: Ok(UnlikeResponse { liked: false, was_liked: true, count }),
            publish: Some(change_event(SseEventType::Unlike, f.content_type, f.content_id, f.user_id, count, f.now)),
        },
    )
}

/// The end of an unlike on an error.
pub open spec fn remove_like_failed(e: DomainError) -> (RemoveLikeState, RemoveLikeAction) {
    (RemoveLikeState::Finished, RemoveLikeAction::Finish { result: Err(e), publish: None })
}

/// The next state and action of an unlike. An unknown content item, or a
/// failing database, ends it with the error. When there was no like, the
/// answer carries the current count and nothing is announced. When a like was
/// deleted, a positive count is decremented in the cache (recounted in the
/// database when the cache fails), a zero count is left as it is, and the
/// unlike is announced with the count it is answered with.
pub open spec fn remove_like_next(f: RemoveLikeFlow, ev: RemoveLikeEvent) -> (RemoveLikeState, RemoveLikeAction) {
    match f.state {
        RemoveLikeState::Validating => match ev->ContentValidated_0 {
            Ok(_) => (RemoveLikeState::Removing, RemoveLikeAction::RemoveLike),
            Err(e) => remove_like_failed(e),
        },
        RemoveLikeState::Removing => match ev->Removed_0 {
            Ok(w) => (RemoveLikeState::Counting { was_liked: w }, RemoveLikeAction::CountWithFallback),
            Err(e) => remove_like_failed(e),
        },
        RemoveLikeState::Counting { was_liked } => match ev->Counted_0 {
            Ok(c) => if !was_liked {
                (
                    RemoveLikeState::Finished,
                    RemoveLikeAction::Finish {
                        result: Ok(UnlikeResponse { liked: false, was_liked: false, count: c }),
                        publish: None,
                    },
                )
            } else if c != 0 {
                (RemoveLikeState::Decrementing, RemoveLikeAction::DecrementCache)
            } else {
                unliked_finish(f, 0)
            },
            Err(e) => remove_like_failed(e),
        },
        RemoveLikeState::Decrementing => match ev->Decremented_0 {
            Ok(n) => unliked_finish(f, n),
            Err(_) => (RemoveLikeState::CountingInDb, RemoveLikeAction::CountInDb),
        },
        RemoveLikeState::CountingInDb => match ev->Counted_0 {
            Ok(n) => unliked_finish(f, n),
            Err(e) => remove_like_failed(e),
        },
        RemoveLikeState::Finished => (f.state, RemoveLikeAction::ValidateContent),
    }
}

impl RemoveLikeFlow {
    /// Starts an unlike at time `now`: the content item is checked first.
    pub fn start(user_id: &UserId, content_type: &ContentType, content_id: &ContentId, now: i64) -> (r: (RemoveLikeFlow, RemoveLikeAction))
        ensures
            r.0.user_id == *user_id,
            r.0.content_type == *content_type,
            r.0.content_id == *content_id,
            r.0.now == now,
            r.0.state == RemoveLikeState::Validating,
            r.1 is ValidateContent,
    {
        (
            RemoveLikeFlow {
                user_id: *user_id,
                content_type: content_type.clone(),
                content_id: *content_id,
                now,
                state: RemoveLikeState::Validating,
            },
            RemoveLikeAction::ValidateContent,
        )
    }

    /// Whether the unlike takes an event now.
    pub fn accepts(&self, ev: &RemoveLikeEvent) -> (b: bool)
        ensures
            b == remove_like_expects(self.state, *ev),
    {
        match (self.state, ev) {
            (RemoveLikeState::Validating, RemoveLikeEvent::ContentValidated(_)) => true,
            (RemoveLikeState::Removing, RemoveLikeEvent::Removed(_)) => true,
            (RemoveLikeState::Counting { .. }, RemoveLikeEvent::Counted(_)) => true,
            (RemoveLikeState::Decrementing, RemoveLikeEvent::Decremented(_)) => true,
            (RemoveLikeState::CountingInDb, RemoveLikeEvent::Counted(_)) => true,
            _ => false,
        }
    }

    fn finish_unliked(&mut self, count: u64) -> (a: RemoveLikeAction)
        ensures
            (final(self).state, a) == unliked_finish(*old(self), count),
            final(self).user_id == old(self).user_id,
            final(self).content_type == old(self).content_type,
            final(self).content_id == old(self).content_id,
            final(self).now == old(self).now,
    {
        self.state = RemoveLikeState::Finished;
        let event = SseLikeEvent::change(
            SseEventType::Unlike,
            &self.content_type,
            &self.content_id,
            &self.user_id,
            count,
            self.now,
        );
        RemoveLikeAction::Finish {
            result: Ok(UnlikeResponse { liked: false, was_liked: true, count }),
            publish: Some(event),
        }
    }

    fn fail(&mut self, e: DomainError) -> (a: RemoveLikeAction)
        ensures
            (final(self).state, a) == remove_like_failed(e),
            final(self).user_id == old(self).user_id,
            final(self).content_type == old(self).content_type,
            final(self).content_id == old(self).content_id,
            final(self).now == old(self).now,
    {
        self.state = RemoveLikeState::Finished;
        RemoveLikeAction::Finish { result: Err(e), publish: None }
    }

    /// Takes the outside world's answer and gives the next action.
    pub fn step(&mut self, ev: RemoveLikeEvent) -> (a: RemoveLikeAction)
        requires
            remove_like_expects(old(self).state, ev),
        ensures
            (final(self).state, a) == remove_like_next(*old(self), ev),
            final(self).user_id == old(self).user_id,
            final(self).content_type == old(self).content_type,
            final(self).content_id == old(self).content_id,
            final(self).now == old(self).now,
    {
        match (self.state, ev) {
            (RemoveLikeState::Validating, RemoveLikeEvent::ContentValidated(r)) => match r {
                Ok(_) => {
                    self.state = RemoveLikeState::Removing;
                    RemoveLikeAction::RemoveLike
                },
                Err(e) => self.fail(e),
            },
            (RemoveLikeState::Removing, RemoveLikeEvent::Removed(r)) => match r {
                Ok(w) => {
                    self.state = RemoveLikeState::Counting { was_liked: w };
                    RemoveLikeAction::CountWithFallback
                },
                Err(e) => self.fail(e),
            },
            (RemoveLikeState::Counting { was_liked }, RemoveLikeEvent::Counted(r)) => match r {
                Ok(c) => {
                    if !was_liked {
                        self.state = RemoveLikeState::Finished;
                        RemoveLikeAction::Finish {
                            result: Ok(UnlikeResponse { liked: false, was_liked: false, count: c }),
                            publish: None,
                        }
                    } else if c != 0 {
                        self.state = RemoveLikeState::Decrementing;
                        RemoveLikeAction::DecrementCache
                    } else {
                        self.finish_unliked(0)
                    }
                },
                Err(e) => self.fail(e),
            },
            (RemoveLikeState::Decrementing, RemoveLikeEvent::Decremented(r)) => match r {
                Ok(n) => self.finish_unliked(n),
                Err(_) => {
                    self.state = RemoveLikeState::CountingInDb;
                    RemoveLikeAction::CountInDb
                },
            },
            (RemoveLikeState::CountingInDb, RemoveLikeEvent::Counted(r)) => match r {
                Ok(n) => self.finish_unliked(n),
                Err(e) => self.fail(e),
            },
            _ => RemoveLikeAction::ValidateContent,
        }
    }
}

/// An unlike of an item the user did not like answers with the current
/// count, never touches the cached counter and announces nothing.
pub proof fn law_unlike_without_like_is_silent(f: RemoveLikeFlow, c: Result<u64, DomainError>)
    requires
        f.state == (RemoveLikeState::Counting { was_liked: false }),
    ensures
        ({
            let (s, a) = remove_like_next(f, RemoveLikeEvent::Counted(c));
            &&& s == RemoveLikeState::Finished
            &&& (a matches RemoveLikeAction::Finish { result, publish } && publish is None && (result matches Ok(r)
                ==> !r.was_liked && !r.liked && c == Ok::<u64, DomainError>(r.count)))
        }),
{
}

/// The cached counter is decremented only when the count looked up is
/// positive, so an unlike never drives it below zero.
pub proof fn law_no_decrement_at_zero(f: RemoveLikeFlow, ev: RemoveLikeEvent)
    requires
        remove_like_expects(f.state, ev),
        (remove_like_next(f, ev).1 is DecrementCache),
    ensures
        f.state == (RemoveLikeState::Counting { was_liked: true }),
        (ev matches RemoveLikeEvent::Counted(Ok(c)) && c > 0),
{
}

/// The count an unlike answers and announces is the count the stores gave
/// after the like was deleted: the cache's decremented counter, or, when the
/// cache failed, the database's recount (which already leaves the deleted
/// like out), or zero when the count looked up was already zero. The event
/// announces exactly that count, for the item and user of the unlike, at its
/// time.
pub proof fn law_unlike_answers_store_count(f: RemoveLikeFlow, ev: RemoveLikeEvent)
    requires
        remove_like_expects(f.state, ev),
    ensures
        ({
            let (s, a) = remove_like_next(f, ev);
            a matches RemoveLikeAction::Finish { result: Ok(r), publish } ==> !r.was_liked || {
                &&& !r.liked
                &&& s == RemoveLikeState::Finished
                &&& {
                    ||| f.state == RemoveLikeState::Decrementing && ev == RemoveLikeEvent::Decremented(Ok(r.count))
                    ||| f.state == RemoveLikeState::CountingInDb && ev == RemoveLikeEvent::Counted(Ok(r.count))
                    ||| f.state == (RemoveLikeState::Counting { was_liked: true }) && ev == RemoveLikeEvent::Counted(Ok(0))
                        && r.count == 0
                }
                &&& publish == Some(SseLikeEvent {
                    event: SseEventType::Unlike,
                    content_type: Some(f.content_type),
                    content_id: Some(f.content_id),
                    user_id: Some(f.user_id),
                    count: Some(r.count),
                    timestamp: f.now,
                })
            }
        }),
{
}

/// When the cache decrement of an unlike fails, the database's recount is
/// both the answer's count and the announced count.
pub proof fn law_unlike_recount_answers(f: RemoveLikeFlow, n: u64)
    requires
        f.state == RemoveLikeState::CountingInDb,
    ensures
        remove_like_next(f, RemoveLikeEvent::Counted(Ok(n))) == (
            RemoveLikeState::Finished,
            RemoveLikeAction::Finish {
                result: Ok(UnlikeResponse { liked: false, was_liked: true, count: n }),
                publish: Some(SseLikeEvent {
                    event: SseEventType::Unlike,
                    content_type: Some(f.content_type),
                    content_id: Some(f.content_id),
                    user_id: Some(f.user_id),
                    count: Some(n),
                    timestamp: f.now,
                }),
            },
        ),
{
}

/// The count a new like answers and announces is the count the stores gave
/// with the like in it: the cache's incremented counter, or the database's
/// count (when the cache failed, or when it held no counter and was given
/// that count). The answer carries the like's own time, and the event
/// announces exactly that count, for the item and user of the like.
pub proof fn law_new_like_answers_store_count(f: AddLikeFlow, ev: AddLikeEvent)
    requires
        add_like_expects(f.state, ev),
    ensures
        ({
            let (s, a) = add_like_next(f, ev);
            a matches AddLikeAction::Finish { result: Ok(r), publish } ==> r.already_existed || {
                &&& r.liked
                &&& r.liked_at == f.now
                &&& s == AddLikeState::Finished
                &&& {
                    ||| f.state == AddLikeState::Incrementing && ev == AddLikeEvent::Incremented(Ok(r.count))
                    ||| f.state == (AddLikeState::CountingInDb { refill: false }) && ev == AddLikeEvent::Counted(Ok(r.count))
                    ||| f.state == (AddLikeState::Refilling { count: r.count })
                }
                &&& publish == Some(SseLikeEvent {
                    event: SseEventType::Like,
                    content_type: Some(f.cmd.content_type),
                    content_id: Some(f.cmd.content_id),
                    user_id: Some(f.cmd.user_id),
                    count: Some(r.count),
                    timestamp: f.now,
                })
            }
        }),
        // The cache is given the database's count exactly.
        f.state == (AddLikeState::CountingInDb { refill: true }) ==> match ev->Counted_0 {
            Ok(n) => add_like_next(f, ev) == (AddLikeState::Refilling { count: n }, AddLikeAction::RefillCache(n)),
            Err(_) => add_like_next(f, ev).1 matches AddLikeAction::Finish { result: Err(_), publish: None },
        },
{
}

} // verus!
