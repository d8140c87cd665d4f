use vstd::prelude::*;
use crate::batch::{cache_lookup, check_batch_size, claimed_of, count_lock_keys, copy_counts, lookup, select_claimed, MAX_BATCH};
use crate::dto::{ContentCount, ContentItem};
use crate::errors::DomainError;
use crate::ids::ContentId;
use crate::keys::{lock_key, RefreshType};

verus! {

/// Where a batch of counts stands.
#[derive(Debug, Clone, Copy, PartialEq, Eq, Structural)]
pub enum BatchState {
    /// The cache is read for every item.
    ReadingCache,
    /// The count locks of the items still unknown are tried.
    Claiming,
    /// The database counts the items whose lock this request took.
    QueryingDb,
    /// Those counts go to the cache, and their locks are released after.
    Storing,
    /// Other requests count the remaining items: their locks are looked at,
    /// up to `rounds_left` more times after this one.
    Waiting { rounds_left: u32 },
    /// The cache is read again for the remaining items.
    Rereading,
    /// The database counts whatever the cache still lacks.
    QueryingDbAgain,
    /// The batch is answered.
    Finished,
}

/// What the outside world answered to the last action of a batch.
#[derive(Debug)]
pub enum BatchEvent {
    /// The cached counts, by identifier.
    CacheRead(Result<Vec<(ContentId, u64)>, DomainError>),
    /// For each item, whether its lock was taken by this request.
    Claimed(Vec<bool>),
    /// The database's counts.
    DbCounts(Result<Vec<ContentCount>, DomainError>),
    /// The store-and-release work was handed over.
    Stored,
    /// Whether all the locks looked at are free.
    LocksChecked(bool),
}

/// What a batch asks the outside world to do next.
#[derive(Debug)]
pub enum BatchAction {
    /// Read the cached counts of these items.
    ReadCache(Vec<ContentItem>),
    /// Try to take the count lock (the flow's key) of each item whose flag is set.
    Claim(Vec<bool>),
    /// Ask the database for the counts of these items.
    QueryDb(Vec<ContentItem>),
    /// Write these counts to the cache, then release these locks.
    StoreAndRelease { counts: Vec<ContentCount>, keys: Vec<String> },
    /// After this many milliseconds, look whether all these locks are free.
    CheckLocks { keys: Vec<String>, after_millis: u64 },
    /// The batch's answer; the locks listed are released.
    Finish { result: Result<Vec<ContentCount>, DomainError>, release: Vec<String> },
}

/// How many more times a batch looks at the locks of the items other
/// requests count, before it counts them itself.
pub const BATCH_WAIT_ROUNDS: u32 = 40;

/// The pause (milliseconds) between two looks at those locks.
pub const BATCH_WAIT_MILLIS: u64 = 50;

/// Whether an action looks at the locks of the items still unknown, after
/// `after` milliseconds.
pub open spec fn checks_unknown_locks(a: BatchAction, f: BatchCountFlow, after: u64) -> bool {
    a matches BatchAction::CheckLocks { keys, after_millis } && keys@ == claimed_of(f.keys@, unknown_mask(f.counts@))
        && after_millis == after
}

/// A batch of like counts: one count for each item, in the items' order.
#[derive(Debug)]
pub struct BatchCountFlow {
    pub items: Vec<ContentItem>,
    /// The count lock key of each item.
    pub keys: Vec<String>,
    /// The count of each item, once known.
    pub counts: Vec<Option<u64>>,
    /// Whether this request holds each item's lock.
    pub claimed: Vec<bool>,
    pub state: BatchState,
}

/// The entries a cache read gives: a failing cache gives none.
pub open spec fn cache_answer(r: Result<Vec<(ContentId, u64)>, DomainError>) -> Seq<(ContentId, u64)> {
    match r {
        Ok(v) => v@,
        Err(_) => Seq::empty(),
    }
}

/// Which counts are still unknown.
pub open spec fn unknown_mask(counts: Seq<Option<u64>>) -> Seq<bool> {
    Seq::new(counts.len(), |i: int| counts[i] is None)
}

/// Whether every count is known.
pub open spec fn all_known(counts: Seq<Option<u64>>) -> bool {
    forall|i: int| 0 <= i < counts.len() ==> #[trigger] counts[i] is Some
}

/// Whether some flag is set.
pub open spec fn any_set(mask: Seq<bool>) -> bool {
    exists|i: int| 0 <= i < mask.len() && #[trigger] mask[i]
}

/// Flags set in both.
pub open spec fn both(a: Seq<bool>, b: Seq<bool>) -> Seq<bool> {
    Seq::new(b.len(), |i: int| a[i] && b[i])
}

/// The counts after a cache read: each unknown count is the cached one, if any.
pub open spec fn with_cache(items: Seq<ContentItem>, counts: Seq<Option<u64>>, cached: Seq<(ContentId, u64)>) -> Seq<Option<u64>> {
    Seq::new(counts.len(), |i: int| match counts[i] {
        Some(c) => Some(c),
        None => cache_lookup(cached, items[i].content_id),
    })
}

/// The database's count of an item: the first row with its type and
/// identifier; an item the database does not list has no likes.
pub open spec fn db_count(rows: Seq<ContentCount>, item: ContentItem) -> u64
    decreases rows.len(),
{
    if rows.len() == 0 {
        0
    } else if rows[0].content_type@ == item.content_type@ && rows[0].content_id == item.content_id {
        rows[0].count
    } else {
        db_count(rows.drop_first(), item)
    }
}

/// The counts after a database answer for the items asked.
pub open spec fn with_db(items: Seq<ContentItem>, counts: Seq<Option<u64>>, asked: Seq<bool>, rows: Seq<ContentCount>) -> Seq<Option<u64>> {
    Seq::new(counts.len(), |i: int| if asked[i] && counts[i] is None {
        Some(db_count(rows, items[i]))
    } else {
        counts[i]
    })
}

/// Whether an answer gives every item, in order, with its own type,
/// identifier and known count.
pub open spec fn answers_all(r: Seq<ContentCount>, items: Seq<ContentItem>, counts: Seq<Option<u64>>) -> bool {
    &&& r.len() == items.len()
    &&& forall|i: int| 0 <= i < items.len() ==> {
        &&& (#[trigger] r[i]).content_type == items[i].content_type
        &&& r[i].content_id == items[i].content_id
        &&& counts[i] == Some(r[i].count)
    }
}

/// Whether a finishing action answers every item with these counts and
/// releases nothing.
pub open spec fn finishes_all(a: BatchAction, items: Seq<ContentItem>, counts: Seq<Option<u64>>) -> bool {
    a matches BatchAction::Finish { result: Ok(r), release } && answers_all(r@, items, counts) && release@.len() == 0
}

impl BatchCountFlow {
    /// The flow's parts agree: one key, count and flag per item, each key the
    /// item's count lock key.
    pub open spec fn wf(&self) -> bool {
        &&& self.keys@.len() == self.items@.len()
        &&& self.counts@.len() == self.items@.len()
        &&& self.claimed@.len() == self.items@.len()
        &&& forall|i: int| 0 <= i < self.items@.len() ==> #[trigger] self.keys@[i]@ == lock_key(
            RefreshType::Count, self.items@[i].content_type@, self.items@[i].content_id.0)
    }
}

/// Whether a batch in a state takes an event.
pub open spec fn batch_expects(f: BatchCountFlow, ev: BatchEvent) -> bool {
    match f.state {
        BatchState::ReadingCache => ev is CacheRead,
        BatchState::Claiming => ev matches BatchEvent::Claimed(v) && v@.len() == f.items@.len(),
        BatchState::QueryingDb => ev is DbCounts,
        BatchState::Storing => ev is Stored,
        BatchState::Waiting { .. } => ev is LocksChecked,
        BatchState::Rereading => ev is CacheRead,
        BatchState::QueryingDbAgain => ev is DbCounts,
        BatchState::Finished => false,
    }
}

/// The next step of a batch, as a relation between the flow before, the
/// event, the flow after and the action.
pub open spec fn batch_step(f: BatchCountFlow, ev: BatchEvent, g: BatchCountFlow, a: BatchAction) -> bool {
    &&& g.items == f.items
    &&& g.keys == f.keys
    &&& match f.state {
        BatchState::ReadingCache | BatchState::Rereading => {
            let c = with_cache(f.items@, f.counts@, cache_answer(ev->CacheRead_0));
            &&& g.counts@ == c
            &&& g.claimed == f.claimed
            &&& if all_known(c) {
                g.state == BatchState::Finished && finishes_all(a, f.items@, c)
            } else if f.state == BatchState::ReadingCache {
                g.state == BatchState::Claiming && (a matches BatchAction::Claim(m) && m@ == unknown_mask(c))
            } else {
                g.state == BatchState::QueryingDbAgain && (a matches BatchAction::QueryDb(q)
                    && q@ == claimed_of(f.items@, unknown_mask(c)))
            }
        },
        BatchState::Claiming => {
            let cl = both(ev->Claimed_0@, unknown_mask(f.counts@));
            &&& g.counts == f.counts
            &&& g.claimed@ == cl
            &&& if any_set(cl) {
                g.state == BatchState::QueryingDb && (a matches BatchAction::QueryDb(q) && q@ == claimed_of(f.items@, cl))
            } else {
                g.state == BatchState::Waiting { rounds_left: BATCH_WAIT_ROUNDS } && checks_unknown_locks(a, f, 0)
            }
        },
        BatchState::QueryingDb => {
            &&& g.claimed == f.claimed
            &&& match ev->DbCounts_0 {
                Ok(rows) => {
                    &&& g.counts@ == with_db(f.items@, f.counts@, f.claimed@, rows@)
                    &&& g.state == BatchState::Storing
                    &&& a matches BatchAction::StoreAndRelease { counts, keys }
                    &&& counts@ == rows@
                    &&& keys@ == claimed_of(f.keys@, f.claimed@)
                },
                Err(e) => {
                    &&& g.counts == f.counts
                    &&& g.state == BatchState::Finished
                    &&& a matches BatchAction::Finish { result: Err(x), release }
                    &&& x == e
                    &&& release@ == claimed_of(f.keys@, f.claimed@)
                },
            }
        },
        BatchState::Storing => {
            &&& g.counts == f.counts
            &&& g.claimed == f.claimed
            &&& if all_known(f.counts@) {
                g.state == BatchState::Finished && finishes_all(a, f.items@, f.counts@)
            } else {
                g.state == BatchState::Waiting { rounds_left: BATCH_WAIT_ROUNDS } && checks_unknown_locks(a, f, 0)
            }
        },
        BatchState::Waiting { rounds_left } => {
            &&& g.counts == f.counts
            &&& g.claimed == f.claimed
            &&& if ev->LocksChecked_0 || rounds_left == 0 {
                &&& g.state == BatchState::Rereading
                &&& a matches BatchAction::ReadCache(q)
                &&& q@ == claimed_of(f.items@, unknown_mask(f.counts@))
            } else {
                g.state == BatchState::Waiting { rounds_left: (rounds_left - 1) as u32 }
                    && checks_unknown_locks(a, f, BATCH_WAIT_MILLIS)
            }
        },
        BatchState::QueryingDbAgain => {
            &&& g.claimed == f.claimed
            &&& g.state == BatchState::Finished
            &&& match ev->DbCounts_0 {
                Ok(rows) => {
                    let c = with_db(f.items@, f.counts@, unknown_mask(f.counts@), rows@);
                    g.counts@ == c && finishes_all(a, f.items@, c)
                },
                Err(e) => g.counts == f.counts && (a matches BatchAction::Finish { result: Err(x), release }
                    && x == e && release@.len() == 0),
            }
        },
        BatchState::Finished => false,
    }
}

fn unknown_of(counts: &Vec<Option<u64>>) -> (m: Vec<bool>)
    ensures
        m@ == unknown_mask(counts@),
{
    let mut m: Vec<bool> = Vec::new();
    let mut i: usize = 0;
    while i < counts.len()
        invariant
            i <= counts@.len(),
            m@.len() == i,
            forall|j: int| 0 <= j < i ==> #[trigger] m@[j] == (counts@[j] is None),
        decreases counts@.len() - i,
    {
        m.push(counts[i].is_none());
        i = i + 1;
    }
    assert(m@ =~= unknown_mask(counts@));
    m
}

fn known_all(counts: &Vec<Option<u64>>) -> (b: bool)
    ensures
        b == all_known(counts@),
{
    let mut i: usize = 0;
    while i < counts.len()
        invariant
            i <= counts@.len(),
            forall|j: int| 0 <= j < i ==> #[trigger] counts@[j] is Some,
        decreases counts@.len() - i,
    {
        if counts[i].is_none() {
            return false;
        }
        i = i + 1;
    }
    true
}

fn some_set(mask: &Vec<bool>) -> (b: bool)
    ensures
        b == any_set(mask@),
{
    let mut i: usize = 0;
    while i < mask.len()
        invariant
            i <= mask@.len(),
            forall|j: int| 0 <= j < i ==> !#[trigger] mask@[j],
        decreases mask@.len() - i,
    {
        if mask[i] {
            return true;
        }
        i = i + 1;
    }
    false
}

fn both_of(a: &Vec<bool>, b: &Vec<bool>) -> (m: Vec<bool>)
    requires
        a@.len() == b@.len(),
    ensures
        m@ == both(a@, b@),
{
    let mut m: Vec<bool> = Vec::new();
    let mut i: usize = 0;
    while i < b.len()
        invariant
            a@.len() == b@.len(),
            i <= b@.len(),
            m@.len() == i,
            forall|j: int| 0 <= j < i ==> #[trigger] m@[j] == (a@[j] && b@[j]),
        decreases b@.len() - i,
    {
        m.push(a[i] && b[i]);
        i = i + 1;
    }
    assert(m@ =~= both(a@, b@));
    m
}

fn filled_from_cache(items: &Vec<ContentItem>, counts: &Vec<Option<u64>>, cached: &Vec<(ContentId, u64)>) -> (r: Vec<Option<u64>>)
    requires
        items@.len() == counts@.len(),
    ensures
        r@ == with_cache(items@, counts@, cached@),
{
    let mut r: Vec<Option<u64>> = Vec::new();
    let mut i: usize = 0;
    while i < counts.len()
        invariant
            items@.len() == counts@.len(),
            i <= counts@.len(),
            r@.len() == i,
            forall|j: int| 0 <= j < i ==> #[trigger] r@[j] == (match counts@[j] {
                Some(c) => Some(c),
                None => cache_lookup(cached@, items@[j].content_id),
            }),
        decreases counts@.len() - i,
    {
        let v = match counts[i] {
            Some(c) => Some(c),
            None => lookup(cached, items[i].content_id),
        };
        r.push(v);
        i = i + 1;
    }
    assert(r@ =~= with_cache(items@, counts@, cached@));
    r
}

fn db_lookup(rows: &Vec<ContentCount>, item: &ContentItem) -> (n: u64)
    ensures
        n == db_count(rows@, *item),
{
    let mut i: usize = 0;
    assert(rows@.subrange(0, rows@.len() as int) =~= rows@);
    while i < rows.len()
        invariant
            i <= rows@.len(),
            db_count(rows@, *item) == db_count(rows@.subrange(i as int, rows@.len() as int), *item),
        decreases rows@.len() - i,
    {
        let ghost rest = rows@.subrange(i as int, rows@.len() as int);
        assert(rest.drop_first() =~= rows@.subrange(i + 1, rows@.len() as int));
        if rows[i].content_type.same_as(&item.content_type) && rows[i].content_id == item.content_id {
            return rows[i].count;
        }
        i = i + 1;
    }
    0
}

fn filled_from_db(items: &Vec<ContentItem>, counts: &Vec<Option<u64>>, asked: &Vec<bool>, rows: &Vec<ContentCount>) -> (r: Vec<Option<u64>>)
    requires
        items@.len() == counts@.len(),
        asked@.len() == counts@.len(),
    ensures
        r@ == with_db(items@, counts@, asked@, rows@),
{
    let mut r: Vec<Option<u64>> = Vec::new();
    let mut i: usize = 0;
    while i < counts.len()
        invariant
            items@.len() == counts@.len(),
            asked@.len() == counts@.len(),
            i <= counts@.len(),
            r@.len() == i,
            forall|j: int| 0 <= j < i ==> #[trigger] r@[j] == (if asked@[j] && counts@[j] is None {
                Some(db_count(rows@, items@[j]))
            } else {
                counts@[j]
            }),
        decreases counts@.len() - i,
    {
        let v = if asked[i] && counts[i].is_none() {
            Some(db_lookup(rows, &items[i]))
        } else {
            counts[i]
        };
        r.push(v);
        i = i + 1;
    }
    assert(r@ =~= with_db(items@, counts@, asked@, rows@));
    r
}

fn answer_of(items: &Vec<ContentItem>, counts: &Vec<Option<u64>>) -> (r: Vec<ContentCount>)
    requires
        items@.len() == counts@.len(),
        all_known(counts@),
    ensures
        answers_all(r@, items@, counts@),
{
    let mut r: Vec<ContentCount> = Vec::new();
    let mut i: usize = 0;
    while i < items.len()
        invariant
            items@.len() == counts@.len(),
            all_known(counts@),
            i <= items@.len(),
            r@.len() == i,
            forall|j: int| 0 <= j < i ==> {
                &&& (#[trigger] r@[j]).content_type == items@[j].content_type
                &&& r@[j].content_id == items@[j].content_id
                &&& counts@[j] == Some(r@[j].count)
            },
        decreases items@.len() - i,
    {
        assert(counts@[i as int] is Some);
        let c = match counts[i] {
            Some(c) => c,
            None => 0,
        };
        r.push(ContentCount { content_type: items[i].content_type.clone(), content_id: items[i].content_id, count: c });
        i = i + 1;
    }
    r
}

proof fn lemma_db_fills_unknown(items: Seq<ContentItem>, counts: Seq<Option<u64>>, rows: Seq<ContentCount>)
    requires
        items.len() == counts.len(),
    ensures
        all_known(with_db(items, counts, unknown_mask(counts), rows)),
{
    let c = with_db(items, counts, unknown_mask(counts), rows);
    assert forall|i: int| 0 <= i < c.len() implies #[trigger] c[i] is Some by {
        assert(unknown_mask(counts)[i] == (counts[i] is None));
    }
}

impl BatchCountFlow {
    /// Starts a batch: more than a hundred items are refused with their
    /// number, else the cache is read for every item.
    pub fn start(items: Vec<ContentItem>) -> (r: (BatchCountFlow, BatchAction))
        ensures
            r.0.wf(),
            r.0.items@ == items@,
            r.0.counts@ == Seq::new(items@.len(), |i: int| None::<u64>),
            r.0.claimed@ == Seq::new(items@.len(), |i: int| false),
            items@.len() > MAX_BATCH ==> r.0.state == BatchState::Finished && (r.1 matches BatchAction::Finish {
                result: Err(DomainError::BatchTooLarge(n)), release } && n == items@.len() && release@.len() == 0),
            items@.len() <= MAX_BATCH ==> r.0.state == BatchState::ReadingCache && (r.1 matches BatchAction::ReadCache(q)
                && q@ == items@),
    {
        let keys = count_lock_keys(&items);
        let mut counts: Vec<Option<u64>> = Vec::new();
        let mut claimed: Vec<bool> = Vec::new();
        let mut i: usize = 0;
        while i < items.len()
            invariant
                i <= items@.len(),
                counts@ == Seq::new(i as nat, |j: int| None::<u64>),
                claimed@ == Seq::new(i as nat, |j: int| false),
            decreases items@.len() - i,
        {
            counts.push(None);
            claimed.push(false);
            i = i + 1;
            assert(counts@ =~= Seq::new(i as nat, |j: int| None::<u64>));
            assert(claimed@ =~= Seq::new(i as nat, |j: int| false));
        }
        match check_batch_size(items.len()) {
            Err(e) => (
                BatchCountFlow { items, keys, counts, claimed, state: BatchState::Finished },
                BatchAction::Finish { result: Err(e), release: Vec::new() },
            ),
            Ok(()) => {
                let asked = copy_items(&items);
                (
                    BatchCountFlow { items, keys, counts, claimed, state: BatchState::ReadingCache },
                    BatchAction::ReadCache(asked),
                )
            },
        }
    }

    /// Whether the batch takes an event now.
    pub fn accepts(&self, ev: &BatchEvent) -> (b: bool)
        ensures
            b == batch_expects(*self, *ev),
    {
        match (self.state, ev) {
            (BatchState::ReadingCache, BatchEvent::CacheRead(_)) => true,
            (BatchState::Claiming, BatchEvent::Claimed(v)) => v.len() == self.items.len(),
            (BatchState::QueryingDb, BatchEvent::DbCounts(_)) => true,
            (BatchState::Storing, BatchEvent::Stored) => true,
            (BatchState::Waiting { .. }, BatchEvent::LocksChecked(_)) => true,
            (BatchState::Rereading, BatchEvent::CacheRead(_)) => true,
            (BatchState::QueryingDbAgain, BatchEvent::DbCounts(_)) => true,
            _ => false,
        }
    }

    /// Answers every item, or asks for the unknown ones.
    fn finish_or_continue(&mut self, next: BatchState) -> (a: BatchAction)
        requires
            old(self).wf(),
            next == BatchState::Claiming || next == BatchState::QueryingDbAgain
                || next == (BatchState::Waiting { rounds_left: BATCH_WAIT_ROUNDS }),
        ensures
            final(self).wf(),
            final(self).items == old(self).items,
            final(self).keys == old(self).keys,
            final(self).counts == old(self).counts,
            final(self).claimed == old(self).claimed,
            all_known(old(self).counts@) ==> final(self).state == BatchState::Finished
                && finishes_all(a, old(self).items@, old(self).counts@),
            !all_known(old(self).counts@) ==> final(self).state == next && match next {
                BatchState::Claiming => a matches BatchAction::Claim(m) && m@ == unknown_mask(old(self).counts@),
                BatchState::QueryingDbAgain => a matches BatchAction::QueryDb(q)
                    && q@ == claimed_of(old(self).items@, unknown_mask(old(self).counts@)),
                _ => checks_unknown_locks(a, *old(self), 0),
            },
    {
        if known_all(&self.counts) {
            self.state = BatchState::Finished;
            BatchAction::Finish { result: Ok(answer_of(&self.items, &self.counts)), release: Vec::new() }
        } else {
            self.state = next;
            let m = unknown_of(&self.counts);
            match next {
                BatchState::Claiming => BatchAction::Claim(m),
                BatchState::QueryingDbAgain => {
                    let (q, _) = select_claimed(&self.items, &self.keys, &m);
                    BatchAction::QueryDb(q)
                },
                _ => {
                    let (_, k) = select_claimed(&self.items, &self.keys, &m);
                    BatchAction::CheckLocks { keys: k, after_millis: 0 }
                },
            }
        }
    }

    /// Takes the outside world's answer and gives the next action.
    pub fn step(&mut self, ev: BatchEvent) -> (a: BatchAction)
        requires
            old(self).wf(),
            batch_expects(*old(self), ev),
        ensures
            final(self).wf(),
            batch_step(*old(self), ev, *final(self), a),
    {
        match (self.state, ev) {
            (BatchState::ReadingCache, BatchEvent::CacheRead(r)) => {
                let cached = match r {
                    Ok(v) => v,
                    Err(_) => Vec::new(),
                };
                self.counts = filled_from_cache(&self.items, &self.counts, &cached);
                self.finish_or_continue(BatchState::Claiming)
            },
            (BatchState::Rereading, BatchEvent::CacheRead(r)) => {
                let cached = match r {
                    Ok(v) => v,
                    Err(_) => Vec::new(),
                };
                self.counts = filled_from_cache(&self.items, &self.counts, &cached);
                self.finish_or_continue(BatchState::QueryingDbAgain)
            },
            (BatchState::Claiming, BatchEvent::Claimed(v)) => {
                let unknown = unknown_of(&self.counts);
                let cl = both_of(&v, &unknown);
                if some_set(&cl) {
                    let (q, _) = select_claimed(&self.items, &self.keys, &cl);
                    self.claimed = cl;
                    self.state = BatchState::QueryingDb;
                    BatchAction::QueryDb(q)
                } else {
                    let (_, k) = select_claimed(&self.items, &self.keys, &unknown);
                    self.claimed = cl;
                    self.state = BatchState::Waiting { rounds_left: BATCH_WAIT_ROUNDS };
                    BatchAction::CheckLocks { keys: k, after_millis: 0 }
                }
            },
            (BatchState::QueryingDb, BatchEvent::DbCounts(r)) => {
                let (_, held) = select_claimed(&self.items, &self.keys, &self.claimed);
                match r {
                    Ok(rows) => {
                        self.counts = filled_from_db(&self.items, &self.counts, &self.claimed, &rows);
                        self.state = BatchState::Storing;
                        BatchAction::StoreAndRelease { counts: copy_counts(&rows), keys: held }
                    },
                    Err(e) => {
                        self.state = BatchState::Finished;
                        BatchAction::Finish { result: Err(e), release: held }
                    },
                }
            },
            (BatchState::Storing, BatchEvent::Stored) => {
                self.finish_or_continue(BatchState::Waiting { rounds_left: BATCH_WAIT_ROUNDS })
            },
            (BatchState::Waiting { rounds_left }, BatchEvent::LocksChecked(free)) => {
                let m = unknown_of(&self.counts);
                let (q, k) = select_claimed(&self.items, &self.keys, &m);
                if free || rounds_left == 0 {
                    self.state = BatchState::Rereading;
                    BatchAction::ReadCache(q)
                } else {
                    self.state = BatchState::Waiting { rounds_left: rounds_left - 1 };
                    BatchAction::CheckLocks { keys: k, after_millis: BATCH_WAIT_MILLIS }
                }
            },
            (BatchState::QueryingDbAgain, BatchEvent::DbCounts(r)) => {
                self.state = BatchState::Finished;
                match r {
                    Ok(rows) => {
                        let m = unknown_of(&self.counts);
                        proof {
                            lemma_db_fills_unknown(self.items@, self.counts@, rows@);
                        }
                        self.counts = filled_from_db(&self.items, &self.counts, &m, &rows);
                        BatchAction::Finish { result: Ok(answer_of(&self.items, &self.counts)), release: Vec::new() }
                    },
                    Err(e) => BatchAction::Finish { result: Err(e), release: Vec::new() },
                }
            },
            _ => BatchAction::Finish { result: Ok(Vec::new()), release: Vec::new() },
        }
    }
}

fn copy_items(items: &Vec<ContentItem>) -> (r: Vec<ContentItem>)
    ensures
        r@ == items@,
{
    let mut r: Vec<ContentItem> = Vec::new();
    let mut i: usize = 0;
    while i < items.len()
        invariant
            i <= items@.len(),
            r@ == items@.take(i as int),
        decreases items@.len() - i,
    {
        r.push(items[i].clone());
        assert(items@.take(i + 1) =~= items@.take(i as int).push(items@[i as int]));
        i = i + 1;
    }
    assert(items@.take(items@.len() as int) =~= items@);
    r
}

/// Every batch answer gives each item asked, in order, with its own type and
/// identifier, and a count for it: none is left out, none is added.
pub proof fn law_batch_answers_every_item(f: BatchCountFlow, ev: BatchEvent, g: BatchCountFlow, a: BatchAction)
    requires
        f.wf(),
        batch_expects(f, ev),
        batch_step(f, ev, g, a),
    ensures
        a matches BatchAction::Finish { result: Ok(r), .. } ==> answers_all(r@, f.items@, g.counts@),
{
}

/// The count locks a batch takes are handed back on every path: once the
/// database answered for the locked items, with or without an error, the
/// next action releases exactly those locks.
pub proof fn law_batch_locks_released(f: BatchCountFlow, ev: BatchEvent, g: BatchCountFlow, a: BatchAction)
    requires
        f.wf(),
        f.state == BatchState::QueryingDb,
        batch_expects(f, ev),
        batch_step(f, ev, g, a),
    ensures
        a matches BatchAction::StoreAndRelease { keys, .. } ==> keys@ == claimed_of(f.keys@, f.claimed@),
        a matches BatchAction::Finish { release, .. } ==> release@ == claimed_of(f.keys@, f.claimed@),
        a is StoreAndRelease || a is Finish,
{
}

/// Items whose lock another request holds are not dropped: the batch waits
/// for those locks (a bounded number of looks), reads the cache again, and
/// asks the database for what the cache still lacks.
pub proof fn law_waiters_reread_then_count(f: BatchCountFlow, ev: BatchEvent, g: BatchCountFlow, a: BatchAction)
    requires
        f.wf(),
        batch_expects(f, ev),
        batch_step(f, ev, g, a),
    ensures
        f.state is Waiting ==> (g.state == BatchState::Rereading
            && (a matches BatchAction::ReadCache(q) && q@ == claimed_of(f.items@, unknown_mask(f.counts@))))
            || (g.state is Waiting && g.state->rounds_left < f.state->rounds_left && a is CheckLocks),
        (f.state is Waiting && (ev->LocksChecked_0 || f.state->rounds_left == 0)) ==> g.state == BatchState::Rereading,
        f.state == BatchState::Rereading ==> (g.state == BatchState::Finished || (g.state
            == BatchState::QueryingDbAgain && a is QueryDb)),
        (f.state == BatchState::QueryingDbAgain && ev->DbCounts_0 is Ok) ==> all_known(g.counts@) && (a matches
            BatchAction::Finish { result: Ok(r), .. } && r@.len() == f.items@.len()),
{
    if f.state == BatchState::QueryingDbAgain && ev->DbCounts_0 is Ok {
        lemma_db_fills_unknown(f.items@, f.counts@, ev->DbCounts_0->Ok_0@);
    }
}

/// The entry a cache lookup finds is the last one with the identifier; it
/// finds none only when no entry has it.
proof fn lemma_cache_lookup_last(c: Seq<(ContentId, u64)>, id: ContentId)
    ensures
        match cache_lookup(c, id) {
            Some(x) => exists|k: int| 0 <= k < c.len() && #[trigger] c[k] == (id, x)
                && forall|k2: int| k < k2 < c.len() ==> (#[trigger] c[k2]).0 != id,
            None => forall|k: int| 0 <= k < c.len() ==> (#[trigger] c[k]).0 != id,
        },
    decreases c.len(),
{
    if c.len() > 0 {
        let p = c.drop_last();
        lemma_cache_lookup_last(p, id);
        if c.last().0 == id {
            assert(c[c.len() - 1] == (id, c.last().1));
        } else {
            match cache_lookup(p, id) {
                Some(x) => {
                    let k = choose|k: int| 0 <= k < p.len() && #[trigger] p[k] == (id, x)
                        && forall|k2: int| k < k2 < p.len() ==> (#[trigger] p[k2]).0 != id;
                    assert(c[k] == p[k]);
                    assert forall|k2: int| k < k2 < c.len() implies (#[trigger] c[k2]).0 != id by {
                        if k2 < p.len() {
                            assert(c[k2] == p[k2]);
                        }
                    }
                },
                None => {
                    assert forall|k: int| 0 <= k < c.len() implies (#[trigger] c[k]).0 != id by {
                        if k < p.len() {
                            assert(c[k] == p[k]);
                        }
                    }
                },
            }
        }
    }
}

/// The database's count of an item is the count of the first row with its
/// type and identifier, or zero when no row has them.
proof fn lemma_db_count_first(rows: Seq<ContentCount>, item: ContentItem)
    ensures
        (exists|k: int| 0 <= k < rows.len() && (#[trigger] rows[k]).content_type@ == item.content_type@
            && rows[k].content_id == item.content_id && rows[k].count == db_count(rows, item)
            && forall|k2: int| 0 <= k2 < k ==> !((#[trigger] rows[k2]).content_type@ == item.content_type@
            && rows[k2].content_id == item.content_id))
        || (db_count(rows, item) == 0 && forall|k: int| 0 <= k < rows.len() ==> !((#[trigger] rows[k]).content_type@
            == item.content_type@ && rows[k].content_id == item.content_id)),
    decreases rows.len(),
{
    if rows.len() > 0 {
        let r = rows.drop_first();
        lemma_db_count_first(r, item);
        if rows[0].content_type@ == item.content_type@ && rows[0].content_id == item.content_id {
            assert(rows[0].count == db_count(rows, item));
        } else {
            assert forall|k: int| 0 <= k < r.len() implies #[trigger] r[k] == rows[k + 1] by {}
            if exists|k: int| 0 <= k < r.len() && (#[trigger] r[k]).content_type@ == item.content_type@
                && r[k].content_id == item.content_id && r[k].count == db_count(r, item)
                && forall|k2: int| 0 <= k2 < k ==> !((#[trigger] r[k2]).content_type@ == item.content_type@
                && r[k2].content_id == item.content_id) {
                let k = choose|k: int| 0 <= k < r.len() && (#[trigger] r[k]).content_type@ == item.content_type@
                    && r[k].content_id == item.content_id && r[k].count == db_count(r, item)
                    && forall|k2: int| 0 <= k2 < k ==> !((#[trigger] r[k2]).content_type@ == item.content_type@
                    && r[k2].content_id == item.content_id);
                assert(rows[k + 1] == r[k]);
                assert forall|k2: int| 0 <= k2 < k + 1 implies !((#[trigger] rows[k2]).content_type@
                    == item.content_type@ && rows[k2].content_id == item.content_id) by {
                    if k2 > 0 {
                        assert(rows[k2] == r[k2 - 1]);
                    }
                }
            } else {
                assert forall|k: int| 0 <= k < rows.len() implies !((#[trigger] rows[k]).content_type@
                    == item.content_type@ && rows[k].content_id == item.content_id) by {
                    if k > 0 {
                        assert(rows[k] == r[k - 1]);
                    }
                }
            }
        }
    }
}

/// The counts a batch takes from the cache, over all cache answers: an item
/// whose identifier the cache lists gets the value of the last entry with
/// that identifier (as the entries put in a map one after another would
/// give); an item the cache does not list stays unknown.
pub proof fn law_batch_takes_cached_counts(f: BatchCountFlow, v: Vec<(ContentId, u64)>, g: BatchCountFlow, a: BatchAction, i: int)
    requires
        f.wf(),
        f.state == BatchState::ReadingCache || f.state == BatchState::Rereading,
        f.counts@[i] is None,
        0 <= i < f.items@.len(),
        batch_step(f, BatchEvent::CacheRead(Ok(v)), g, a),
    ensures
        match g.counts@[i] {
            Some(x) => exists|k: int| 0 <= k < v@.len() && #[trigger] v@[k] == (f.items@[i].content_id, x)
                && forall|k2: int| k < k2 < v@.len() ==> (#[trigger] v@[k2]).0 != f.items@[i].content_id,
            None => forall|k: int| 0 <= k < v@.len() ==> (#[trigger] v@[k]).0 != f.items@[i].content_id,
        },
{
    lemma_cache_lookup_last(v@, f.items@[i].content_id);
}

/// The counts a batch takes from the database, over all database answers:
/// each item asked gets the count of the first row with its type and
/// identifier, or zero when no row has them; the counts already known stay.
pub proof fn law_batch_takes_db_counts(f: BatchCountFlow, rows: Vec<ContentCount>, g: BatchCountFlow, a: BatchAction, i: int)
    requires
        f.wf(),
        f.state == BatchState::QueryingDb || f.state == BatchState::QueryingDbAgain,
        0 <= i < f.items@.len(),
        batch_step(f, BatchEvent::DbCounts(Ok(rows)), g, a),
    ensures
        f.counts@[i] is Some ==> g.counts@[i] == f.counts@[i],
        (f.counts@[i] is None && (f.state == BatchState::QueryingDbAgain || f.claimed@[i])) ==> {
            let it = f.items@[i];
            (exists|k: int| 0 <= k < rows@.len() && (#[trigger] rows@[k]).content_type@ == it.content_type@
                && rows@[k].content_id == it.content_id && g.counts@[i] == Some(rows@[k].count)
                && forall|k2: int| 0 <= k2 < k ==> !((#[trigger] rows@[k2]).content_type@ == it.content_type@
                && rows@[k2].content_id == it.content_id))
            || (g.counts@[i] == Some(0u64) && forall|k: int| 0 <= k < rows@.len() ==> !((#[trigger] rows@[k]).content_type@
                == it.content_type@ && rows@[k].content_id == it.content_id))
        },
{
    lemma_db_count_first(rows@, f.items@[i]);
    if f.state == BatchState::QueryingDbAgain {
        assert(unknown_mask(f.counts@)[i] == (f.counts@[i] is None));
    }
}

} // verus!
