use vstd::prelude::*;
use crate::content::{ContentType, Like};
use crate::dto::{BatchStatusResponse, ContentCount, ContentItem, ContentStatus};
use crate::errors::DomainError;
use crate::ids::{ContentId, UserId};
use crate::keys::{format_lock_key, lock_key, RefreshType};

verus! {

/// The most items a batch request may name.
pub const MAX_BATCH: usize = 100;

/// A batch of more than a hundred items is refused with its size.
pub fn check_batch_size(len: usize) -> (r: Result<(), DomainError>)
    ensures
        len <= MAX_BATCH ==> r is Ok,
        len > MAX_BATCH ==> r == Err::<(), DomainError>(DomainError::BatchTooLarge(len)),
{
    if len > MAX_BATCH {
        Err(DomainError::BatchTooLarge(len))
    } else {
        Ok(())
    }
}

/// The cached count of a content item: the last entry with its identifier
/// (as when the entries are put in a map one after another).
pub open spec fn cache_lookup(cached: Seq<(ContentId, u64)>, id: ContentId) -> Option<u64>
    decreases cached.len(),
{
    if cached.len() == 0 {
        None
    } else if cached.last().0 == id {
        Some(cached.last().1)
    } else {
        cache_lookup(cached.drop_last(), id)
    }
}

/// The cached count of a content item.
pub(crate) fn lookup(cached: &Vec<(ContentId, u64)>, id: ContentId) -> (r: Option<u64>)
    ensures
        r == cache_lookup(cached@, id),
{
    let mut i: usize = cached.len();
    assert(cached@.take(cached@.len() as int) =~= cached@);
    while i > 0
        invariant
            i <= cached@.len(),
            cache_lookup(cached@, id) == cache_lookup(cached@.take(i as int), id),
        decreases i,
    {
        let ghost pre = cached@.take(i as int);
        assert(pre.drop_last() =~= cached@.take(i - 1));
        if cached[i - 1].0 == id {
            return Some(cached[i - 1].1);
        }
        i = i - 1;
    }
    None
}

/// The cached counts that a multi-get answers (one optional value per item,
/// in order), as entries by identifier.
pub open spec fn mget_entries(items: Seq<ContentItem>, values: Seq<Option<u64>>) -> Seq<(ContentId, u64)>
    decreases items.len(),
{
    if items.len() == 0 || values.len() == 0 {
        Seq::empty()
    } else {
        let n = if items.len() < values.len() { items.len() } else { values.len() };
        let prev = mget_entries(items.take(n - 1), values.take(n - 1));
        match values[n - 1] {
            Some(c) => prev.push((items[n - 1].content_id, c)),
            None => prev,
        }
    }
}

/// The cached counts that a multi-get answers, as entries by identifier
/// (items and values paired in order; items without a value are left out).
pub fn counts_from_mget(items: &Vec<ContentItem>, values: &Vec<Option<u64>>) -> (r: Vec<(ContentId, u64)>)
    ensures
        r@ == mget_entries(items@, values@),
{
    let n = if items.len() < values.len() { items.len() } else { values.len() };
    let mut r: Vec<(ContentId, u64)> = Vec::new();
    let mut i: usize = 0;
    while i < n
        invariant
            n <= items@.len(),
            n <= values@.len(),
            n == items@.len() || n == values@.len(),
            i <= n,
            r@ == mget_entries(items@.take(i as int), values@.take(i as int)),
        decreases n - i,
    {
        proof {
            let it = items@.take(i + 1);
            let vs = values@.take(i + 1);
            assert(it.take(i as int) =~= items@.take(i as int));
            assert(vs.take(i as int) =~= values@.take(i as int));
        }
        match values[i] {
            Some(c) => r.push((items[i].content_id, c)),
            None => {},
        }
        i = i + 1;
    }
    proof {
        if n == items@.len() {
            assert(items@.take(n as int) =~= items@);
            lemma_mget_extra_values(items@, values@, n as int);
        } else {
            assert(values@.take(n as int) =~= values@);
            lemma_mget_extra_items(items@, values@, n as int);
        }
    }
    r
}

proof fn lemma_mget_extra_values(items: Seq<ContentItem>, values: Seq<Option<u64>>, n: int)
    requires
        n == items.len(),
        n <= values.len(),
    ensures
        mget_entries(items, values.take(n)) == mget_entries(items, values),
    decreases items.len(),
{
    if n > 0 {
        assert(values.take(n).take(n - 1) =~= values.take(n - 1));
    }
}

proof fn lemma_mget_extra_items(items: Seq<ContentItem>, values: Seq<Option<u64>>, n: int)
    requires
        n == values.len(),
        n <= items.len(),
    ensures
        mget_entries(items.take(n), values) == mget_entries(items, values),
    decreases values.len(),
{
    if n > 0 {
        assert(items.take(n).take(n - 1) =~= items.take(n - 1));
    }
}

/// The single-flight lock keys of the items' counters, in order.
pub fn count_lock_keys(items: &Vec<ContentItem>) -> (keys: Vec<String>)
    ensures
        keys@.len() == items@.len(),
        forall|i: int| 0 <= i < items@.len() ==> #[trigger] keys@[i]@ == lock_key(RefreshType::Count,
            items@[i].content_type@, items@[i].content_id.0),
{
    let mut keys: Vec<String> = Vec::new();
    let mut i: usize = 0;
    while i < items.len()
        invariant
            i <= items@.len(),
            keys@.len() == i,
            forall|j: int| 0 <= j < i ==> #[trigger] keys@[j]@ == lock_key(RefreshType::Count,
                items@[j].content_type@, items@[j].content_id.0),
        decreases items@.len() - i,
    {
        keys.push(format_lock_key(RefreshType::Count, &items[i].content_type, &items[i].content_id));
        i = i + 1;
    }
    keys
}

/// The elements whose flag is set, in order.
pub open spec fn claimed_of<T>(xs: Seq<T>, claimed: Seq<bool>) -> Seq<T>
    decreases xs.len(),
{
    if xs.len() == 0 {
        Seq::empty()
    } else {
        let prev = claimed_of(xs.drop_last(), claimed);
        if claimed[xs.len() - 1] {
            prev.push(xs.last())
        } else {
            prev
        }
    }
}

/// The items (and their lock keys) whose flag is set, in order.
pub fn select_claimed(missing: &Vec<ContentItem>, keys: &Vec<String>, claimed: &Vec<bool>) -> (r: (Vec<ContentItem>, Vec<String>))
    requires
        keys@.len() == missing@.len(),
        claimed@.len() == missing@.len(),
    ensures
        r.0@ == claimed_of(missing@, claimed@),
        r.1@ == claimed_of(keys@, claimed@),
{
    let mut items: Vec<ContentItem> = Vec::new();
    let mut ks: Vec<String> = Vec::new();
    let mut i: usize = 0;
    while i < missing.len()
        invariant
            i <= missing@.len(),
            keys@.len() == missing@.len(),
            claimed@.len() == missing@.len(),
            items@ == claimed_of(missing@.take(i as int), claimed@),
            ks@ == claimed_of(keys@.take(i as int), claimed@),
        decreases missing@.len() - i,
    {
        assert(missing@.take(i + 1).drop_last() =~= missing@.take(i as int));
        assert(keys@.take(i + 1).drop_last() =~= keys@.take(i as int));
        if claimed[i] {
            items.push(missing[i].clone());
            ks.push(keys[i].clone());
        }
        i = i + 1;
    }
    assert(missing@.take(missing@.len() as int) =~= missing@);
    assert(keys@.take(keys@.len() as int) =~= keys@);
    (items, ks)
}

/// Copies a list of counts.
pub fn copy_counts(counts: &Vec<ContentCount>) -> (r: Vec<ContentCount>)
    ensures
        r@ == counts@,
{
    let mut r: Vec<ContentCount> = Vec::new();
    let mut i: usize = 0;
    while i < counts.len()
        invariant
            i <= counts@.len(),
            r@ == counts@.take(i as int),
        decreases counts@.len() - i,
    {
        r.push(counts[i].clone());
        assert(counts@.take(i + 1) =~= counts@.take(i as int).push(counts@[i as int]));
        i = i + 1;
    }
    assert(counts@.take(counts@.len() as int) =~= counts@);
    r
}

/// The time of a user's like of an item among the likes found: the last one
/// by that user, of that type and identifier.
pub open spec fn like_time(likes: Seq<Like>, user: UserId, c_type: Seq<char>, c_id: ContentId) -> Option<i64>
    decreases likes.len(),
{
    if likes.len() == 0 {
        None
    } else {
        let l = likes.last();
        if l.user_id == user && l.content_type@ == c_type && l.content_id == c_id {
            Some(l.created_at)
        } else {
            like_time(likes.drop_last(), user, c_type, c_id)
        }
    }
}

fn find_like_time(likes: &Vec<Like>, user: UserId, c_type: &ContentType, c_id: ContentId) -> (r: Option<i64>)
    ensures
        r == like_time(likes@, user, c_type@, c_id),
{
    let mut i: usize = likes.len();
    assert(likes@.take(likes@.len() as int) =~= likes@);
    while i > 0
        invariant
            i <= likes@.len(),
            like_time(likes@, user, c_type@, c_id) == like_time(likes@.take(i as int), user, c_type@, c_id),
        decreases i,
    {
        let ghost pre = likes@.take(i as int);
        assert(pre.drop_last() =~= likes@.take(i - 1));
        let l = &likes[i - 1];
        if l.user_id == user && l.content_type.same_as(c_type) && l.content_id == c_id {
            return Some(l.created_at);
        }
        i = i - 1;
    }
    None
}

/// The status of an item for a user among the likes found.
pub open spec fn status_of(user: UserId, item: ContentItem, likes: Seq<Like>) -> ContentStatus {
    let t = like_time(likes, user, item.content_type@, item.content_id);
    ContentStatus { content_type: item.content_type, content_id: item.content_id, liked: t is Some, liked_at: t }
}

/// The statuses of a batch of items for a user, in their order, from the
/// likes that the database found among them (likes of other users count for
/// nothing).
pub fn statuses_of(user: &UserId, items: Vec<ContentItem>, likes: &Vec<Like>) -> (r: BatchStatusResponse)
    ensures
        r.results@.len() == items@.len(),
        forall|i: int| 0 <= i < items@.len() ==> #[trigger] r.results@[i] == status_of(*user, items@[i], likes@),
{
    let mut results: Vec<ContentStatus> = Vec::new();
    let mut i: usize = 0;
    while i < items.len()
        invariant
            i <= items@.len(),
            results@.len() == i,
            forall|j: int| 0 <= j < i ==> #[trigger] results@[j] == status_of(*user, items@[j], likes@),
        decreases items@.len() - i,
    {
        let item = &items[i];
        let t = find_like_time(likes, *user, &item.content_type, item.content_id);
        let liked = match t {
            Some(_) => true,
            None => false,
        };
        results.push(ContentStatus {
            content_type: item.content_type.clone(),
            content_id: item.content_id,
            liked,
            liked_at: t,
        });
        i = i + 1;
    }
    BatchStatusResponse { results }
}

/// A user's batch of statuses answers "liked" for exactly the items the
/// database found a like of by that user, with that like's time.
pub proof fn law_status_liked_iff_found(user: UserId, item: ContentItem, likes: Seq<Like>)
    ensures
        status_of(user, item, likes).liked <==> like_time(likes, user, item.content_type@, item.content_id) is Some,
        status_of(user, item, likes).liked_at == like_time(likes, user, item.content_type@, item.content_id),
{
}

/// Likes of other users never change a user's statuses: adding them to the
/// likes found leaves every status as it was.
pub proof fn law_status_ignores_other_users(user: UserId, item: ContentItem, likes: Seq<Like>, others: Seq<Like>)
    requires
        forall|j: int| 0 <= j < others.len() ==> (#[trigger] others[j]).user_id != user,
    ensures
        status_of(user, item, likes + others) == status_of(user, item, likes),
    decreases others.len(),
{
    if others.len() > 0 {
        let rest = others.drop_last();
        assert((likes + others).drop_last() =~= likes + rest);
        assert(others.last() == others[others.len() - 1]);
        law_status_ignores_other_users(user, item, likes, rest);
    } else {
        assert(likes + others =~= likes);
    }
}

} // verus!
