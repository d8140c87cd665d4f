use vstd::prelude::*;
use vstd::string::StringExecFns;
use crate::ids::{uuid_text, ContentId, UserId};
use crate::content::ContentType;
use crate::config::Config;

verus! {

/// The part of a key before its first `:` (the whole key if it has none).
pub open spec fn first_segment(s: Seq<char>) -> Seq<char>
    decreases s.len(),
{
    if s.len() == 0 {
        s
    } else if s[0] == ':' {
        Seq::empty()
    } else {
        seq![s[0]] + first_segment(s.drop_first())
    }
}

proof fn lemma_first_segment_prefix(a: Seq<char>, b: Seq<char>)
    requires
        forall|i: int| 0 <= i < a.len() ==> a[i] != ':',
    ensures
        first_segment(a + seq![':'] + b) == a,
    decreases a.len(),
{
    if a.len() == 0 {
        assert((a + seq![':'] + b)[0] == ':');
    } else {
        lemma_first_segment_prefix(a.drop_first(), b);
        assert((a + seq![':'] + b).drop_first() =~= a.drop_first() + seq![':'] + b);
        assert(a =~= seq![a[0]] + a.drop_first());
    }
}

proof fn lemma_first_segment_at(s: Seq<char>, n: int)
    requires
        0 <= n <= s.len(),
        forall|i: int| 0 <= i < n ==> s[i] != ':',
        n < s.len() ==> s[n] == ':',
    ensures
        first_segment(s) == s.subrange(0, n),
    decreases n,
{
    if n == 0 {
        if s.len() > 0 {
            assert(s[0] == ':');
        }
        assert(s.subrange(0, 0) =~= Seq::<char>::empty());
    } else {
        lemma_first_segment_at(s.drop_first(), n - 1);
        assert(s.subrange(0, n) =~= seq![s[0]] + s.drop_first().subrange(0, n - 1));
    }
}

/// Whether the part of `key` before its first `:` is `word`.
fn first_segment_is(key: &str, word: &str) -> (r: bool)
    ensures
        r == (first_segment(key@) == word@),
{
    let len = key.unicode_len();
    let mut n: usize = 0;
    while n < len && key.get_char(n) != ':'
        invariant
            len == key@.len(),
            n <= len,
            forall|i: int| 0 <= i < n ==> key@[i] != ':',
        decreases len - n,
    {
        n = n + 1;
    }
    proof {
        lemma_first_segment_at(key@, n as int);
    }
    let wlen = word.unicode_len();
    if wlen != n {
        return false;
    }
    let mut i: usize = 0;
    while i < n
        invariant
            n == wlen,
            wlen == word@.len(),
            n <= key@.len(),
            first_segment(key@) == key@.subrange(0, n as int),
            i <= n,
            forall|j: int| 0 <= j < i ==> key@[j] == word@[j],
        decreases n - i,
    {
        if key.get_char(i) != word.get_char(i) {
            assert(key@.subrange(0, n as int)[i as int] != word@[i as int]);
            return false;
        }
        i = i + 1;
    }
    assert(key@.subrange(0, n as int) =~= word@);
    true
}

/// The cache key of a like counter: `count:<type>:<id>`.
pub open spec fn count_key(c_type: Seq<char>, c_id: u128) -> Seq<char> {
    "count:"@ + c_type + ":"@ + uuid_text(c_id)
}

/// The pub/sub channel of a content item's events: `sse:events:<type>:<id>`.
pub open spec fn channel_key(c_type: Seq<char>, c_id: u128) -> Seq<char> {
    "sse:events:"@ + c_type + ":"@ + uuid_text(c_id)
}

/// The kinds of leaderboard keys.
#[derive(Debug, Clone, Copy, PartialEq, Eq, Structural)]
pub enum LeadKeyType {
    Data,
    Canary,
    Lock,
}

/// The name of a kind of leaderboard key.
pub open spec fn lead_kind_name(k: LeadKeyType) -> Seq<char> {
    match k {
        LeadKeyType::Data => "data"@,
        LeadKeyType::Canary => "canary"@,
        LeadKeyType::Lock => "lock"@,
    }
}

impl LeadKeyType {
    /// The name of the kind of key.
    pub fn as_str(&self) -> (s: &'static str)
        ensures
            s@ == lead_kind_name(*self),
    {
        match self {
            LeadKeyType::Data => "data",
            LeadKeyType::Canary => "canary",
            LeadKeyType::Lock => "lock",
        }
    }
}

/// A leaderboard key: `leaderboard:<kind>:<window>:<type>`.
pub open spec fn lead_key(k: LeadKeyType, window: Seq<char>, c_type: Seq<char>) -> Seq<char> {
    "leaderboard:"@ + lead_kind_name(k) + ":"@ + window + ":"@ + c_type
}

/// The cache key of a like counter: `count:<type>:<id>`.
pub fn format_count_key(c_type: &ContentType, c_id: &ContentId) -> (k: String)
    ensures
        k@ == count_key(c_type@, c_id.0),
{
    let mut k = String::from_str("count:");
    k.append(c_type.as_str());
    k.append(":");
    let id = c_id.to_text();
    k.append(id.as_str());
    k
}

/// The pub/sub channel of a content item's events: `sse:events:<type>:<id>`.
pub fn format_channel_key(c_type: &ContentType, c_id: &ContentId) -> (k: String)
    ensures
        k@ == channel_key(c_type@, c_id.0),
{
    let mut k = String::from_str("sse:events:");
    k.append(c_type.as_str());
    k.append(":");
    let id = c_id.to_text();
    k.append(id.as_str());
    k
}

/// The pattern that matches every event channel: `sse:events:*`.
pub fn format_all_channels_key() -> (k: String)
    ensures
        k@ == "sse:events:*"@,
{
    String::from_str("sse:events:*")
}

/// A leaderboard key: `leaderboard:<kind>:<window>:<type>`.
pub fn format_lead_key(k_type: LeadKeyType, window: &str, c_type: &ContentType) -> (k: String)
    ensures
        k@ == lead_key(k_type, window@, c_type@),
{
    let mut k = String::from_str("leaderboard:");
    k.append(k_type.as_str());
    k.append(":");
    k.append(window);
    k.append(":");
    k.append(c_type.as_str());
    k
}

/// The time to live of a cache key, chosen by the part before its first `:`.
pub open spec fn ttl_of_key(config: &Config, key: Seq<char>) -> i64 {
    let p = first_segment(key);
    if p == "count"@ {
        config.cache_ttl_like_counts_secs
    } else if p == "leaderboard"@ {
        config.cache_ttl_like_counts_secs
    } else if p == "validation"@ {
        config.cache_ttl_content_validation_secs
    } else {
        300
    }
}

/// The time to live (seconds) of a cache key: like counts and leaderboards
/// live as long as configured for counts, validations as configured for
/// them, anything else five minutes.
pub fn get_ttl_for_key(config: &Config, key: &str) -> (t: i64)
    ensures
        t == ttl_of_key(config, key@),
{
    if first_segment_is(key, "count") {
        config.cache_ttl_like_counts_secs
    } else if first_segment_is(key, "leaderboard") {
        config.cache_ttl_like_counts_secs
    } else if first_segment_is(key, "validation") {
        config.cache_ttl_content_validation_secs
    } else {
        300
    }
}

/// The key under which the live-event channel of a content item is kept:
/// `<type>:<id>`.
pub open spec fn sse_channel_key(c_type: Seq<char>, c_id: u128) -> Seq<char> {
    c_type + ":"@ + uuid_text(c_id)
}

/// The key under which the live-event channel of a content item is kept.
pub fn get_key(c_type: &ContentType, c_id: &ContentId) -> (k: String)
    ensures
        k@ == sse_channel_key(c_type@, c_id.0),
{
    let mut k = c_type.to_text();
    k.append(":");
    let id = c_id.to_text();
    k.append(id.as_str());
    k
}

/// What a single-flight lock guards.
#[derive(Debug, Clone, Copy, PartialEq, Eq, Structural)]
pub enum RefreshType {
    Count,
    Leaderboard,
}

/// The single-flight lock key of a refresh.
pub open spec fn lock_key(rtype: RefreshType, c_type: Seq<char>, c_id: u128) -> Seq<char> {
    match rtype {
        RefreshType::Count => "lock:count:"@ + c_type + ":"@ + uuid_text(c_id),
        RefreshType::Leaderboard => "lock:leaderboard:"@ + c_type,
    }
}

/// The single-flight lock key of a refresh.
pub fn format_lock_key(rtype: RefreshType, c_type: &ContentType, c_id: &ContentId) -> (k: String)
    ensures
        k@ == lock_key(rtype, c_type@, c_id.0),
{
    match rtype {
        RefreshType::Count => {
            let mut k = String::from_str("lock:count:");
            k.append(c_type.as_str());
            k.append(":");
            let id = c_id.to_text();
            k.append(id.as_str());
            k
        },
        RefreshType::Leaderboard => {
            let mut k = String::from_str("lock:leaderboard:");
            k.append(c_type.as_str());
            k
        },
    }
}

/// The cache key of a user's token validation: `val:user:<id>`.
pub fn user_validation_key(token: &UserId) -> (k: String)
    ensures
        k@ == "val:user:"@ + uuid_text(token.0),
{
    let mut k = String::from_str("val:user:");
    let id = token.to_text();
    k.append(id.as_str());
    k
}

/// The cache key of a content item's validation: `val:content:<type>:<id>`.
pub fn content_validation_key(c_type: &ContentType, c_id: &ContentId) -> (k: String)
    ensures
        k@ == "val:content:"@ + c_type@ + ":"@ + uuid_text(c_id.0),
{
    let mut k = String::from_str("val:content:");
    k.append(c_type.as_str());
    k.append(":");
    let id = c_id.to_text();
    k.append(id.as_str());
    k
}

/// The rate-limit bucket of a request: by user when one is authenticated,
/// else by client address, else a shared bucket.
pub open spec fn rate_limit_key(user: Option<UserId>, ip: Option<Seq<char>>) -> Seq<char> {
    match user {
        Some(u) => "rl:user:"@ + uuid_text(u.0),
        None => match ip {
            Some(a) => "rl:ip:"@ + a,
            None => "rl:unknown"@,
        },
    }
}

/// The rate-limit bucket of a request.
pub fn extract_key(user: Option<UserId>, ip: Option<&str>) -> (k: String)
    ensures
        k@ == rate_limit_key(user, match ip { Some(a) => Some(a@), None => None }),
{
    match user {
        Some(u) => {
            let mut k = String::from_str("rl:user:");
            let id = u.to_text();
            k.append(id.as_str());
            k
        },
        None => match ip {
            Some(a) => {
                let mut k = String::from_str("rl:ip:");
                k.append(a);
                k
            },
            None => String::from_str("rl:unknown"),
        },
    }
}

/// Like counters live in the cache as long as the configuration says for
/// counts, whatever the content type and identifier.
pub proof fn law_count_key_ttl(config: &Config, c_type: Seq<char>, c_id: u128)
    ensures
        ttl_of_key(config, count_key(c_type, c_id)) == config.cache_ttl_like_counts_secs,
{
    reveal_strlit("count:");
    reveal_strlit("count");
    reveal_strlit(":");
    let key = count_key(c_type, c_id);
    assert(key =~= "count"@ + seq![':'] + (c_type + ":"@ + uuid_text(c_id)));
    lemma_first_segment_prefix("count"@, c_type + ":"@ + uuid_text(c_id));
}

/// Leaderboard entries live in the cache as long as the configuration says
/// for counts, whatever their kind, window and content type.
pub proof fn law_lead_key_ttl(config: &Config, k: LeadKeyType, window: Seq<char>, c_type: Seq<char>)
    ensures
        ttl_of_key(config, lead_key(k, window, c_type)) == config.cache_ttl_like_counts_secs,
{
    reveal_strlit("leaderboard:");
    reveal_strlit("leaderboard");
    reveal_strlit("count");
    reveal_strlit(":");
    let rest = lead_kind_name(k) + ":"@ + window + ":"@ + c_type;
    assert(lead_key(k, window, c_type) =~= "leaderboard"@ + seq![':'] + rest);
    lemma_first_segment_prefix("leaderboard"@, rest);
    assert("leaderboard"@.len() != "count"@.len());
}

/// Two keys made of a type, `:` and an identifier's text are equal only for
/// the same type and the same identifier text (the text has a fixed length).
proof fn lemma_type_id_key(p: Seq<char>, t1: Seq<char>, id1: u128, t2: Seq<char>, id2: u128)
    requires
        p + t1 + ":"@ + uuid_text(id1) == p + t2 + ":"@ + uuid_text(id2),
    ensures
        t1 == t2,
        uuid_text(id1) == uuid_text(id2),
{
    reveal_strlit(":");
    let k1 = p + t1 + ":"@ + uuid_text(id1);
    let k2 = p + t2 + ":"@ + uuid_text(id2);
    assert(uuid_text(id1).len() == 36);
    assert(uuid_text(id2).len() == 36);
    assert(":"@.len() == 1);
    assert(k1.len() == p.len() + t1.len() + 1 + 36);
    assert(k2.len() == p.len() + t2.len() + 1 + 36);
    assert(t1.len() == t2.len());
    assert forall|i: int| 0 <= i < t1.len() implies t1[i] == t2[i] by {
        assert(k1[p.len() + i] == t1[i]);
        assert(k2[p.len() + i] == t2[i]);
    }
    assert(t1 =~= t2);
    assert forall|i: int| 0 <= i < 36 implies uuid_text(id1)[i] == uuid_text(id2)[i] by {
        assert(k1[p.len() + t1.len() + 1 + i] == uuid_text(id1)[i]);
        assert(k2[p.len() + t2.len() + 1 + i] == uuid_text(id2)[i]);
    }
    assert(uuid_text(id1) =~= uuid_text(id2));
}

/// Two content items share a cache event channel only if they have the same
/// type and the same identifier text.
pub proof fn law_channels_isolated(t1: Seq<char>, id1: u128, t2: Seq<char>, id2: u128)
    requires
        channel_key(t1, id1) == channel_key(t2, id2),
    ensures
        t1 == t2,
        uuid_text(id1) == uuid_text(id2),
{
    lemma_type_id_key("sse:events:"@, t1, id1, t2, id2);
}

/// Two content items share a local subscriber channel only if they have the
/// same type and the same identifier text: an event is handed only to the
/// subscribers of its own item.
pub proof fn law_subscriber_channels_isolated(t1: Seq<char>, id1: u128, t2: Seq<char>, id2: u128)
    requires
        sse_channel_key(t1, id1) == sse_channel_key(t2, id2),
    ensures
        t1 == t2,
        uuid_text(id1) == uuid_text(id2),
{
    assert(Seq::<char>::empty() + t1 =~= t1);
    assert(Seq::<char>::empty() + t2 =~= t2);
    lemma_type_id_key(Seq::empty(), t1, id1, t2, id2);
}

} // verus!
