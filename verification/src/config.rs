use vstd::prelude::*;
use vstd::string::StringExecFns;
use crate::content::{lowercased, str_equal, to_lowercase};
use crate::parse::{i64_of_text, parse_i64, parse_u16, parse_u64, u16_of_text, u64_of_text};

verus! {

/// The base URLs of the content services, by content type. No content type
/// occurs twice.
#[derive(Debug)]
pub struct ContentApis {
    entries: Vec<(String, String)>,
}

/// The keys of a list of pairs.
pub open spec fn keys_of(entries: Seq<(String, String)>) -> Seq<Seq<char>> {
    entries.map_values(|e: (String, String)| e.0@)
}

impl ContentApis {
    /// No content type occurs twice.
    pub closed spec fn wf(&self) -> bool {
        forall|i: int, j: int|
            0 <= i < j < self.entries@.len() ==> #[trigger] self.entries@[i].0@ != #[trigger] self.entries@[j].0@
    }

    /// The base URL of each content type.
    pub closed spec fn view(&self) -> Map<Seq<char>, Seq<char>> {
        Map::new(
            |k: Seq<char>| exists|i: int| 0 <= i < self.entries@.len() && #[trigger] self.entries@[i].0@ == k,
            |k: Seq<char>| {
                let i = choose|i: int| 0 <= i < self.entries@.len() && #[trigger] self.entries@[i].0@ == k;
                self.entries@[i].1@
            },
        )
    }

    /// No content service.
    pub fn new() -> (r: Self)
        ensures
            r.wf(),
            r.view() == Map::<Seq<char>, Seq<char>>::empty(),
    {
        let r = ContentApis { entries: Vec::new() };
        assert(r.view() =~= Map::<Seq<char>, Seq<char>>::empty());
        r
    }

    /// The number of content services.
    pub fn len(&self) -> (n: usize)
        requires
            self.wf(),
        ensures
            n == self.view().dom().len(),
    {
        proof {
            self.lemma_dom_len();
        }
        self.entries.len()
    }

    proof fn lemma_dom_len(&self)
        requires
            self.wf(),
        ensures
            self.view().dom().finite(),
            self.view().dom().len() == self.entries@.len(),
        decreases self.entries@.len(),
    {
        let keys = keys_of(self.entries@);
        assert forall|i: int, j: int| 0 <= i < j < keys.len() implies keys[i] != keys[j] by {
            assert(self.entries@[i].0@ != self.entries@[j].0@);
        }
        assert(keys.no_duplicates());
        keys.unique_seq_to_set();
        assert(self.view().dom() =~= keys.to_set()) by {
            assert forall|k: Seq<char>| self.view().dom().contains(k) implies keys.to_set().contains(k) by {
                let i = choose|i: int| 0 <= i < self.entries@.len() && #[trigger] self.entries@[i].0@ == k;
                assert(keys[i] == k);
            }
            assert forall|k: Seq<char>| keys.to_set().contains(k) implies self.view().dom().contains(k) by {
                let i = choose|i: int| 0 <= i < keys.len() && keys[i] == k;
                assert(self.entries@[i].0@ == k);
            }
        }
    }

    fn find(&self, key: &str) -> (r: Option<usize>)
        requires
            self.wf(),
        ensures
            r matches Some(i) ==> i < self.entries@.len() && self.entries@[i as int].0@ == key@,
            r is None ==> forall|i: int| 0 <= i < self.entries@.len() ==> #[trigger] self.entries@[i].0@ != key@,
    {
        let mut i: usize = 0;
        while i < self.entries.len()
            invariant
                i <= self.entries@.len(),
                forall|j: int| 0 <= j < i ==> #[trigger] self.entries@[j].0@ != key@,
            decreases self.entries@.len() - i,
        {
            if str_equal(self.entries[i].0.as_str(), key) {
                return Some(i);
            }
            i = i + 1;
        }
        None
    }

    /// The base URL of a content type, if one is configured.
    pub fn get(&self, key: &str) -> (r: Option<&String>)
        requires
            self.wf(),
        ensures
            r is Some <==> self.view().dom().contains(key@),
            r matches Some(v) ==> v@ == self.view()[key@],
    {
        match self.find(key) {
            Some(i) => {
                proof {
                    let k = key@;
                    assert(self.entries@[i as int].0@ == k);
                    let j = choose|j: int| 0 <= j < self.entries@.len() && #[trigger] self.entries@[j].0@ == k;
                    if j != i {
                        if j < i {
                            assert(self.entries@[j].0@ != self.entries@[i as int].0@);
                        } else {
                            assert(self.entries@[i as int].0@ != self.entries@[j].0@);
                        }
                    }
                }
                Some(&self.entries[i].1)
            },
            None => {
                proof {
                    if self.view().dom().contains(key@) {
                        let j = choose|j: int| 0 <= j < self.entries@.len() && #[trigger] self.entries@[j].0@ == key@;
                        assert(self.entries@[j].0@ != key@);
                    }
                }
                None
            },
        }
    }

    /// Sets the base URL of a content type, replacing the one it had.
    pub fn insert(&mut self, key: String, value: String)
        requires
            old(self).wf(),
        ensures
            final(self).wf(),
            final(self).view() == old(self).view().insert(key@, value@),
    {
        let ghost old_entries = self.entries@;
        let ghost k = key@;
        let ghost v = value@;
        match self.find(key.as_str()) {
            Some(i) => {
                self.entries.set(i, (key, value));
                proof {
                    assert forall|a: int, b: int| 0 <= a < b < self.entries@.len() implies
                        #[trigger] self.entries@[a].0@ != #[trigger] self.entries@[b].0@ by {
                        assert(old_entries[a].0@ != old_entries[b].0@);
                    }
                    assert(self.view() =~= old(self).view().insert(k, v)) by {
                        assert forall|q: Seq<char>| #[trigger] self.view().dom().contains(q) <==> old(self).view().insert(k, v).dom().contains(q) by {
                            if q != k {
                                if self.view().dom().contains(q) {
                                    let j = choose|j: int| 0 <= j < self.entries@.len() && #[trigger] self.entries@[j].0@ == q;
                                    assert(old_entries[j].0@ == q);
                                }
                                if old(self).view().dom().contains(q) {
                                    let j = choose|j: int| 0 <= j < old_entries.len() && #[trigger] old_entries[j].0@ == q;
                                    assert(self.entries@[j].0@ == q);
                                }
                            } else {
                                assert(self.entries@[i as int].0@ == q);
                            }
                        }
                        assert forall|q: Seq<char>| #[trigger] self.view().dom().contains(q) implies self.view()[q] == old(self).view().insert(k, v)[q] by {
                            let j = choose|j: int| 0 <= j < self.entries@.len() && #[trigger] self.entries@[j].0@ == q;
                            if q == k {
                                if j != i {
                                    if j < i {
                                        assert(self.entries@[j].0@ != self.entries@[i as int].0@);
                                    } else {
                                        assert(self.entries@[i as int].0@ != self.entries@[j].0@);
                                    }
                                }
                            } else {
                                assert(old_entries[j].0@ == q);
                                let j2 = choose|j2: int| 0 <= j2 < old_entries.len() && #[trigger] old_entries[j2].0@ == q;
                                if j2 != j {
                                    if j2 < j {
                                        assert(old_entries[j2].0@ != old_entries[j].0@);
                                    } else {
                                        assert(old_entries[j].0@ != old_entries[j2].0@);
                                    }
                                }
                            }
                        }
                    }
                }
            },
            None => {
                self.entries.push((key, value));
                proof {
                    let n = old_entries.len();
                    assert forall|a: int, b: int| 0 <= a < b < self.entries@.len() implies
                        #[trigger] self.entries@[a].0@ != #[trigger] self.entries@[b].0@ by {
                        if b < n {
                            assert(old_entries[a].0@ != old_entries[b].0@);
                        } else {
                            assert(old_entries[a].0@ != k);
                        }
                    }
                    assert(self.view() =~= old(self).view().insert(k, v)) by {
                        assert forall|q: Seq<char>| #[trigger] self.view().dom().contains(q) <==> old(self).view().insert(k, v).dom().contains(q) by {
                            if q != k {
                                if self.view().dom().contains(q) {
                                    let j = choose|j: int| 0 <= j < self.entries@.len() && #[trigger] self.entries@[j].0@ == q;
                                    assert(old_entries[j].0@ == q);
                                }
                                if old(self).view().dom().contains(q) {
                                    let j = choose|j: int| 0 <= j < old_entries.len() && #[trigger] old_entries[j].0@ == q;
                                    assert(self.entries@[j].0@ == q);
                                }
                            } else {
                                assert(self.entries@[n as int].0@ == q);
                            }
                        }
                        assert forall|q: Seq<char>| #[trigger] self.view().dom().contains(q) implies self.view()[q] == old(self).view().insert(k, v)[q] by {
                            let j = choose|j: int| 0 <= j < self.entries@.len() && #[trigger] self.entries@[j].0@ == q;
                            if q == k {
                                if j != n {
                                    assert(old_entries[j].0@ != k);
                                }
                            } else {
                                assert(j < n);
                                let j2 = choose|j2: int| 0 <= j2 < old_entries.len() && #[trigger] old_entries[j2].0@ == q;
                                if j2 != j {
                                    if j2 < j {
                                        assert(old_entries[j2].0@ != old_entries[j].0@);
                                    } else {
                                        assert(old_entries[j].0@ != old_entries[j2].0@);
                                    }
                                }
                            }
                        }
                    }
                }
            },
        }
    }
}

/// The settings of the service.
#[derive(Debug)]
pub struct Config {
    pub read_database_url: String,
    pub database_url: String,
    pub redis_url: String,
    pub db_max_connections: u32,
    pub db_min_connections: u32,
    pub db_acquire_timeout_secs: u64,
    pub redis_pool_size: u32,
    pub http_port: u16,
    pub log_level: String,
    pub shutdown_timeout_secs: u64,
    pub profile_api_url: String,
    pub content_apis: ContentApis,
    pub rate_limit_write_per_minute: u64,
    pub rate_limit_read_per_minute: u64,
    pub cache_ttl_like_counts_secs: i64,
    pub cache_ttl_content_validation_secs: i64,
    pub cb_failure_threshold: u64,
    pub cb_recovery_timeout_secs: u64,
    pub cb_success_threshold: u64,
    pub sse_heartbeat_interval_secs: u64,
    pub leaderboard_refresh_interval_secs: u64,
}

/// The value of an environment variable: the first one of that name.
pub open spec fn env_lookup(vars: Seq<(String, String)>, k: Seq<char>) -> Option<Seq<char>>
    decreases vars.len(),
{
    if vars.len() == 0 {
        None
    } else if vars[0].0@ == k {
        Some(vars[0].1@)
    } else {
        env_lookup(vars.drop_first(), k)
    }
}

/// The value of an environment variable, or a default.
pub open spec fn env_or(vars: Seq<(String, String)>, k: Seq<char>, d: Seq<char>) -> Seq<char> {
    match env_lookup(vars, k) {
        Some(v) => v,
        None => d,
    }
}

/// Whether a text starts with another.
pub open spec fn starts_with(s: Seq<char>, p: Seq<char>) -> bool {
    p.len() <= s.len() && s.subrange(0, p.len() as int) == p
}

/// Whether a text ends with another.
pub open spec fn ends_with(s: Seq<char>, p: Seq<char>) -> bool {
    p.len() <= s.len() && s.subrange(s.len() - p.len(), s.len() as int) == p
}

/// Whether a variable names a content service: `CONTENT_API_<TYPE>_URL`.
pub open spec fn is_content_api_key(k: Seq<char>) -> bool {
    starts_with(k, "CONTENT_API_"@) && ends_with(k, "_URL"@)
}

/// The part of a key after `CONTENT_API_`.
pub open spec fn after_api_prefix(k: Seq<char>) -> Seq<char> {
    k.subrange("CONTENT_API_"@.len() as int, k.len() as int)
}

/// A content-service variable whose name is too short to hold a type once
/// the prefix is taken off (the service panics on it).
pub open spec fn is_bad_content_api_key(k: Seq<char>) -> bool {
    is_content_api_key(k) && !ends_with(after_api_prefix(k), "_URL"@)
}

/// The content type that a content-service variable configures, lower-cased.
pub open spec fn content_api_type(k: Seq<char>) -> Seq<char> {
    let rest = after_api_prefix(k);
    lowercased(rest.subrange(0, rest.len() - "_URL"@.len()))
}

/// The content services that the variables configure, a later variable for
/// the same type replacing an earlier one.
pub open spec fn content_apis_of(vars: Seq<(String, String)>) -> Map<Seq<char>, Seq<char>>
    decreases vars.len(),
{
    if vars.len() == 0 {
        Map::empty()
    } else {
        let m = content_apis_of(vars.drop_last());
        let (k, v) = vars.last();
        if is_content_api_key(k@) {
            m.insert(content_api_type(k@), v@)
        } else {
            m
        }
    }
}

/// Whether some variable is a content-service variable the service panics on.
pub open spec fn has_bad_content_api_key(vars: Seq<(String, String)>) -> bool {
    exists|i: int| 0 <= i < vars.len() && is_bad_content_api_key(#[trigger] vars[i].0@)
}

/// The message of `Option::unwrap` on `None`.
pub open spec fn unwrap_none_message() -> Seq<char> {
    "called `Option::unwrap()` on a `None` value"@
}

/// Whether an unsigned setting (or its default) is not a valid `u64`.
pub open spec fn u64_bad(vars: Seq<(String, String)>, k: Seq<char>, d: Seq<char>) -> bool {
    u64_of_text(env_or(vars, k, d)) is None
}

/// Whether a signed setting (or its default) is not a valid `i64`.
pub open spec fn i64_bad(vars: Seq<(String, String)>, k: Seq<char>, d: Seq<char>) -> bool {
    i64_of_text(env_or(vars, k, d)) is None
}

/// The value of an unsigned setting.
pub open spec fn u64_setting(vars: Seq<(String, String)>, k: Seq<char>, d: Seq<char>) -> u64 {
    u64_of_text(env_or(vars, k, d))->Some_0
}

/// The value of a signed setting.
pub open spec fn i64_setting(vars: Seq<(String, String)>, k: Seq<char>, d: Seq<char>) -> i64 {
    i64_of_text(env_or(vars, k, d))->Some_0
}

/// The first thing wrong with the variables, in the order the settings are
/// read: a missing required variable, a setting that is not a number, a
/// malformed content-service variable. `None` when the settings are valid.
pub open spec fn config_failure(vars: Seq<(String, String)>) -> Option<Seq<char>> {
    if env_lookup(vars, "READ_DATABASE_URL"@) is None {
        Some("READ_DATABASE_URL missing"@)
    } else if env_lookup(vars, "DATABASE_URL"@) is None {
        Some("DATABASE_URL missing"@)
    } else if env_lookup(vars, "REDIS_URL"@) is None {
        Some("REDIS_URL missing"@)
    } else if u64_bad(vars, "DB_MAX_CONNECTIONS"@, "20"@) {
        Some("DB_MAX_CONNECTIONS"@ + " must be a valid u64"@)
    } else if u64_bad(vars, "DB_MIN_CONNECTIONS"@, "5"@) {
        Some("DB_MIN_CONNECTIONS"@ + " must be a valid u64"@)
    } else if u64_bad(vars, "DB_ACQUIRE_TIMEOUT_SECS"@, "5"@) {
        Some("DB_ACQUIRE_TIMEOUT_SECS"@ + " must be a valid u64"@)
    } else if u64_bad(vars, "REDIS_POOL_SIZE"@, "10"@) {
        Some("REDIS_POOL_SIZE"@ + " must be a valid u64"@)
    } else if u16_of_text(env_or(vars, "HTTP_PORT"@, "8080"@)) is None {
        Some("HTTP_PORT must be u16"@)
    } else if u64_bad(vars, "SHUTDOWN_TIMEOUT_SECS"@, "30"@) {
        Some("SHUTDOWN_TIMEOUT_SECS"@ + " must be a valid u64"@)
    } else if env_lookup(vars, "PROFILE_API_URL"@) is None {
        Some("PROFILE_API_URL missing"@)
    } else if has_bad_content_api_key(vars) {
        Some(unwrap_none_message())
    } else if u64_bad(vars, "RATE_LIMIT_WRITE_PER_MINUTE"@, "30"@) {
        Some("RATE_LIMIT_WRITE_PER_MINUTE"@ + " must be a valid u64"@)
    } else if u64_bad(vars, "RATE_LIMIT_READ_PER_MINUTE"@, "1000"@) {
        Some("RATE_LIMIT_READ_PER_MINUTE"@ + " must be a valid u64"@)
    } else if i64_bad(vars, "CACHE_TTL_LIKE_COUNTS_SECS"@, "300"@) {
        Some("CACHE_TTL_LIKE_COUNTS_SECS"@ + " must be a valid usize"@)
    } else if i64_bad(vars, "CACHE_TTL_CONTENT_VALIDATION_SECS"@, "3600"@) {
        Some("CACHE_TTL_CONTENT_VALIDATION_SECS"@ + " must be a valid usize"@)
    } else if u64_bad(vars, "CIRCUIT_BREAKER_FAILURE_THRESHOLD"@, "5"@) {
        Some("CIRCUIT_BREAKER_FAILURE_THRESHOLD"@ + " must be a valid u64"@)
    } else if u64_bad(vars, "CIRCUIT_BREAKER_RECOVERY_TIMEOUT_SECS"@, "30"@) {
        Some("CIRCUIT_BREAKER_RECOVERY_TIMEOUT_SECS"@ + " must be a valid u64"@)
    } else if u64_bad(vars, "CIRCUIT_BREAKER_SUCCESS_THRESHOLD"@, "3"@) {
        Some("CIRCUIT_BREAKER_SUCCESS_THRESHOLD"@ + " must be a valid u64"@)
    } else if u64_bad(vars, "SSE_HEARTBEAT_INTERVAL_SECS"@, "15"@) {
        Some("SSE_HEARTBEAT_INTERVAL_SECS"@ + " must be a valid u64"@)
    } else if u64_bad(vars, "LEADERBOARD_REFRESH_INTERVAL_SECS"@, "60"@) {
        Some("LEADERBOARD_REFRESH_INTERVAL_SECS"@ + " must be a valid u64"@)
    } else {
        None
    }
}

pub(crate) fn env_get<'a>(vars: &'a Vec<(String, String)>, key: &str) -> (r: Option<&'a String>)
    ensures
        match r {
            Some(v) => env_lookup(vars@, key@) == Some(v@),
            None => env_lookup(vars@, key@) is None,
        },
{
    let mut i: usize = 0;
    assert(vars@.subrange(0, vars@.len() as int) =~= vars@);
    while i < vars.len()
        invariant
            i <= vars@.len(),
            env_lookup(vars@, key@) == env_lookup(vars@.subrange(i as int, vars@.len() as int), key@),
        decreases vars@.len() - i,
    {
        assert(vars@.subrange(i as int, vars@.len() as int).drop_first() =~= vars@.subrange(i + 1, vars@.len() as int));
        if str_equal(vars[i].0.as_str(), key) {
            return Some(&vars[i].1);
        }
        i = i + 1;
    }
    None
}

fn env_text(vars: &Vec<(String, String)>, key: &str, default: &str) -> (r: String)
    ensures
        r@ == env_or(vars@, key@, default@),
{
    match env_get(vars, key) {
        Some(v) => v.clone(),
        None => String::from_str(default),
    }
}

fn env_required(vars: &Vec<(String, String)>, key: &str, missing: &str) -> (r: Result<String, String>)
    ensures
        match env_lookup(vars@, key@) {
            Some(v) => r matches Ok(x) && x@ == v,
            None => r matches Err(m) && m@ == missing@,
        },
{
    match env_get(vars, key) {
        Some(v) => Ok(v.clone()),
        None => Err(String::from_str(missing)),
    }
}

fn env_u64(vars: &Vec<(String, String)>, key: &str, default: &str) -> (r: Result<u64, String>)
    ensures
        match u64_of_text(env_or(vars@, key@, default@)) {
            Some(v) => r matches Ok(x) && x == v,
            None => r matches Err(m) && m@ == key@ + " must be a valid u64"@,
        },
{
    let t = env_text(vars, key, default);
    match parse_u64(t.as_str()) {
        Some(v) => Ok(v),
        None => {
            let mut m = String::from_str(key);
            m.append(" must be a valid u64");
            Err(m)
        },
    }
}

fn env_i64(vars: &Vec<(String, String)>, key: &str, default: &str) -> (r: Result<i64, String>)
    ensures
        match i64_of_text(env_or(vars@, key@, default@)) {
            Some(v) => r matches Ok(x) && x == v,
            None => r matches Err(m) && m@ == key@ + " must be a valid usize"@,
        },
{
    let t = env_text(vars, key, default);
    match parse_i64(t.as_str()) {
        Some(v) => Ok(v),
        None => {
            let mut m = String::from_str(key);
            m.append(" must be a valid usize");
            Err(m)
        },
    }
}

fn text_starts_with(s: &str, p: &str) -> (r: bool)
    ensures
        r == starts_with(s@, p@),
{
    let n = s.unicode_len();
    let m = p.unicode_len();
    if m > n {
        return false;
    }
    let head = s.substring_char(0, m);
    str_equal(head, p)
}

fn text_ends_with(s: &str, p: &str) -> (r: bool)
    ensures
        r == ends_with(s@, p@),
{
    let n = s.unicode_len();
    let m = p.unicode_len();
    if m > n {
        return false;
    }
    let tail = s.substring_char(n - m, n);
    str_equal(tail, p)
}

/// The content services configured by the variables, or the message of the
/// panic a malformed content-service variable causes.
fn content_apis_from(vars: &Vec<(String, String)>) -> (r: Result<ContentApis, String>)
    ensures
        has_bad_content_api_key(vars@) ==> (r matches Err(m) && m@ == unwrap_none_message()),
        !has_bad_content_api_key(vars@) ==> (r matches Ok(a) && a.wf() && a.view() == content_apis_of(vars@)),
{
    let mut apis = ContentApis::new();
    let mut i: usize = 0;
    while i < vars.len()
        invariant
            i <= vars@.len(),
            apis.wf(),
            apis.view() == content_apis_of(vars@.take(i as int)),
            forall|j: int| 0 <= j < i ==> !is_bad_content_api_key(#[trigger] vars@[j].0@),
        decreases vars@.len() - i,
    {
        assert(vars@.take(i + 1).drop_last() =~= vars@.take(i as int));
        let key = vars[i].0.as_str();
        if text_starts_with(key, "CONTENT_API_") && text_ends_with(key, "_URL") {
            let n = key.unicode_len();
            let plen = "CONTENT_API_".unicode_len();
            proof {
                reveal_strlit("CONTENT_API_");
            }
            let rest = key.substring_char(plen, n);
            if !text_ends_with(rest, "_URL") {
                return Err(String::from_str("called `Option::unwrap()` on a `None` value"));
            }
            let rn = rest.unicode_len();
            let slen = "_URL".unicode_len();
            let name = rest.substring_char(0, rn - slen);
            let c_type = to_lowercase(name);
            apis.insert(c_type, vars[i].1.clone());
        }
        i = i + 1;
    }
    assert(vars@.take(vars@.len() as int) =~= vars@);
    Ok(apis)
}

impl Config {
    /// The settings that environment variables (`vars`, name and value) give:
    /// required URLs, numbers with their defaults, and one content service per
    /// `CONTENT_API_<TYPE>_URL` variable. The error is the message of the
    /// first setting that is missing or malformed (the service panics with it).
    pub fn from_vars(vars: &Vec<(String, String)>) -> (r: Result<Config, String>)
        ensures
            r is Err <==> config_failure(vars@) is Some,
            r matches Err(m) ==> m@ == config_failure(vars@)->Some_0,
            r matches Ok(c) ==> {
                &&& c.read_database_url@ == env_lookup(vars@, "READ_DATABASE_URL"@)->Some_0
                &&& c.database_url@ == env_lookup(vars@, "DATABASE_URL"@)->Some_0
                &&& c.redis_url@ == env_lookup(vars@, "REDIS_URL"@)->Some_0
                &&& c.db_max_connections == u64_setting(vars@, "DB_MAX_CONNECTIONS"@, "20"@) as u32
                &&& c.db_min_connections == u64_setting(vars@, "DB_MIN_CONNECTIONS"@, "5"@) as u32
                &&& c.db_acquire_timeout_secs == u64_setting(vars@, "DB_ACQUIRE_TIMEOUT_SECS"@, "5"@)
                &&& c.redis_pool_size == u64_setting(vars@, "REDIS_POOL_SIZE"@, "10"@) as u32
                &&& c.http_port == u16_of_text(env_or(vars@, "HTTP_PORT"@, "8080"@))->Some_0
                &&& c.log_level@ == env_or(vars@, "LOG_LEVEL"@, "info"@)
                &&& c.shutdown_timeout_secs == u64_setting(vars@, "SHUTDOWN_TIMEOUT_SECS"@, "30"@)
                &&& c.profile_api_url@ == env_lookup(vars@, "PROFILE_API_URL"@)->Some_0
                &&& c.content_apis.wf()
                &&& c.content_apis.view() == content_apis_of(vars@)
                &&& c.rate_limit_write_per_minute == u64_setting(vars@, "RATE_LIMIT_WRITE_PER_MINUTE"@, "30"@)
                &&& c.rate_limit_read_per_minute == u64_setting(vars@, "RATE_LIMIT_READ_PER_MINUTE"@, "1000"@)
                &&& c.cache_ttl_like_counts_secs == i64_setting(vars@, "CACHE_TTL_LIKE_COUNTS_SECS"@, "300"@)
                &&& c.cache_ttl_content_validation_secs == i64_setting(vars@, "CACHE_TTL_CONTENT_VALIDATION_SECS"@, "3600"@)
                &&& c.cb_failure_threshold == u64_setting(vars@, "CIRCUIT_BREAKER_FAILURE_THRESHOLD"@, "5"@)
                &&& c.cb_recovery_timeout_secs == u64_setting(vars@, "CIRCUIT_BREAKER_RECOVERY_TIMEOUT_SECS"@, "30"@)
                &&& c.cb_success_threshold == u64_setting(vars@, "CIRCUIT_BREAKER_SUCCESS_THRESHOLD"@, "3"@)
                &&& c.sse_heartbeat_interval_secs == u64_setting(vars@, "SSE_HEARTBEAT_INTERVAL_SECS"@, "15"@)
                &&& c.leaderboard_refresh_interval_secs == u64_setting(vars@, "LEADERBOARD_REFRESH_INTERVAL_SECS"@, "60"@)
            },
    {
        let read_database_url = match env_required(vars, "READ_DATABASE_URL", "READ_DATABASE_URL missing") {
            Ok(v) => v,
            Err(m) => return Err(m),
        };
        let database_url = match env_required(vars, "DATABASE_URL", "DATABASE_URL missing") {
            Ok(v) => v,
            Err(m) => return Err(m),
        };
        let redis_url = match env_required(vars, "REDIS_URL", "REDIS_URL missing") {
            Ok(v) => v,
            Err(m) => return Err(m),
        };
        let db_max_connections = match env_u64(vars, "DB_MAX_CONNECTIONS", "20") {
            Ok(v) => v as u32,
            Err(m) => return Err(m),
        };
        let db_min_connections = match env_u64(vars, "DB_MIN_CONNECTIONS", "5") {
            Ok(v) => v as u32,
            Err(m) => return Err(m),
        };
        let db_acquire_timeout_secs = match env_u64(vars, "DB_ACQUIRE_TIMEOUT_SECS", "5") {
            Ok(v) => v,
            Err(m) => return Err(m),
        };
        let redis_pool_size = match env_u64(vars, "REDIS_POOL_SIZE", "10") {
            Ok(v) => v as u32,
            Err(m) => return Err(m),
        };
        let port_text = env_text(vars, "HTTP_PORT", "8080");
        let http_port = match parse_u16(port_text.as_str()) {
            Some(p) => p,
            None => return Err(String::from_str("HTTP_PORT must be u16")),
        };
        let log_level = env_text(vars, "LOG_LEVEL", "info");
        let shutdown_timeout_secs = match env_u64(vars, "SHUTDOWN_TIMEOUT_SECS", "30") {
            Ok(v) => v,
            Err(m) => return Err(m),
        };
        let profile_api_url = match env_required(vars, "PROFILE_API_URL", "PROFILE_API_URL missing") {
            Ok(v) => v,
            Err(m) => return Err(m),
        };
        let content_apis = match content_apis_from(vars) {
            Ok(a) => a,
            Err(m) => return Err(m),
        };
        let rate_limit_write_per_minute = match env_u64(vars, "RATE_LIMIT_WRITE_PER_MINUTE", "30") {
            Ok(v) => v,
            Err(m) => return Err(m),
        };
        let rate_limit_read_per_minute = match env_u64(vars, "RATE_LIMIT_READ_PER_MINUTE", "1000") {
            Ok(v) => v,
            Err(m) => return Err(m),
        };
        let cache_ttl_like_counts_secs = match env_i64(vars, "CACHE_TTL_LIKE_COUNTS_SECS", "300") {
            Ok(v) => v,
            Err(m) => return Err(m),
        };
        let cache_ttl_content_validation_secs = match env_i64(vars, "CACHE_TTL_CONTENT_VALIDATION_SECS", "3600") {
            Ok(v) => v,
            Err(m) => return Err(m),
        };
        let cb_failure_threshold = match env_u64(vars, "CIRCUIT_BREAKER_FAILURE_THRESHOLD", "5") {
            Ok(v) => v,
            Err(m) => return Err(m),
        };
        let cb_recovery_timeout_secs = match env_u64(vars, "CIRCUIT_BREAKER_RECOVERY_TIMEOUT_SECS", "30") {
            Ok(v) => v,
            Err(m) => return Err(m),
        };
        let cb_success_threshold = match env_u64(vars, "CIRCUIT_BREAKER_SUCCESS_THRESHOLD", "3") {
            Ok(v) => v,
            Err(m) => return Err(m),
        };
        let sse_heartbeat_interval_secs = match env_u64(vars, "SSE_HEARTBEAT_INTERVAL_SECS", "15") {
            Ok(v) => v,
            Err(m) => return Err(m),
        };
        let leaderboard_refresh_interval_secs = match env_u64(vars, "LEADERBOARD_REFRESH_INTERVAL_SECS", "60") {
            Ok(v) => v,
            Err(m) => return Err(m),
        };
        Ok(Config {
            read_database_url,
            database_url,
            redis_url,
            db_max_connections,
            db_min_connections,
            db_acquire_timeout_secs,
            redis_pool_size,
            http_port,
            log_level,
            shutdown_timeout_secs,
            profile_api_url,
            content_apis,
            rate_limit_write_per_minute,
            rate_limit_read_per_minute,
            cache_ttl_like_counts_secs,
            cache_ttl_content_validation_secs,
            cb_failure_threshold,
            cb_recovery_timeout_secs,
            cb_success_threshold,
            sse_heartbeat_interval_secs,
            leaderboard_refresh_interval_secs,
        })
    }
}

} // verus!
