use social_api::auth::user_from_authorization;
use social_api::circuit_breaker::{CircuitBreaker, State};
use social_api::config::{Config, ContentApis};
use social_api::content::{ContentType, Like};
use social_api::errors::{ApiError, DomainError, ErrorDetails};
use social_api::ids::{ContentId, UserId};
use social_api::keys::{
    extract_key, format_all_channels_key, format_channel_key, format_count_key, format_lead_key,
    format_lock_key, get_key, get_ttl_for_key, user_validation_key, content_validation_key,
    LeadKeyType, RefreshType,
};
use social_api::rate_limit::{decide, decide_or_pass, RateLimitStatus};

const USER_1: u128 = 0x550e8400_e29b_41d4_a716_446655440001;
const POST: u128 = 0x731b0395_4888_4822_b516_05b4b7bf2089;

fn base_vars() -> Vec<(String, String)> {
    vec![
        ("READ_DATABASE_URL".to_string(), "postgres://read".to_string()),
        ("DATABASE_URL".to_string(), "postgres://write".to_string()),
        ("REDIS_URL".to_string(), "redis://cache".to_string()),
        ("PROFILE_API_URL".to_string(), "http://profile".to_string()),
    ]
}

#[test]
fn content_type_is_lower_cased() {
    assert_eq!(ContentType::new("POST").as_str(), "post");
    assert_eq!(ContentType::new("Bonus_Hunter").as_str(), "bonus_hunter");
    let raw: ContentType = String::from("Post").into();
    assert_eq!(raw.as_str(), "Post");
}

#[test]
fn identifiers_are_written_hyphenated() {
    assert_eq!(ContentId(USER_1).to_text(), "550e8400-e29b-41d4-a716-446655440001");
    assert_eq!(UserId(0).to_text(), "00000000-0000-0000-0000-000000000000");
    assert_eq!(ContentId(u128::MAX).to_text(), "ffffffff-ffff-ffff-ffff-ffffffffffff");
}

#[test]
fn cache_keys_have_their_layout() {
    let t = ContentType::new("post");
    let id = ContentId(POST);
    assert_eq!(format_count_key(&t, &id), "count:post:731b0395-4888-4822-b516-05b4b7bf2089");
    assert_eq!(format_channel_key(&t, &id), "sse:events:post:731b0395-4888-4822-b516-05b4b7bf2089");
    assert_eq!(format_all_channels_key(), "sse:events:*");
    assert_eq!(format_lead_key(LeadKeyType::Canary, "24h", &t), "leaderboard:canary:24h:post");
    assert_eq!(format_lead_key(LeadKeyType::Data, "7d", &t), "leaderboard:data:7d:post");
    assert_eq!(format_lead_key(LeadKeyType::Lock, "all", &t), "leaderboard:lock:all:post");
    assert_eq!(LeadKeyType::Data.as_str(), "data");
    assert_eq!(
        format_lock_key(RefreshType::Count, &t, &id),
        "lock:count:post:731b0395-4888-4822-b516-05b4b7bf2089"
    );
    assert_eq!(format_lock_key(RefreshType::Leaderboard, &t, &id), "lock:leaderboard:post");
    assert_eq!(get_key(&t, &id), "post:731b0395-4888-4822-b516-05b4b7bf2089");
    assert_eq!(user_validation_key(&UserId(USER_1)), "val:user:550e8400-e29b-41d4-a716-446655440001");
    assert_eq!(
        content_validation_key(&t, &id),
        "val:content:post:731b0395-4888-4822-b516-05b4b7bf2089"
    );
}

#[test]
fn rate_limit_buckets() {
    assert_eq!(
        extract_key(Some(UserId(USER_1)), Some("10.0.0.1")),
        "rl:user:550e8400-e29b-41d4-a716-446655440001"
    );
    assert_eq!(extract_key(None, Some("10.0.0.1")), "rl:ip:10.0.0.1");
    assert_eq!(extract_key(None, None), "rl:unknown");
}

#[test]
fn ttl_by_key_prefix() {
    let mut vars = base_vars();
    vars.push(("CACHE_TTL_LIKE_COUNTS_SECS".to_string(), "120".to_string()));
    vars.push(("CACHE_TTL_CONTENT_VALIDATION_SECS".to_string(), "-7".to_string()));
    let cfg = Config::from_vars(&vars).unwrap();
    let t = ContentType::new("post");
    let key = format_count_key(&t, &ContentId(POST));
    assert_eq!(get_ttl_for_key(&cfg, &key), 120);
    assert_eq!(get_ttl_for_key(&cfg, &format_lead_key(LeadKeyType::Data, "24h", &t)), 120);
    assert_eq!(get_ttl_for_key(&cfg, "validation:x"), -7);
    assert_eq!(get_ttl_for_key(&cfg, "validation"), -7);
    assert_eq!(get_ttl_for_key(&cfg, "counts:x"), 300);
    assert_eq!(get_ttl_for_key(&cfg, ""), 300);
}

#[test]
fn config_defaults_and_content_services() {
    let mut vars = base_vars();
    vars.push(("CONTENT_API_POST_URL".to_string(), "http://posts".to_string()));
    vars.push(("CONTENT_API_BONUS_HUNTER_URL".to_string(), "http://bonus".to_string()));
    vars.push(("CONTENT_API_POST_URL".to_string(), "http://ignored-second".to_string()));
    vars.push(("HTTP_PORT".to_string(), "9090".to_string()));
    vars.push(("DB_MAX_CONNECTIONS".to_string(), "+7".to_string()));
    let cfg = Config::from_vars(&vars).unwrap();
    assert_eq!(cfg.read_database_url, "postgres://read");
    assert_eq!(cfg.http_port, 9090);
    assert_eq!(cfg.db_max_connections, 7);
    assert_eq!(cfg.db_min_connections, 5);
    assert_eq!(cfg.redis_pool_size, 10);
    assert_eq!(cfg.log_level, "info");
    assert_eq!(cfg.rate_limit_write_per_minute, 30);
    assert_eq!(cfg.rate_limit_read_per_minute, 1000);
    assert_eq!(cfg.cache_ttl_like_counts_secs, 300);
    assert_eq!(cfg.cache_ttl_content_validation_secs, 3600);
    assert_eq!(cfg.cb_failure_threshold, 5);
    assert_eq!(cfg.sse_heartbeat_interval_secs, 15);
    assert_eq!(cfg.leaderboard_refresh_interval_secs, 60);
    assert_eq!(cfg.content_apis.len(), 2);
    assert_eq!(cfg.content_apis.get("post").unwrap(), "http://ignored-second");
    assert_eq!(cfg.content_apis.get("bonus_hunter").unwrap(), "http://bonus");
    assert!(cfg.content_apis.get("POST").is_none());
}

#[test]
fn config_refusals_name_the_setting() {
    let vars: Vec<(String, String)> = vec![];
    assert_eq!(Config::from_vars(&vars).unwrap_err(), "READ_DATABASE_URL missing");

    let mut vars = base_vars();
    vars.retain(|(k, _)| k != "PROFILE_API_URL");
    assert_eq!(Config::from_vars(&vars).unwrap_err(), "PROFILE_API_URL missing");

    let mut vars = base_vars();
    vars.push(("DB_MIN_CONNECTIONS".to_string(), "-1".to_string()));
    assert_eq!(Config::from_vars(&vars).unwrap_err(), "DB_MIN_CONNECTIONS must be a valid u64");

    let mut vars = base_vars();
    vars.push(("HTTP_PORT".to_string(), "70000".to_string()));
    assert_eq!(Config::from_vars(&vars).unwrap_err(), "HTTP_PORT must be u16");

    let mut vars = base_vars();
    vars.push(("CACHE_TTL_LIKE_COUNTS_SECS".to_string(), "abc".to_string()));
    assert_eq!(
        Config::from_vars(&vars).unwrap_err(),
        "CACHE_TTL_LIKE_COUNTS_SECS must be a valid usize"
    );

    let mut vars = base_vars();
    vars.push(("CONTENT_API_URL".to_string(), "http://x".to_string()));
    assert_eq!(
        Config::from_vars(&vars).unwrap_err(),
        "called `Option::unwrap()` on a `None` value"
    );
}

#[test]
fn content_services_map() {
    let mut apis = ContentApis::new();
    assert_eq!(apis.len(), 0);
    apis.insert("post".to_string(), "http://a".to_string());
    apis.insert("post".to_string(), "http://b".to_string());
    apis.insert("video".to_string(), "http://c".to_string());
    assert_eq!(apis.len(), 2);
    assert_eq!(apis.get("post").unwrap(), "http://b");
    assert_eq!(apis.get("video").unwrap(), "http://c");
    assert!(apis.get("photo").is_none());
}

#[test]
fn breaker_opens_after_threshold_failures() {
    // threshold 2: two unreachable answers, then the third call fails fast (503)
    let mut cb = CircuitBreaker::new(2, 30);
    let now = 1_000;
    for _ in 0..2 {
        assert!(cb.admit_call_at(now).is_ok());
        let r: Result<u32, DomainError> =
            cb.record_outcome_at(Err(DomainError::DependencyUnavailable { service: "POST API".into() }), now);
        assert!(r.is_err());
    }
    assert_eq!(cb.failures, 2);
    let refused = cb.admit_call_at(now + 5);
    match refused {
        Err(DomainError::DependencyUnavailable { service }) => assert_eq!(service, "todo"),
        _ => panic!("expected a fast failure"),
    }
    assert_eq!(cb.state, State::Open);
    assert_eq!(ApiError(DomainError::DependencyUnavailable { service: "x".into() }, "r".into()).status(), 503);
}

#[test]
fn breaker_half_opens_and_closes() {
    let mut cb = CircuitBreaker::new(1, 30);
    assert!(cb.admit_call_at(0).is_ok());
    let _ = cb.record_outcome_at::<()>(Err(DomainError::DependencyUnavailable { service: "s".into() }), 100);
    assert_eq!(cb.check_state_at(110), State::Open);
    assert_eq!(cb.check_state_at(130), State::HalfOpen);
    assert!(cb.admit_call_at(130).is_ok());
    let ok: Result<u8, DomainError> = cb.record_outcome_at(Ok(7), 131);
    assert_eq!(ok.unwrap(), 7);
    assert_eq!(cb.failures, 0);
    assert_eq!(cb.check_state_at(131), State::Closed);
    // other errors are not counted
    let _ = cb.record_outcome_at::<()>(Err(DomainError::CacheMiss), 140);
    assert_eq!(cb.failures, 0);
    cb.record_failure_at(150);
    assert_eq!(cb.last_failure_time, 150);
    cb.reset();
    assert_eq!(cb.failures, 0);
}

#[test]
fn breaker_state_codes_and_settings() {
    assert_eq!(State::from(0u8), State::Closed);
    assert_eq!(State::from(1u8), State::Open);
    assert_eq!(State::from(9u8), State::HalfOpen);
    assert_eq!(State::HalfOpen.code(), 2);
    let cb = CircuitBreaker::from_settings(None, None).unwrap();
    assert_eq!((cb.threshold, cb.timeout), (5, 30));
    let cb = CircuitBreaker::from_settings(Some("2"), Some("-4")).unwrap();
    assert_eq!((cb.threshold, cb.timeout), (2, -4));
    assert!(CircuitBreaker::from_settings(Some("x"), None).is_none());
    let mut live = CircuitBreaker::new(3, 30);
    assert_eq!(live.check_state(), State::Closed);
}

#[test]
fn errors_map_to_answers() {
    let cases: Vec<(DomainError, u16, &str, &str)> = vec![
        (DomainError::Unauthorized, 401, "UNAUTHORIZED", "Missing, malformed, or invalid token"),
        (
            DomainError::ContentNotFound { content_type: "post".into(), content_id: "x".into() },
            404,
            "CONTENT_NOT_FOUND",
            "Content item does not exist or has been removed",
        ),
        (
            DomainError::UnknownContentType { content_type: "gif".into() },
            400,
            "CONTENT_TYPE_UNKNOWN",
            "content_type not in configured registry",
        ),
        (DomainError::InvalidContentId("x".into()), 400, "INVALID_CONTENT_ID", "content_id is not a valid UUID v4"),
        (DomainError::BatchTooLarge(101), 400, "BATCH_TOO_LARGE", "Batch exceeds 100 items"),
        (DomainError::InvalidCursor("Bad JSON".into()), 400, "INVALID_CURSOR", "Pagination cursor is malformed or expired"),
        (DomainError::InvalidWindow("1y".into()), 400, "INVALID_WINDOW", "Time window not in [24h, 7d, 30d, all]"),
        (DomainError::RateLimited { retry_after: 9 }, 429, "RATE_LIMITED", "Rate limit exceeded"),
        (
            DomainError::DependencyUnavailable { service: "Profile API".into() },
            503,
            "DEPENDENCY_UNAVAILABLE",
            "External service unreachable (after circuit breaker opens)",
        ),
        (DomainError::ValidationError("Invalid window".into()), 500, "INTERNAL_ERROR", "Validation failed: Invalid window"),
        (DomainError::InternalError("boom".into()), 500, "INTERNAL_ERROR", "Unexpected error"),
        (DomainError::InvalidConfig("k".into()), 500, "INTERNAL_ERROR", "Invalid configuration: k"),
        (
            DomainError::DependencyDeserializeError { service: "POST API".into() },
            500,
            "INTERNAL_ERROR",
            "External service deserialize error: POST API",
        ),
        (
            DomainError::DependencyNotFound { service: "Profile API".into() },
            500,
            "INTERNAL_ERROR",
            "External service respond not found: Profile API (Circuit Breaker close)",
        ),
        (DomainError::DependencyHealtError("t".into()), 500, "INTERNAL_ERROR", "External service healt error: t"),
        (DomainError::DatabaseError("d".into()), 500, "INTERNAL_ERROR", "Database error: d"),
        (DomainError::DatabaseHealthError("d".into()), 500, "INTERNAL_ERROR", "Database healt error: d"),
        (DomainError::DatabaseNotFound("d".into()), 500, "INTERNAL_ERROR", "Database error: not found: d"),
        (DomainError::CacheError("c".into()), 500, "INTERNAL_ERROR", "Cache error: c"),
        (DomainError::CacheMiss, 500, "INTERNAL_ERROR", "Cache miss"),
        (DomainError::CacheHealthError("c".into()), 500, "INTERNAL_ERROR", "Cache healt error : c"),
        (DomainError::SseKeyError, 500, "INTERNAL_ERROR", "Event without content key"),
    ];
    for (e, status, code, message) in cases {
        let api = ApiError(e, "req-1".to_string());
        assert_eq!(api.status(), status);
        assert_eq!(api.code(), code);
        let body = api.body();
        assert_eq!(body.error.code, code);
        assert_eq!(body.error.message, message);
        assert_eq!(body.error.request_id, "req-1");
    }
}

#[test]
fn error_details() {
    let api = ApiError(
        DomainError::ContentNotFound { content_type: "post".into(), content_id: "abc".into() },
        "r".into(),
    );
    match api.details() {
        Some(ErrorDetails::Content { content_type, content_id }) => {
            assert_eq!(content_type, "post");
            assert_eq!(content_id, "abc");
        }
        _ => panic!("content details expected"),
    }
    match ApiError(DomainError::UnknownContentType { content_type: "gif".into() }, "r".into()).details() {
        Some(ErrorDetails::ContentType { content_type }) => assert_eq!(content_type, "gif"),
        _ => panic!("content type details expected"),
    }
    match ApiError(DomainError::RateLimited { retry_after: 12 }, "r".into()).details() {
        Some(ErrorDetails::RetryAfter { retry_after }) => assert_eq!(retry_after, 12),
        _ => panic!("retry details expected"),
    }
    assert!(ApiError(DomainError::CacheMiss, "r".into()).details().is_none());
}

#[test]
fn bearer_tokens() {
    assert_eq!(
        user_from_authorization(Some("Bearer 550e8400-e29b-41d4-a716-446655440001")).unwrap(),
        UserId(USER_1)
    );
    assert!(matches!(user_from_authorization(None), Err(DomainError::Unauthorized)));
    assert!(matches!(user_from_authorization(Some("Bearer tok_bad")), Err(DomainError::Unauthorized)));
    assert!(matches!(
        user_from_authorization(Some("Basic 550e8400-e29b-41d4-a716-446655440001")),
        Err(DomainError::Unauthorized)
    ));
    assert!(matches!(user_from_authorization(Some("Bear")), Err(DomainError::Unauthorized)));
    // The other forms of a UUID text are accepted too.
    for form in [
        "550E8400-E29B-41D4-A716-446655440001",
        "550e8400e29b41d4a716446655440001",
        "{550e8400-e29b-41d4-a716-446655440001}",
        "URN:uuid:550e8400-e29b-41d4-a716-446655440001",
    ] {
        assert_eq!(user_from_authorization(Some(&format!("Bearer {}", form))).unwrap(), UserId(USER_1));
    }
    assert!(matches!(
        user_from_authorization(Some("Bearer 550e8400+e29b-41d4-a716-446655440001")),
        Err(DomainError::Unauthorized)
    ));
}

#[test]
fn rate_limit_headers_when_refused() {
    // a limit of 3 per minute, fourth request refused
    let status = RateLimitStatus::from_script(3, &vec![0, 20, 0]);
    assert!(!status.allowed);
    assert_eq!(status.remaining, 0);
    assert_eq!(status.reset_after, 20);
    let d = decide(3, &status);
    assert!(d.blocked);
    let find = |name: &str| d.headers.iter().find(|(k, _)| k == name).map(|(_, v)| *v);
    assert_eq!(find("X-RateLimit-Limit"), Some(3));
    assert_eq!(find("X-RateLimit-Remaining"), Some(0));
    assert_eq!(find("X-RateLimit-Reset"), Some(20));
    assert_eq!(find("Retry-After"), Some(20));
}

#[test]
fn failing_limiter_lets_requests_through() {
    assert!(decide_or_pass(5, &Err(DomainError::CacheError("down".into()))).is_none());
    let status = RateLimitStatus { allowed: false, remaining: 0, limit: 5, reset_after: 12 };
    let d = decide_or_pass(5, &Ok(status)).unwrap();
    assert!(d.blocked);
    assert_eq!(d.headers.last().unwrap(), &("Retry-After".to_string(), 12));
}

#[test]
fn rate_limit_headers_when_allowed() {
    let status = RateLimitStatus::from_script(1000, &vec![998, 1, 1]);
    assert!(status.allowed);
    let d = decide(1000, &status);
    assert!(!d.blocked);
    assert_eq!(d.headers.len(), 3);
    assert!(d.headers.iter().all(|(k, _)| k != "Retry-After"));
}

#[test]
fn like_clones_are_equal() {
    let l = Like { user_id: UserId(1), content_type: ContentType::new("post"), content_id: ContentId(2), created_at: 3 };
    let c = l.clone();
    assert_eq!(c.content_type.as_str(), "post");
    assert_eq!(c.created_at, 3);
}
