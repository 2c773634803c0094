use truesight::api_key::ApiKey;
use truesight::api_key_auth::{
    begin_auth, find_match, finish_auth, remember, resolve_candidates, AuthStep, CACHE_TTL_NANOS,
};
use truesight::auth::{hash_api_key, ApiKeyCache};
use truesight::error::AppError;
use truesight::rate_limit::{
    decide, enforce, limiter_missing, rate_limit, retry_after_secs, RateDecision, RateLimiterMap,
    BURST, RATE_PER_SECOND,
};
use truesight::api_key_auth::ProjectId;
use truesight::time::Timestamp;
use truesight::zstd_decode::{accept_decoded, decode_zstd_body, needs_decoding};

const KEY: &str = "ts_test_aaaaaaaaaaaaaaaaaaaaaaaaaaaaaaaa";

fn stored(project_id: u128, key_hash: String) -> ApiKey {
    ApiKey {
        id: 1,
        project_id,
        prefix: "ts_test_".to_string(),
        key_hash,
        label: "default".to_string(),
        environment: "test".to_string(),
        active: true,
        created_at: Timestamp::new(0, 0),
    }
}

fn unauthorized(step: AuthStep) -> String {
    match step {
        AuthStep::Rejected(AppError::Unauthorized(m)) => m,
        other => panic!("expected unauthorized, got {:?}", other),
    }
}

#[test]
fn missing_or_empty_key_is_unauthorized() {
    let mut cache = ApiKeyCache::new();
    assert_eq!(unauthorized(begin_auth(&mut cache, &None, 0)), "Missing X-API-Key header");
    assert_eq!(
        unauthorized(begin_auth(&mut cache, &Some(String::new()), 0)),
        "Missing X-API-Key header"
    );
    assert_eq!(AppError::Unauthorized(String::new()).status_code(), 401);
}

#[test]
fn short_key_is_unauthorized() {
    let mut cache = ApiKeyCache::new();
    assert_eq!(
        unauthorized(begin_auth(&mut cache, &Some("ts_test".to_string()), 0)),
        "Invalid API key format"
    );
}

#[test]
fn unknown_key_is_looked_up_by_its_first_eight_characters() {
    let mut cache = ApiKeyCache::new();
    match begin_auth(&mut cache, &Some(KEY.to_string()), 0) {
        AuthStep::Lookup { prefix } => assert_eq!(prefix, "ts_test_"),
        other => panic!("expected a lookup, got {:?}", other),
    }
    match begin_auth(&mut cache, &Some("12345678".to_string()), 0) {
        AuthStep::Lookup { prefix } => assert_eq!(prefix, "12345678"),
        other => panic!("expected a lookup, got {:?}", other),
    }
}

#[test]
fn verified_key_is_cached_for_five_minutes() {
    assert_eq!(CACHE_TTL_NANOS, 300 * 1_000_000_000);
    let hash = hash_api_key(KEY).expect("hash");
    let other = hash_api_key("ts_test_bbbbbbbbbbbbbbbbbbbbbbbbbbbbbbbb").expect("hash");
    let candidates = Ok(vec![
        stored(7, other),
        stored(8, "garbage".to_string()),
        stored(9, hash.clone()),
        stored(10, hash),
    ]);
    let mut cache = ApiKeyCache::new();
    let start = 1_000u64;
    let project = finish_auth(&mut cache, KEY, &candidates, start).expect("authenticated");
    assert_eq!(project.0, 9);
    // the next request does not need the store
    match begin_auth(&mut cache, &Some(KEY.to_string()), start + CACHE_TTL_NANOS - 1) {
        AuthStep::Authenticated(p) => assert_eq!(p.0, 9),
        other => panic!("expected a cache hit, got {:?}", other),
    }
    // once the entry has lapsed the store decides again
    match begin_auth(&mut cache, &Some(KEY.to_string()), start + CACHE_TTL_NANOS) {
        AuthStep::Lookup { prefix } => assert_eq!(prefix, "ts_test_"),
        other => panic!("expected a lookup, got {:?}", other),
    }
}

#[test]
fn key_without_matching_candidate_is_invalid_and_not_cached() {
    let other = hash_api_key("ts_test_bbbbbbbbbbbbbbbbbbbbbbbbbbbbbbbb").expect("hash");
    let mut cache = ApiKeyCache::new();
    match finish_auth(&mut cache, KEY, &Ok(vec![stored(7, other)]), 0) {
        Err(AppError::Unauthorized(m)) => assert_eq!(m, "Invalid API key"),
        other => panic!("expected unauthorized, got {:?}", other),
    }
    match finish_auth(&mut cache, KEY, &Ok(Vec::new()), 0) {
        Err(AppError::Unauthorized(m)) => assert_eq!(m, "Invalid API key"),
        other => panic!("expected unauthorized, got {:?}", other),
    }
    assert_eq!(cache.get(KEY, 1), None);
}

#[test]
fn failed_fetch_makes_the_service_unavailable() {
    let mut cache = ApiKeyCache::new();
    match finish_auth(&mut cache, KEY, &Err("pool timeout".to_string()), 0) {
        Err(e) => {
            assert_eq!(e.status_code(), 500);
            assert_eq!(e.message(), "Internal error: Service unavailable");
        }
        Ok(_) => panic!("expected an error"),
    }
}

#[test]
fn find_match_returns_the_first_candidate_that_verifies() {
    let hash = hash_api_key(KEY).expect("hash");
    assert_eq!(find_match(KEY, &vec![stored(1, hash.clone()), stored(2, hash.clone())]), Some(0));
    assert_eq!(find_match(KEY, &vec![stored(1, "x".to_string()), stored(2, hash)]), Some(1));
    assert_eq!(find_match(KEY, &Vec::new()), None);
}

#[test]
fn retry_after_rounds_up_and_is_at_least_one() {
    assert_eq!(retry_after_secs(0, 0), 1);
    assert_eq!(retry_after_secs(0, 1), 1);
    assert_eq!(retry_after_secs(0, 999_999_999), 1);
    assert_eq!(retry_after_secs(1, 0), 1);
    assert_eq!(retry_after_secs(1, 1), 2);
    assert_eq!(retry_after_secs(59, 500_000_000), 60);
    assert_eq!(retry_after_secs(u64::MAX, 5), u64::MAX);
}

#[test]
fn limiter_answer_becomes_a_decision() {
    assert_eq!(decide(None), RateDecision::Allowed);
    assert_eq!(decide(Some((0, 1_000_000))), RateDecision::Limited { retry_after_secs: 1 });
    assert_eq!(decide(Some((3, 1))), RateDecision::Limited { retry_after_secs: 4 });
    assert!(enforce(RateDecision::Allowed).is_ok());
    let rejection = enforce(RateDecision::Limited { retry_after_secs: 2 }).expect_err("limited");
    assert_eq!(rejection.error.status_code(), 429);
    assert_eq!(rejection.error.code(), "RATE_LIMITED");
    assert_eq!(rejection.retry_after_secs, Some(2));
}

#[test]
fn burst_passes_and_excess_is_limited() {
    assert_eq!(RATE_PER_SECOND, 1000);
    assert_eq!(BURST, 200);
    let mut limiters = RateLimiterMap::new();
    let mut accepted = 0;
    let mut limited = 0;
    for i in 0..1201 {
        match limiters.check(42) {
            RateDecision::Allowed => accepted += 1,
            RateDecision::Limited { retry_after_secs } => {
                assert!(i >= 200, "the burst of 200 passes");
                assert!(retry_after_secs >= 1);
                limited += 1;
            }
        }
    }
    assert!(accepted >= 200);
    assert_eq!(accepted + limited, 1201);
}

#[test]
fn projects_are_limited_apart() {
    let mut limiters = RateLimiterMap::new();
    let mut exhausted = false;
    for _ in 0..100_000 {
        if limiters.check(1) != RateDecision::Allowed {
            exhausted = true;
            break;
        }
    }
    assert!(exhausted);
    assert_eq!(limiters.check(2), RateDecision::Allowed);
}

#[test]
fn limiting_step_needs_a_project() {
    let mut limiters = RateLimiterMap::new();
    let rejection = rate_limit(&mut limiters, None).expect_err("no project");
    assert_eq!(rejection.error.status_code(), 401);
    assert_eq!(rejection.error.message(), "Unauthorized: Missing project context");
    assert_eq!(rejection.retry_after_secs, None);
    assert!(rate_limit(&mut limiters, Some(ProjectId(5))).is_ok());
    let missing = limiter_missing();
    assert_eq!(missing.error.status_code(), 500);
    assert_eq!(missing.error.message(), "Internal error: Rate limiter not configured");
}

#[test]
fn only_zstd_bodies_are_decoded() {
    assert!(needs_decoding(&Some("zstd".to_string())));
    assert!(needs_decoding(&Some("ZSTD".to_string())));
    assert!(needs_decoding(&Some("Zstd".to_string())));
    assert!(!needs_decoding(&Some("gzip".to_string())));
    assert!(!needs_decoding(&Some("zstd ".to_string())));
    assert!(!needs_decoding(&Some(String::new())));
    assert!(!needs_decoding(&None));
}

#[test]
fn zstd_body_is_decompressed() {
    let plain = b"{\"batch\":[],\"sent_at\":\"2024-01-01T00:00:00Z\"}".to_vec();
    let compressed = zstd::encode_all(&plain[..], 0).expect("compress");
    assert_ne!(compressed, plain);
    assert_eq!(decode_zstd_body(&Some(compressed)).expect("decoded"), plain);
}

#[test]
fn body_that_is_not_zstd_is_a_validation_error() {
    match decode_zstd_body(&Some(b"plain json".to_vec())) {
        Err(AppError::Validation(m)) => {
            assert!(m.starts_with("Failed to decompress zstd body: "))
        }
        other => panic!("expected a validation error, got {:?}", other),
    }
}

#[test]
fn decompressed_body_over_4_mib_is_too_large() {
    let plain = vec![7u8; 4 * 1024 * 1024 + 1];
    let compressed = zstd::encode_all(&plain[..], 0).expect("compress");
    assert!(compressed.len() < 4 * 1024 * 1024);
    match decode_zstd_body(&Some(compressed)) {
        Err(AppError::PayloadTooLarge(m)) => assert_eq!(
            m,
            "Request body exceeds maximum size of 4194304 bytes (actual: 4194305 bytes)"
        ),
        other => panic!("expected payload too large, got {:?}", other),
    }
    let fits = vec![7u8; 4 * 1024 * 1024];
    let compressed = zstd::encode_all(&fits[..], 0).expect("compress");
    assert_eq!(decode_zstd_body(&Some(compressed)).expect("decoded").len(), 4 * 1024 * 1024);
}

#[test]
fn compressed_body_over_the_limit_is_too_large() {
    match decode_zstd_body(&None) {
        Err(AppError::PayloadTooLarge(m)) => {
            assert_eq!(m, "Compressed request body is too large")
        }
        other => panic!("expected payload too large, got {:?}", other),
    }
}

#[test]
fn decoder_outcome_is_judged() {
    assert_eq!(accept_decoded(Ok(vec![1, 2, 3])).expect("body"), vec![1, 2, 3]);
    match accept_decoded(Err("Unknown frame descriptor".to_string())) {
        Err(AppError::Validation(m)) => {
            assert_eq!(m, "Failed to decompress zstd body: Unknown frame descriptor")
        }
        other => panic!("expected a validation error, got {:?}", other),
    }
}

#[test]
fn default_registry_limits_from_the_first_request() {
    let mut limiters = RateLimiterMap::default();
    assert_eq!(limiters.check(1), RateDecision::Allowed);
    limiters.get_or_create(2);
    assert_eq!(limiters.check(2), RateDecision::Allowed);
}

#[test]
fn resolving_leaves_the_cache_alone_and_remembering_fills_it() {
    let hash = hash_api_key(KEY).expect("hash");
    let candidates = Ok(vec![stored(7, "garbage".to_string()), stored(9, hash)]);
    let mut cache = ApiKeyCache::new();
    let project = resolve_candidates(KEY, &candidates).expect("resolved");
    assert_eq!(project.0, 9);
    assert_eq!(cache.get(KEY, 0), None);
    remember(&mut cache, KEY, project, 50);
    assert_eq!(cache.get(KEY, 50 + CACHE_TTL_NANOS - 1), Some(9));
    assert_eq!(cache.get(KEY, 50 + CACHE_TTL_NANOS), None);
    match resolve_candidates(KEY, &Ok(Vec::new())) {
        Err(AppError::Unauthorized(m)) => assert_eq!(m, "Invalid API key"),
        other => panic!("expected unauthorized, got {:?}", other),
    }
    match resolve_candidates(KEY, &Err("down".to_string())) {
        Err(AppError::Internal(m)) => assert_eq!(m, "Service unavailable"),
        other => panic!("expected an internal error, got {:?}", other),
    }
}
