use truesight::admin_auth::admin_auth;
use truesight::api_key::{ApiKey, ApiKeyResponse};
use truesight::api_key_admin::{
    issue_api_key, revocation_outcome, validate_environment, GenerateApiKeyRequest,
    GenerateApiKeyResponse,
};
use truesight::auth::verify_api_key;
use truesight::config::{
    default_admin_port, default_aws_region, default_cors_origins, default_empty_string,
    default_ingestion_port, AdminConfig, IngestionConfig,
};
use truesight::error::AppError;
use truesight::funnels::{
    default_window, escape_quotes, funnel_query, level_counts, reached_counts, step_users,
    validate_step_count, WindowFunnelRow,
};
use truesight::health::{dependency_entry, has_distinct_names, uptime_seconds, HealthStatus};
use truesight::projects::{
    deletion_outcome, project_not_found, write_error, CreateProjectRequest, ListProjectsQuery,
    PaginationMeta, Paging, UpdateProjectRequest,
};
use truesight::stats::{
    default_active_granularity, default_events_page, default_events_per_page,
    default_granularity, default_limit, events_paging, events_where_clause, finish_page,
    merge_active_users, period_expression, throughput_bucket_fn, ActiveUsersRow, EventsPaging,
    NewUsersRow,
};
use truesight::time::Timestamp;

fn auth_message(r: Result<(), truesight::error::ErrorResponse>) -> String {
    let e = r.expect_err("rejected");
    assert_eq!(e.status, 401);
    assert_eq!(e.code, "UNAUTHORIZED");
    assert!(!e.report);
    e.message
}

#[test]
fn admin_token_must_match_exactly() {
    assert!(admin_auth(&Some("Bearer secret".to_string()), "secret").is_ok());
    assert_eq!(
        auth_message(admin_auth(&Some("Bearer secret2".to_string()), "secret")),
        "Invalid admin API token"
    );
    assert_eq!(
        auth_message(admin_auth(&Some("Bearer secre".to_string()), "secret")),
        "Invalid admin API token"
    );
    assert_eq!(
        auth_message(admin_auth(&Some("Bearer ".to_string()), "secret")),
        "Invalid admin API token"
    );
    assert!(admin_auth(&Some("Bearer ".to_string()), "").is_ok());
}

#[test]
fn admin_header_must_be_a_bearer_header() {
    for header in ["secret", "bearer secret", "Basic secret", "Bearer", ""] {
        assert_eq!(
            auth_message(admin_auth(&Some(header.to_string()), "secret")),
            "Missing or invalid Authorization header"
        );
    }
    assert_eq!(
        auth_message(admin_auth(&None, "secret")),
        "Missing or invalid Authorization header"
    );
}

#[test]
fn keys_are_issued_for_live_and_test_only() {
    assert!(validate_environment("live").is_ok());
    assert!(validate_environment("test").is_ok());
    for env in ["production", "Live", "", "staging"] {
        match validate_environment(env) {
            Err(AppError::Validation(m)) => assert_eq!(m, "environment must be 'live' or 'test'"),
            other => panic!("expected a validation error, got {:?}", other),
        }
    }
}

#[test]
fn issued_key_is_stored_as_prefix_and_hash() {
    let request = GenerateApiKeyRequest { label: "ci".to_string(), environment: "live".to_string() };
    let issued = issue_api_key(77, request).expect("issued");
    assert!(issued.plaintext.starts_with("ts_live_"));
    assert_eq!(issued.plaintext.len(), 40);
    assert_eq!(issued.new_key.prefix, &issued.plaintext[..8]);
    assert_eq!(issued.new_key.project_id, 77);
    assert_eq!(issued.new_key.label, "ci");
    assert_eq!(issued.new_key.environment, "live");
    assert_ne!(issued.new_key.key_hash, issued.plaintext);
    assert_eq!(verify_api_key(&issued.plaintext, &issued.new_key.key_hash), Ok(true));
    let bad = GenerateApiKeyRequest { label: "ci".to_string(), environment: "prod".to_string() };
    assert!(matches!(issue_api_key(77, bad), Err(AppError::Validation(_))));
}

#[test]
fn plaintext_is_shown_with_the_stored_key_once() {
    let stored = ApiKey {
        id: 3,
        project_id: 77,
        prefix: "ts_test_".to_string(),
        key_hash: "$argon2id$...".to_string(),
        label: "ci".to_string(),
        environment: "test".to_string(),
        active: true,
        created_at: Timestamp::new(10, 0),
    };
    let shown = GenerateApiKeyResponse::new(stored, "ts_test_plain".to_string());
    assert_eq!(shown.id, 3);
    assert_eq!(shown.project_id, 77);
    assert_eq!(shown.prefix, "ts_test_");
    assert_eq!(shown.label, "ci");
    assert_eq!(shown.environment, "test");
    assert!(shown.active);
    assert_eq!(shown.created_at, Timestamp::new(10, 0));
    assert_eq!(shown.key, "ts_test_plain");
}

#[test]
fn listing_of_a_key_leaves_out_the_hash() {
    let stored = ApiKey {
        id: 3,
        project_id: 77,
        prefix: "ts_live_".to_string(),
        key_hash: "$argon2id$...".to_string(),
        label: "prod".to_string(),
        environment: "live".to_string(),
        active: false,
        created_at: Timestamp::new(10, 5),
    };
    let listed = ApiKeyResponse::from(stored);
    assert_eq!(listed.id, 3);
    assert_eq!(listed.project_id, 77);
    assert_eq!(listed.prefix, "ts_live_");
    assert_eq!(listed.label, "prod");
    assert_eq!(listed.environment, "live");
    assert!(!listed.active);
    assert_eq!(listed.created_at, Timestamp::new(10, 5));
}

#[test]
fn revoking_a_missing_key_is_not_found() {
    assert!(revocation_outcome(true, 1, 2).is_ok());
    match revocation_outcome(false, 1, 2) {
        Err(AppError::NotFound(m)) => assert_eq!(
            m,
            "API key 00000000-0000-0000-0000-000000000001 not found for project 00000000-0000-0000-0000-000000000002"
        ),
        other => panic!("expected not found, got {:?}", other),
    }
    assert_eq!(AppError::NotFound(String::new()).status_code(), 404);
}

#[test]
fn project_listing_is_paged() {
    let q = |page, per_page| ListProjectsQuery { active: None, page, per_page };
    assert_eq!(q(None, None).paging(), Some(Paging { page: 1, per_page: 20, offset: 0 }));
    assert_eq!(q(Some(3), Some(10)).paging(), Some(Paging { page: 3, per_page: 10, offset: 20 }));
    assert_eq!(q(Some(0), Some(0)).paging(), Some(Paging { page: 1, per_page: 1, offset: 0 }));
    assert_eq!(q(Some(-5), Some(1000)).paging(), Some(Paging { page: 1, per_page: 100, offset: 0 }));
    assert_eq!(q(Some(2), Some(100)).paging(), Some(Paging { page: 2, per_page: 100, offset: 100 }));
    assert_eq!(q(Some(i64::MAX), Some(100)).paging(), None);
    assert_eq!(
        q(Some(i64::MAX), Some(1)).paging(),
        Some(Paging { page: i64::MAX, per_page: 1, offset: i64::MAX - 1 })
    );
    let meta = PaginationMeta::new(&Paging { page: 3, per_page: 10, offset: 20 }, 57);
    assert_eq!((meta.page, meta.per_page, meta.total), (3, 10, 57));
}

#[test]
fn project_requests_become_store_values() {
    let new = CreateProjectRequest { name: "Acme".to_string() }.into_new_project();
    assert_eq!(new.name, "Acme");
    let changes =
        UpdateProjectRequest { name: None, active: Some(false) }.into_changes();
    assert_eq!(changes.name, None);
    assert_eq!(changes.active, Some(false));
}

#[test]
fn missing_project_is_not_found() {
    assert_eq!(
        project_not_found(0xabc).message(),
        "Not found: Project 00000000-0000-0000-0000-000000000abc not found"
    );
    assert!(deletion_outcome(true, 1).is_ok());
    match deletion_outcome(false, 1) {
        Err(AppError::NotFound(m)) => {
            assert_eq!(m, "Project 00000000-0000-0000-0000-000000000001 not found")
        }
        other => panic!("expected not found, got {:?}", other),
    }
}

#[test]
fn taken_name_is_a_validation_error() {
    match write_error(true, "duplicate key".to_string()) {
        AppError::Validation(m) => assert_eq!(m, "A project with this name already exists"),
        other => panic!("expected a validation error, got {:?}", other),
    }
    match write_error(false, "connection reset".to_string()) {
        AppError::Database(m) => assert_eq!(m, "connection reset"),
        other => panic!("expected a database error, got {:?}", other),
    }
    match AppError::from_database(true, "x".to_string()) {
        AppError::NotFound(m) => assert_eq!(m, "Record not found"),
        other => panic!("expected not found, got {:?}", other),
    }
    match AppError::from_database(false, "x".to_string()) {
        AppError::Database(m) => assert_eq!(m, "x"),
        other => panic!("expected a database error, got {:?}", other),
    }
    match AppError::internal("boom".to_string()) {
        AppError::Internal(m) => assert_eq!(m, "boom"),
        other => panic!("expected an internal error, got {:?}", other),
    }
}

#[test]
fn stats_defaults() {
    assert_eq!(default_granularity(), "hour");
    assert_eq!(default_limit(), 10);
    assert_eq!(default_events_page(), 1);
    assert_eq!(default_events_per_page(), 50);
    assert_eq!(default_active_granularity(), "day");
    assert_eq!(default_window(), 86400);
}

#[test]
fn throughput_buckets_by_minute_or_hour() {
    assert_eq!(throughput_bucket_fn("minute"), "toStartOfMinute");
    assert_eq!(throughput_bucket_fn("hour"), "toStartOfHour");
    assert_eq!(throughput_bucket_fn("day"), "toStartOfHour");
}

#[test]
fn periods_are_days_weeks_or_months() {
    assert_eq!(period_expression("day", "event_date"), "toString(event_date)");
    assert_eq!(period_expression("week", "event_date"), "toString(toMonday(event_date))");
    assert_eq!(
        period_expression("month", "first_seen_date"),
        "toString(toStartOfMonth(first_seen_date))"
    );
    assert_eq!(period_expression("year", "event_date"), "toString(event_date)");
}

#[test]
fn event_listing_is_paged_with_one_row_to_spare() {
    assert_eq!(
        events_paging(1, 50),
        Some(EventsPaging { page: 1, per_page: 50, offset: 0, fetch_limit: 51 })
    );
    assert_eq!(
        events_paging(0, 0),
        Some(EventsPaging { page: 1, per_page: 1, offset: 0, fetch_limit: 2 })
    );
    assert_eq!(
        events_paging(4, 1000),
        Some(EventsPaging { page: 4, per_page: 200, offset: 600, fetch_limit: 201 })
    );
    assert_eq!(events_paging(u64::MAX, 200), None);
}

#[test]
fn event_listing_filters_in_bind_order() {
    assert_eq!(
        events_where_clause(false, false, false, false),
        "project_id = ? AND server_timestamp BETWEEN ? AND ?"
    );
    assert_eq!(
        events_where_clause(true, true, true, true),
        "project_id = ? AND server_timestamp BETWEEN ? AND ? AND event_type = ? AND event_name = ? AND user_id = ? AND anonymous_id = ?"
    );
    assert_eq!(
        events_where_clause(false, true, false, true),
        "project_id = ? AND server_timestamp BETWEEN ? AND ? AND event_name = ? AND anonymous_id = ?"
    );
}

#[test]
fn page_knows_whether_more_follow() {
    let paging = events_paging(1, 3).expect("paging");
    let (rows, meta) = finish_page(vec![1, 2, 3, 4], &paging);
    assert_eq!(rows, vec![1, 2, 3]);
    assert!(meta.has_more);
    assert_eq!((meta.page, meta.per_page), (1, 3));
    let (rows, meta) = finish_page(vec![1, 2, 3], &paging);
    assert_eq!(rows, vec![1, 2, 3]);
    assert!(!meta.has_more);
    let (rows, meta) = finish_page(Vec::<u8>::new(), &paging);
    assert!(rows.is_empty());
    assert!(!meta.has_more);
}

#[test]
fn active_and_new_users_merge_by_period() {
    let active = vec![
        ActiveUsersRow { period: "2024-01-01".to_string(), active_users: 10 },
        ActiveUsersRow { period: "2024-01-02".to_string(), active_users: 20 },
        ActiveUsersRow { period: "2024-01-03".to_string(), active_users: 30 },
    ];
    let new_rows = vec![
        NewUsersRow { period: "2024-01-03".to_string(), new_users: 3 },
        NewUsersRow { period: "2024-01-01".to_string(), new_users: 1 },
        NewUsersRow { period: "2024-01-03".to_string(), new_users: 5 },
        NewUsersRow { period: "2023-12-31".to_string(), new_users: 9 },
    ];
    let points = merge_active_users(active, &new_rows);
    let got: Vec<(String, u64, u64)> =
        points.into_iter().map(|p| (p.period, p.active_users, p.new_users)).collect();
    assert_eq!(
        got,
        vec![
            ("2024-01-01".to_string(), 10, 1),
            ("2024-01-02".to_string(), 20, 0),
            ("2024-01-03".to_string(), 30, 5),
        ]
    );
}

#[test]
fn funnel_needs_two_steps() {
    assert!(validate_step_count(2).is_ok());
    assert!(validate_step_count(5).is_ok());
    for n in [0, 1] {
        match validate_step_count(n) {
            Err(AppError::Validation(m)) => assert_eq!(m, "Funnel must have at least 2 steps"),
            other => panic!("expected a validation error, got {:?}", other),
        }
    }
}

#[test]
fn funnel_query_names_window_steps_and_database() {
    assert_eq!(escape_quotes("it's"), "it\\'s");
    assert_eq!(escape_quotes("a\\b"), "a\\b");
    let steps = vec!["signup".to_string(), "it's done".to_string()];
    assert_eq!(
        funnel_query("analytics", 86400, &steps),
        "SELECT level, count() AS users FROM ( SELECT user_uid, windowFunnel(86400)(server_timestamp, event_name = 'signup', event_name = 'it\\'s done') AS level FROM ( SELECT COALESCE(NULLIF(user_id, ''), anonymous_id) AS user_uid, server_timestamp, event_name FROM analytics.events WHERE project_id = ? AND server_timestamp BETWEEN ? AND ? AND event_name IN ('signup', 'it\\'s done') ) GROUP BY user_uid ) GROUP BY level ORDER BY level"
    );
    assert!(funnel_query("d", -5, &steps).contains("windowFunnel(-5)("));
}

#[test]
fn funnel_counts_who_reached_each_step() {
    let rows = vec![
        WindowFunnelRow { level: 0, users: 50 },
        WindowFunnelRow { level: 1, users: 30 },
        WindowFunnelRow { level: 2, users: 15 },
        WindowFunnelRow { level: 3, users: 5 },
        WindowFunnelRow { level: 9, users: 1000 },
    ];
    let counts = level_counts(&rows, 3);
    assert_eq!(counts, vec![50, 30, 15, 5]);
    let reached = reached_counts(&counts).expect("fits");
    assert_eq!(reached, vec![100, 50, 20, 5]);
    assert_eq!(step_users(&reached, 3), vec![50, 20, 5]);
    assert_eq!(level_counts(&Vec::new(), 2), vec![0, 0, 0]);
    let twice = vec![
        WindowFunnelRow { level: 1, users: 3 },
        WindowFunnelRow { level: 1, users: 4 },
    ];
    assert_eq!(level_counts(&twice, 2), vec![0, 4, 0]);
    assert_eq!(reached_counts(&vec![u64::MAX, 1]), None);
    assert_eq!(reached_counts(&Vec::new()), Some(Vec::new()));
    assert_eq!(step_users(&vec![7], 2), vec![0, 0]);
}

#[test]
fn health_is_degraded_when_a_dependency_fails() {
    let pg = dependency_entry("postgres", &Ok(()));
    let sqs = dependency_entry("sqs", &Err("timeout".to_string()));
    assert_eq!(pg, ("postgres".to_string(), "ok".to_string()));
    assert_eq!(sqs, ("sqs".to_string(), "error: timeout".to_string()));
    let status = HealthStatus::from_probes("1.0.0".to_string(), 12, vec![pg.clone(), sqs]);
    assert_eq!(status.status, "degraded");
    assert_eq!(status.http_status(), 503);
    assert_eq!(status.version, "1.0.0");
    assert_eq!(status.uptime_seconds, 12);
    assert_eq!(status.dependencies.len(), 2);
    let status = HealthStatus::from_probes(
        "1.0.0".to_string(),
        0,
        vec![pg, dependency_entry("sqs", &Ok(()))],
    );
    assert_eq!(status.status, "healthy");
    assert_eq!(status.http_status(), 200);
    let writer = HealthStatus::healthy("1.0.0".to_string(), 3);
    assert_eq!(writer.status, "healthy");
    assert!(writer.dependencies.is_empty());
    assert_eq!(HealthStatus::from_probes(String::new(), 0, Vec::new()).status, "healthy");
}

#[test]
fn uptime_counts_whole_seconds() {
    assert_eq!(uptime_seconds(0, 0), 0);
    assert_eq!(uptime_seconds(5, 999_999_999 + 5), 0);
    assert_eq!(uptime_seconds(5, 1_000_000_000 + 5), 1);
    assert_eq!(uptime_seconds(10, 5), 0);
}

#[test]
fn service_configs_have_the_documented_defaults() {
    assert_eq!(default_aws_region(), "us-east-1");
    assert_eq!(default_empty_string(), "");
    assert_eq!(default_ingestion_port(), 8080);
    assert_eq!(default_admin_port(), 8081);
    assert_eq!(default_cors_origins(), "*");
    let c = IngestionConfig {
        ingestion_api_port: default_ingestion_port(),
        sqs_queue_url: "https://queue".to_string(),
        database_url: "postgres://db".to_string(),
        sentry_dsn: None,
        aws_region: default_aws_region(),
        sqs_endpoint_url: None,
    };
    assert_eq!(c.port(), 8080);
    assert_eq!(c.aws_region, "us-east-1");
    let a = AdminConfig {
        admin_api_port: 8081,
        database_url: String::new(),
        clickhouse_url: String::new(),
        clickhouse_database: String::new(),
        clickhouse_user: String::new(),
        clickhouse_password: String::new(),
        admin_api_token: "t".to_string(),
        cors_allowed_origins: "*".to_string(),
        sentry_dsn: None,
    };
    assert_eq!(a.port(), 8081);
}

#[test]
fn dependency_names_form_a_map() {
    let entry = |name: &str| (name.to_string(), "ok".to_string());
    assert!(has_distinct_names(&Vec::new()));
    assert!(has_distinct_names(&vec![entry("postgres")]));
    assert!(has_distinct_names(&vec![entry("postgres"), entry("sqs"), entry("clickhouse")]));
    assert!(!has_distinct_names(&vec![entry("postgres"), entry("sqs"), entry("postgres")]));
    assert!(!has_distinct_names(&vec![entry("sqs"), entry("sqs")]));
    assert!(!has_distinct_names(&vec![entry("a"), entry("b"), entry("b")]));
}

#[test]
fn a_key_is_issued_for_every_known_environment() {
    for environment in ["live", "test"] {
        for _ in 0..3 {
            let request = GenerateApiKeyRequest {
                label: "l".to_string(),
                environment: environment.to_string(),
            };
            assert!(issue_api_key(1, request).is_ok());
        }
    }
}
