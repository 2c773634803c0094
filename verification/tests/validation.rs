use truesight::error::AppError;
use truesight::event::{
    validate_ingest_event, validate_ingest_event_at, BatchRequest, DeviceContext, EventType,
    IngestEvent,
};
use truesight::time::Timestamp;
use truesight::validation::{validate_batch, validate_body_size, validate_event};

const NOW: i64 = 1_700_000_000;

fn now() -> Timestamp {
    Timestamp::new(NOW, 500)
}

fn context() -> DeviceContext {
    DeviceContext {
        app_version: Some("1.2.3".to_string()),
        os_name: "iOS".to_string(),
        os_version: "17.0".to_string(),
        device_model: "iPhone".to_string(),
        device_id: "device-1".to_string(),
        network_type: None,
        locale: "en-US".to_string(),
        timezone: "UTC".to_string(),
        sdk_version: "0.1.0".to_string(),
    }
}

fn event() -> IngestEvent {
    IngestEvent {
        event_id: 0x11111111_1111_1111_1111_111111111111,
        event_name: "signup".to_string(),
        event_type: EventType::Track,
        user_id: None,
        anonymous_id: "anon-1".to_string(),
        mobile_number: None,
        email: None,
        client_timestamp: now(),
        properties: None,
        context: context(),
    }
}

fn batch_of(n: usize) -> BatchRequest {
    BatchRequest { batch: (0..n).map(|_| event()).collect(), sent_at: now() }
}

fn validation_message(r: Result<(), AppError>) -> String {
    match r {
        Err(AppError::Validation(m)) => m,
        other => panic!("expected a validation error, got {:?}", other),
    }
}

#[test]
fn valid_event_passes() {
    assert_eq!(validate_ingest_event_at(&event(), &now()), Ok(()));
}

#[test]
fn valid_event_passes_by_the_wall_clock() {
    let mut e = event();
    e.client_timestamp = Timestamp::now();
    assert_eq!(validate_ingest_event(&e), Ok(()));
}

#[test]
fn event_name_of_256_chars_passes_and_257_fails() {
    let mut e = event();
    e.event_name = "a".repeat(256);
    assert_eq!(validate_ingest_event_at(&e, &now()), Ok(()));
    e.event_name = "a".repeat(257);
    assert_eq!(
        validate_ingest_event_at(&e, &now()),
        Err(vec!["event_name must be at most 256 characters".to_string()])
    );
}

#[test]
fn event_name_allows_the_listed_punctuation() {
    let mut e = event();
    e.event_name = "$screen view_1.2-beta".to_string();
    assert_eq!(validate_ingest_event_at(&e, &now()), Ok(()));
}

#[test]
fn event_name_allows_letters_and_digits_of_any_script() {
    let mut e = event();
    e.event_name = "caf\u{e9} \u{0663} \u{85cf}".to_string();
    assert_eq!(validate_ingest_event_at(&e, &now()), Ok(()));
}

#[test]
fn event_name_with_other_characters_fails() {
    let mut e = event();
    e.event_name = "bad name!".to_string();
    assert_eq!(
        validate_ingest_event_at(&e, &now()),
        Err(vec![
            "event_name contains invalid characters; only alphanumeric, spaces, _, ., -, and $ are allowed"
                .to_string()
        ])
    );
}

#[test]
fn identify_needs_a_user_id() {
    let mut e = event();
    e.event_type = EventType::Identify;
    let expected = Err(vec!["user_id is required for identify events".to_string()]);
    assert_eq!(validate_ingest_event_at(&e, &now()), expected);
    e.user_id = Some(String::new());
    assert_eq!(validate_ingest_event_at(&e, &now()), expected);
    e.user_id = Some("u42".to_string());
    assert_eq!(validate_ingest_event_at(&e, &now()), Ok(()));
}

#[test]
fn track_needs_no_user_id() {
    let mut e = event();
    e.event_type = EventType::Screen;
    assert_eq!(validate_ingest_event_at(&e, &now()), Ok(()));
}

#[test]
fn mobile_number_must_be_ten_digits() {
    let expected = Err(vec!["mobile_number must be exactly 10 digits".to_string()]);
    let mut e = event();
    e.mobile_number = Some("12345".to_string());
    assert_eq!(validate_ingest_event_at(&e, &now()), expected);
    e.mobile_number = Some("12345678901".to_string());
    assert_eq!(validate_ingest_event_at(&e, &now()), expected);
    e.mobile_number = Some("12345abcde".to_string());
    assert_eq!(validate_ingest_event_at(&e, &now()), expected);
    e.mobile_number = Some("\u{0661}234567890".to_string());
    assert_eq!(validate_ingest_event_at(&e, &now()), expected);
    e.mobile_number = Some("1234567890".to_string());
    assert_eq!(validate_ingest_event_at(&e, &now()), Ok(()));
}

#[test]
fn email_needs_at_dot_and_five_bytes() {
    let expected = Err(vec!["email is not valid".to_string()]);
    let mut e = event();
    e.email = Some("a@b.c".to_string());
    assert_eq!(validate_ingest_event_at(&e, &now()), Ok(()));
    e.email = Some("a@.c".to_string());
    assert_eq!(validate_ingest_event_at(&e, &now()), expected);
    e.email = Some("user.example.com".to_string());
    assert_eq!(validate_ingest_event_at(&e, &now()), expected);
    e.email = Some("user@example".to_string());
    assert_eq!(validate_ingest_event_at(&e, &now()), expected);
    // four characters, five bytes
    e.email = Some("\u{e9}@.c".to_string());
    assert_eq!(validate_ingest_event_at(&e, &now()), Ok(()));
}

#[test]
fn client_timestamp_may_be_24_hours_ahead_but_no_more() {
    let mut e = event();
    e.client_timestamp = Timestamp::new(NOW + 86_400, 500);
    assert_eq!(validate_ingest_event_at(&e, &now()), Ok(()));
    e.client_timestamp = Timestamp::new(NOW + 86_400, 501);
    assert_eq!(
        validate_ingest_event_at(&e, &now()),
        Err(vec!["client_timestamp must not be more than 24 hours in the future".to_string()])
    );
}

#[test]
fn client_timestamp_may_be_30_days_behind_but_no_more() {
    let mut e = event();
    e.client_timestamp = Timestamp::new(NOW - 2_592_000, 500);
    assert_eq!(validate_ingest_event_at(&e, &now()), Ok(()));
    e.client_timestamp = Timestamp::new(NOW - 2_592_000, 499);
    assert_eq!(
        validate_ingest_event_at(&e, &now()),
        Err(vec!["client_timestamp must not be more than 30 days in the past".to_string()])
    );
}

#[test]
fn timestamps_at_the_ends_of_the_range_do_not_overflow() {
    let mut e = event();
    e.client_timestamp = Timestamp::new(i64::MAX, 0);
    assert_eq!(
        validate_ingest_event_at(&e, &Timestamp::new(i64::MAX, 0)),
        Ok(())
    );
    e.client_timestamp = Timestamp::new(i64::MIN, 0);
    assert_eq!(
        validate_ingest_event_at(&e, &Timestamp::new(i64::MIN, 0)),
        Ok(())
    );
}

#[test]
fn anonymous_id_must_not_be_empty() {
    let mut e = event();
    e.anonymous_id = String::new();
    assert_eq!(
        validate_ingest_event_at(&e, &now()),
        Err(vec!["anonymous_id must not be empty".to_string()])
    );
}

#[test]
fn all_failures_are_reported_in_order() {
    let e = IngestEvent {
        event_id: 1,
        event_name: format!("{}!", "x".repeat(256)),
        event_type: EventType::Identify,
        user_id: None,
        anonymous_id: String::new(),
        mobile_number: Some("1".to_string()),
        email: Some("x".to_string()),
        client_timestamp: Timestamp::new(NOW - 3_000_000, 0),
        properties: None,
        context: context(),
    };
    assert_eq!(
        validate_ingest_event_at(&e, &now()),
        Err(vec![
            "event_name must be at most 256 characters".to_string(),
            "event_name contains invalid characters; only alphanumeric, spaces, _, ., -, and $ are allowed"
                .to_string(),
            "user_id is required for identify events".to_string(),
            "mobile_number must be exactly 10 digits".to_string(),
            "email is not valid".to_string(),
            "client_timestamp must not be more than 30 days in the past".to_string(),
            "anonymous_id must not be empty".to_string(),
        ])
    );
}

#[test]
fn validation_failure_names_both_name_and_mobile_number() {
    let mut e = event();
    e.event_name = "bad name!".to_string();
    e.mobile_number = Some("12345".to_string());
    let message = validation_message(validate_event(&e, &Ok(300), &now()));
    assert!(message.contains("event_name contains invalid characters"));
    assert!(message.contains("mobile_number must be exactly 10 digits"));
    assert_eq!(
        message,
        "event_name contains invalid characters; only alphanumeric, spaces, _, ., -, and $ are allowed; mobile_number must be exactly 10 digits"
    );
    let r = AppError::Validation(message).into_response();
    assert_eq!(r.status, 400);
    assert_eq!(r.code, "VALIDATION_ERROR");
}

#[test]
fn event_of_32_kib_passes_and_one_byte_more_fails() {
    let e = event();
    assert!(validate_event(&e, &Ok(32 * 1024), &now()).is_ok());
    assert_eq!(
        validation_message(validate_event(&e, &Ok(32 * 1024 + 1), &now())),
        "Event 11111111-1111-1111-1111-111111111111 exceeds maximum size of 32768 bytes (actual: 32769 bytes)"
    );
}

#[test]
fn event_that_does_not_serialize_fails() {
    let e = event();
    assert_eq!(
        validation_message(validate_event(&e, &Err("boom".to_string()), &now())),
        "Failed to serialize event: boom"
    );
}

#[test]
fn field_rules_come_before_the_size_check() {
    let mut e = event();
    e.anonymous_id = String::new();
    assert_eq!(
        validation_message(validate_event(&e, &Ok(1_000_000), &now())),
        "anonymous_id must not be empty"
    );
}

#[test]
fn batch_must_hold_between_1_and_100_events() {
    assert_eq!(
        validation_message(validate_batch(&batch_of(0))),
        "Batch must contain at least 1 event"
    );
    assert!(validate_batch(&batch_of(1)).is_ok());
    assert!(validate_batch(&batch_of(100)).is_ok());
    assert_eq!(
        validation_message(validate_batch(&batch_of(101))),
        "Batch must contain at most 100 events, got 101"
    );
}

#[test]
fn body_of_4_mib_passes_and_one_byte_more_is_too_large() {
    let body = vec![0u8; 4 * 1024 * 1024];
    assert!(validate_body_size(&body).is_ok());
    let body = vec![0u8; 4 * 1024 * 1024 + 1];
    match validate_body_size(&body) {
        Err(AppError::PayloadTooLarge(m)) => assert_eq!(
            m,
            "Request body exceeds maximum size of 4194304 bytes (actual: 4194305 bytes)"
        ),
        other => panic!("expected payload too large, got {:?}", other),
    }
    assert_eq!(AppError::PayloadTooLarge(String::new()).status_code(), 413);
}

#[test]
fn ascii_punctuation_outside_the_list_fails_the_name() {
    let expected = Err(vec![
        "event_name contains invalid characters; only alphanumeric, spaces, _, ., -, and $ are allowed"
            .to_string(),
    ]);
    for bad in ["a!", "a@b", "a/b", "a#", "tab\there", "a,b", "(a)", "a+b"] {
        let mut e = event();
        e.event_name = bad.to_string();
        assert_eq!(validate_ingest_event_at(&e, &now()), expected);
    }
    let mut e = event();
    e.event_name = "AZaz09 _.-$".to_string();
    assert_eq!(validate_ingest_event_at(&e, &now()), Ok(()));
}
