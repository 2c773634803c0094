use truesight::batcher::{batch_events, delete_entries, plan_follow_up, Batcher};
use truesight::config::{
    default_batch_size, default_flush_interval_secs, default_sqs_receive_batch_size,
    WriterConfig, CHANNEL_BUFFER, DEFAULT_BATCH_SIZE, DEFAULT_BATCH_TIMEOUT_MS, HEALTH_PORT,
    MAX_IN_FLIGHT, NUM_CONSUMERS,
};
use truesight::consumer::{ConsumerLoop, IncomingEvent, MessageAction, ReceiveOutcome};
use truesight::dedup::dedup_note;
use truesight::event::{DeviceContext, EnrichedEvent, EventType};
use truesight::identity::{escape_ch_string, process_identify_event, UserIdentityMap};
use truesight::inserter::{
    after_attempt, insert_statement, project_rows, retry_delay_ms, EventRow, RetryStep,
    BASE_DELAY_MS, MAX_RETRIES,
};
use truesight::sqs::{QueueMessage, ReceiveRequest};
use truesight::time::Timestamp;

const PROJECT: u128 = 0x22222222_2222_2222_2222_222222222222;

fn stamp() -> Timestamp {
    // 2023-11-14 22:13:20.250 UTC
    Timestamp::new(1_700_000_000, 250_000_000)
}

fn enriched(id: u128, kind: EventType, user_id: Option<&str>, anonymous_id: &str) -> EnrichedEvent {
    EnrichedEvent {
        event_id: id,
        event_name: "signup".to_string(),
        event_type: kind,
        user_id: user_id.map(|u| u.to_string()),
        anonymous_id: anonymous_id.to_string(),
        mobile_number: Some("1234567890".to_string()),
        email: None,
        client_timestamp: Timestamp::new(1_699_999_999, 999_999_999),
        properties: Some("{\"a\":1}".to_string()),
        context: DeviceContext {
            app_version: Some("2.0".to_string()),
            os_name: "iOS".to_string(),
            os_version: "17".to_string(),
            device_model: "iPhone".to_string(),
            device_id: "dev".to_string(),
            network_type: None,
            locale: "en-US".to_string(),
            timezone: "Europe/Paris".to_string(),
            sdk_version: "0.3".to_string(),
        },
        project_id: PROJECT,
        server_timestamp: stamp(),
    }
}

fn incoming(i: u128) -> IncomingEvent {
    IncomingEvent {
        event: enriched(i, EventType::Track, None, "anon"),
        receipt_handle: format!("rh-{}", i),
        raw_body: format!("body-{}", i),
    }
}

fn consumer(dlq: Option<&str>) -> ConsumerLoop {
    ConsumerLoop::new("https://queue".to_string(), dlq.map(|u| u.to_string()), 10)
}

fn message(body: Option<&str>, receipt: Option<&str>) -> QueueMessage {
    QueueMessage {
        body: body.map(|b| b.to_string()),
        receipt_handle: receipt.map(|r| r.to_string()),
    }
}

#[test]
fn consumer_polls_until_shutdown() {
    let c = consumer(None);
    assert_eq!(
        c.next_poll(false),
        Some(ReceiveRequest { max_messages: 10, wait_seconds: 20 })
    );
    assert_eq!(c.next_poll(true), None);
}

#[test]
fn failed_receive_is_retried_after_a_second() {
    let c = consumer(None);
    match c.after_receive(Err("network".to_string())) {
        ReceiveOutcome::RetryAfter(ms) => assert_eq!(ms, 1000),
        other => panic!("expected a retry, got {:?}", other),
    }
    match c.after_receive(Ok(vec![message(Some("b"), Some("r"))])) {
        ReceiveOutcome::Handle(messages) => assert_eq!(messages.len(), 1),
        other => panic!("expected messages, got {:?}", other),
    }
}

#[test]
fn message_without_body_or_receipt_is_skipped() {
    let c = consumer(Some("https://queue-dlq"));
    let ok = || Ok(enriched(1, EventType::Track, None, "a"));
    assert!(matches!(c.on_message(message(None, Some("r")), ok()), MessageAction::Skip));
    assert!(matches!(c.on_message(message(Some("b"), None), ok()), MessageAction::Skip));
    assert!(matches!(c.on_message(message(None, None), ok()), MessageAction::Skip));
}

#[test]
fn parsed_message_is_forwarded_with_receipt_and_raw_body() {
    let c = consumer(Some("https://queue-dlq"));
    let parsed = Ok(enriched(5, EventType::Track, None, "a"));
    match c.on_message(message(Some("{...}"), Some("rh-5")), parsed) {
        MessageAction::Forward(e) => {
            assert_eq!(e.event.event_id, 5);
            assert_eq!(e.receipt_handle, "rh-5");
            assert_eq!(e.raw_body, "{...}");
        }
        other => panic!("expected forward, got {:?}", other),
    }
}

#[test]
fn poison_message_goes_to_dlq_and_is_deleted() {
    let c = consumer(Some("https://queue-dlq"));
    let parsed = Err("expected value at line 1 column 1".to_string());
    match c.on_message(message(Some("not-json"), Some("rh-1")), parsed) {
        MessageAction::Poison { dead_letter, receipt_handle } => {
            let letter = dead_letter.expect("a dead letter");
            assert_eq!(letter.queue_url, "https://queue-dlq");
            assert_eq!(letter.body, "not-json");
            assert!(letter.error_reason.contains("deserialisation error"));
            assert_eq!(
                letter.error_reason,
                "deserialisation error: expected value at line 1 column 1"
            );
            assert_eq!(receipt_handle, "rh-1");
        }
        other => panic!("expected poison, got {:?}", other),
    }
}

#[test]
fn poison_message_without_dlq_is_only_deleted() {
    let c = consumer(None);
    match c.on_message(message(Some("not-json"), Some("rh-1")), Err("bad".to_string())) {
        MessageAction::Poison { dead_letter, receipt_handle } => {
            assert!(dead_letter.is_none());
            assert_eq!(receipt_handle, "rh-1");
        }
        other => panic!("expected poison, got {:?}", other),
    }
}

#[test]
fn closed_channel_ends_the_loop() {
    let c = consumer(None);
    assert_eq!(c.after_forward(true), Ok(()));
    assert_eq!(c.after_forward(false), Err("batcher channel closed".to_string()));
}

#[test]
fn batcher_takes_defaults() {
    let b = Batcher::new("q".to_string(), None, None, None);
    assert_eq!(b.batch_size(), 5000);
    assert_eq!(b.batch_timeout_ms(), 2000);
    assert_eq!(DEFAULT_BATCH_SIZE, 5000);
    assert_eq!(DEFAULT_BATCH_TIMEOUT_MS, 2000);
    assert_eq!(b.queue_url(), "q");
    assert_eq!(b.dlq_url(), &None);
    let b = Batcher::new("q".to_string(), Some("q-dlq".to_string()), Some(7), Some(9));
    assert_eq!(b.batch_size(), 7);
    assert_eq!(b.batch_timeout_ms(), 9);
    assert_eq!(b.dlq_url(), &Some("q-dlq".to_string()));
}

#[test]
fn batcher_flushes_when_the_buffer_reaches_the_batch_size() {
    let mut b = Batcher::new("q".to_string(), None, Some(3), None);
    assert!(b.offer(incoming(1)).is_none());
    assert!(b.offer(incoming(2)).is_none());
    let order = b.offer(incoming(3)).expect("a flush");
    assert!(order.reset_timer);
    let ids: Vec<u128> = order.batch.iter().map(|e| e.event.event_id).collect();
    assert_eq!(ids, vec![1, 2, 3]);
    // the buffer starts over
    assert!(b.offer(incoming(4)).is_none());
    assert!(b.tick().is_some());
}

#[test]
fn batcher_flushes_a_partial_batch_on_tick() {
    let mut b = Batcher::new("q".to_string(), None, Some(100), None);
    assert!(b.tick().is_none());
    b.offer(incoming(1));
    b.offer(incoming(2));
    let order = b.tick().expect("a flush");
    assert!(!order.reset_timer);
    assert_eq!(order.batch.len(), 2);
    assert!(b.tick().is_none());
}

#[test]
fn batcher_drains_on_close() {
    let mut b = Batcher::new("q".to_string(), None, Some(100), None);
    b.offer(incoming(1));
    assert!(!b.is_finished());
    let order = b.close().expect("a last flush");
    assert_eq!(order.batch.len(), 1);
    assert!(b.is_finished());
    let mut empty = Batcher::new("q".to_string(), None, None, None);
    assert!(empty.close().is_none());
    assert!(empty.is_finished());
}

#[test]
fn at_most_three_flushes_run_at_once() {
    assert_eq!(MAX_IN_FLIGHT, 3);
    let mut b = Batcher::new("q".to_string(), None, None, None);
    assert!(b.try_begin_flush());
    assert!(b.try_begin_flush());
    assert!(b.try_begin_flush());
    assert_eq!(b.flushes_in_flight(), 3);
    assert!(!b.try_begin_flush());
    assert_eq!(b.flushes_in_flight(), 3);
    b.finish_flush();
    assert_eq!(b.flushes_in_flight(), 2);
    assert!(b.try_begin_flush());
    assert!(!b.try_begin_flush());
}

#[test]
fn shutdown_waits_for_flushes_in_flight() {
    let mut b = Batcher::new("q".to_string(), None, Some(10), None);
    b.offer(incoming(1));
    assert!(b.close().is_some());
    assert!(b.try_begin_flush());
    assert!(!b.is_finished());
    b.finish_flush();
    assert!(b.is_finished());
    // a release without a flush leaves the count at zero
    b.finish_flush();
    assert_eq!(b.flushes_in_flight(), 0);
}

#[test]
fn row_flattens_the_event() {
    let e = enriched(0x11111111_1111_1111_1111_111111111111, EventType::Identify, None, "anon-1");
    let row = EventRow::from_enriched(&e).expect("a row");
    assert_eq!(row.event_id, 0x11111111_1111_1111_1111_111111111111);
    assert_eq!(row.event_name, "signup");
    assert_eq!(row.event_type, "identify");
    assert_eq!(row.user_id, "");
    assert_eq!(row.anonymous_id, "anon-1");
    assert_eq!(row.mobile_number, "1234567890");
    assert_eq!(row.email, "");
    assert_eq!(row.client_timestamp, "2023-11-14 22:13:19.999");
    assert_eq!(row.server_timestamp, "2023-11-14 22:13:20.250");
    assert_eq!(row.properties, "{\"a\":1}");
    assert_eq!(row.project_id, PROJECT);
    assert_eq!(row.app_version, "2.0");
    assert_eq!(row.os_name, "iOS");
    assert_eq!(row.os_version, "17");
    assert_eq!(row.device_model, "iPhone");
    assert_eq!(row.device_id, "dev");
    assert_eq!(row.network_type, "");
    assert_eq!(row.locale, "en-US");
    assert_eq!(row.timezone, "Europe/Paris");
    assert_eq!(row.sdk_version, "0.3");
}

#[test]
fn row_names_every_event_type_in_lower_case() {
    for (kind, name) in [
        (EventType::Track, "track"),
        (EventType::Identify, "identify"),
        (EventType::Screen, "screen"),
    ] {
        assert_eq!(kind.name(), name);
        let row = EventRow::from_enriched(&enriched(1, kind, Some("u"), "a")).expect("a row");
        assert_eq!(row.event_type, name);
        assert_eq!(row.user_id, "u");
    }
}

#[test]
fn event_outside_the_calendar_has_no_row() {
    let mut e = enriched(1, EventType::Track, None, "a");
    e.client_timestamp = Timestamp::new(i64::MAX, 0);
    assert!(EventRow::from_enriched(&e).is_none());
    let good = enriched(2, EventType::Track, None, "a");
    assert!(project_rows(&vec![good.clone(), e]).is_none());
    let rows = project_rows(&vec![good.clone(), good]).expect("rows");
    assert_eq!(rows.len(), 2);
    assert_eq!(project_rows(&Vec::new()).expect("rows").len(), 0);
}

#[test]
fn insert_statement_is_header_and_one_line_per_row() {
    assert_eq!(insert_statement(&Vec::new()), None);
    assert_eq!(
        insert_statement(&vec!["{\"a\":1}".to_string()]),
        Some("INSERT INTO events FORMAT JSONEachRow\n{\"a\":1}".to_string())
    );
    assert_eq!(
        insert_statement(&vec!["r1".to_string(), "r2".to_string(), "r3".to_string()]),
        Some("INSERT INTO events FORMAT JSONEachRow\nr1\nr2\nr3".to_string())
    );
}

#[test]
fn retry_delays_double_from_half_a_second() {
    assert_eq!(MAX_RETRIES, 3);
    assert_eq!(BASE_DELAY_MS, 500);
    assert_eq!(retry_delay_ms(0), 500);
    assert_eq!(retry_delay_ms(1), 1000);
    assert_eq!(retry_delay_ms(2), 2000);
}

#[test]
fn success_ends_the_insert() {
    for attempt in 0..3 {
        assert!(matches!(after_attempt(attempt, true), RetryStep::Succeeded));
    }
}

#[test]
fn three_failures_then_five_dead_letters() {
    // the store fails three times in a row on a batch of five
    let mut delays = Vec::new();
    let mut attempt = 0;
    let error = loop {
        match after_attempt(attempt, false) {
            RetryStep::Succeeded => panic!("the store failed"),
            RetryStep::RetryAfter { delay_ms, next_attempt } => {
                delays.push(delay_ms);
                attempt = next_attempt;
            }
            RetryStep::GiveUpAfter { delay_ms, error } => {
                delays.push(delay_ms);
                break error;
            }
        }
    };
    assert_eq!(delays, vec![500, 1000, 2000]);
    assert_eq!(error, "insert attempt 3 failed");

    let batch: Vec<IncomingEvent> = (0..5).map(incoming).collect();
    let dlq = Some("https://queue-dlq".to_string());
    let plan = plan_follow_up(&batch, &Err(error), &dlq);
    assert!(plan.identity_statements.is_empty());
    assert_eq!(plan.dead_letters.len(), 5);
    for (i, letter) in plan.dead_letters.iter().enumerate() {
        assert_eq!(letter.queue_url, "https://queue-dlq");
        assert_eq!(letter.body, format!("body-{}", i));
        assert!(letter.error_reason.contains("insert failure"));
        assert_eq!(letter.error_reason, "insert failure: insert attempt 3 failed");
    }
    let expected: Vec<(String, String)> =
        (0..5).map(|i| (format!("del_{}", i), format!("rh-{}", i))).collect();
    assert_eq!(plan.deletes, expected);
}

#[test]
fn failed_insert_without_dlq_only_deletes() {
    let batch: Vec<IncomingEvent> = (0..2).map(incoming).collect();
    let plan = plan_follow_up(&batch, &Err("x".to_string()), &None);
    assert!(plan.dead_letters.is_empty());
    assert!(plan.identity_statements.is_empty());
    assert_eq!(plan.deletes.len(), 2);
}

#[test]
fn stored_batch_records_identities_and_deletes() {
    let mut batch: Vec<IncomingEvent> = (0..4).map(incoming).collect();
    batch[1].event = enriched(1, EventType::Identify, Some("u42"), "anon-42");
    batch[2].event = enriched(2, EventType::Identify, Some(""), "anon-43");
    batch[3].event = enriched(3, EventType::Identify, None, "anon-44");
    let plan = plan_follow_up(&batch, &Ok(()), &Some("dlq".to_string()));
    assert!(plan.dead_letters.is_empty());
    assert_eq!(
        plan.identity_statements,
        vec![
            "INSERT INTO user_identity_map (project_id, anonymous_id, user_id, first_seen, last_seen) VALUES ('22222222-2222-2222-2222-222222222222', 'anon-42', 'u42', '2023-11-14 22:13:20.250', '2023-11-14 22:13:20.250')"
                .to_string()
        ]
    );
    assert_eq!(plan.deletes.len(), 4);
    assert_eq!(plan.deletes[3], ("del_3".to_string(), "rh-3".to_string()));
    assert_eq!(delete_entries(&batch), plan.deletes);
    let events = batch_events(&batch);
    assert_eq!(events.len(), 4);
    assert_eq!(events[1].user_id, Some("u42".to_string()));
}

#[test]
fn identify_stitches_anonymous_to_known() {
    let e = enriched(1, EventType::Identify, Some("u42"), "anon-42");
    let mapping = UserIdentityMap::from_event(&e).expect("a mapping");
    assert_eq!(mapping.project_id, PROJECT);
    assert_eq!(mapping.anonymous_id, "anon-42");
    assert_eq!(mapping.user_id, "u42");
    assert_eq!(mapping.first_seen, stamp());
    assert_eq!(mapping.last_seen, stamp());
    let statement = process_identify_event(&e).expect("a statement");
    assert_eq!(Some(statement), mapping.upsert_statement());

    let mut later = enriched(2, EventType::Identify, Some("u42"), "anon-42");
    later.server_timestamp = Timestamp::new(1_700_000_100, 0);
    let second = UserIdentityMap::from_event(&later).expect("a mapping");
    assert_eq!(second.first_seen, second.last_seen);
    assert_eq!(second.last_seen, Timestamp::new(1_700_000_100, 0));
    assert!(process_identify_event(&later)
        .expect("a statement")
        .ends_with("'2023-11-14 22:15:00.000', '2023-11-14 22:15:00.000')"));
}

#[test]
fn other_events_establish_no_mapping() {
    assert!(process_identify_event(&enriched(1, EventType::Track, Some("u"), "a")).is_none());
    assert!(process_identify_event(&enriched(1, EventType::Screen, Some("u"), "a")).is_none());
    assert!(process_identify_event(&enriched(1, EventType::Identify, None, "a")).is_none());
    assert!(process_identify_event(&enriched(1, EventType::Identify, Some(""), "a")).is_none());
}

#[test]
fn identity_values_are_escaped() {
    assert_eq!(escape_ch_string("plain"), "plain");
    assert_eq!(escape_ch_string("o'brien"), "o\\'brien");
    assert_eq!(escape_ch_string("a\\b"), "a\\\\b");
    assert_eq!(escape_ch_string("\\'"), "\\\\\\'");
    assert_eq!(escape_ch_string(""), "");
    let e = enriched(1, EventType::Identify, Some("x'); DROP TABLE t; --"), "a\\");
    let statement = process_identify_event(&e).expect("a statement");
    assert!(statement.contains("'a\\\\', 'x\\'); DROP TABLE t; --'"));
}

#[test]
fn writer_config_has_the_documented_defaults() {
    assert_eq!(default_batch_size(), 1000);
    assert_eq!(default_flush_interval_secs(), 5);
    assert_eq!(default_sqs_receive_batch_size(), 10);
    assert_eq!(NUM_CONSUMERS, 3);
    assert_eq!(HEALTH_PORT, 9090);
    assert_eq!(CHANNEL_BUFFER, 10_000);
    let c = WriterConfig {
        sqs_queue_url: "https://sqs/queue".to_string(),
        clickhouse_url: "http://ch".to_string(),
        clickhouse_database: "db".to_string(),
        clickhouse_user: String::new(),
        clickhouse_password: String::new(),
        ch_batch_size: 1000,
        ch_flush_interval_secs: 5,
        sqs_receive_batch_size: 10,
        aws_region: "us-east-1".to_string(),
        sqs_endpoint_url: None,
        sentry_dsn: None,
    };
    assert_eq!(c.batch_size(), 1000);
    assert_eq!(c.flush_interval_secs(), 5);
    assert_eq!(c.flush_interval_ms(), Some(5000));
    assert_eq!(c.dlq_url(), "https://sqs/queue-dlq");
}

#[test]
fn dedup_note_names_the_strategy() {
    let note = dedup_note();
    assert!(note.contains("ReplacingMergeTree(server_timestamp)"));
    assert!(note.contains("(project_id, event_id)"));
}

#[test]
fn no_batch_is_longer_than_the_batch_size() {
    let mut b = Batcher::new("q".to_string(), None, Some(4), None);
    let mut flushed = Vec::new();
    for i in 0..11 {
        if let Some(order) = b.offer(incoming(i)) {
            assert!(order.batch.len() <= 4);
            flushed.push(order.batch.len());
        }
        if i == 9 {
            let order = b.tick().expect("a partial batch");
            assert!(order.batch.len() < 4);
            flushed.push(order.batch.len());
        }
    }
    assert_eq!(flushed, vec![4, 4, 2]);
    let mut single = Batcher::new("q".to_string(), None, Some(0), None);
    assert_eq!(single.offer(incoming(1)).expect("a flush").batch.len(), 1);
    assert_eq!(single.offer(incoming(2)).expect("a flush").batch.len(), 1);
}

#[test]
fn events_of_ordinary_times_always_have_rows() {
    let events: Vec<EnrichedEvent> =
        (0..3).map(|i| enriched(i, EventType::Track, None, "a")).collect();
    let rows = project_rows(&events).expect("rows");
    assert_eq!(rows.len(), 3);
    assert!(events.iter().all(|e| e.client_timestamp.is_renderable()));
}
