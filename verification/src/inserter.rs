//! The columnar inserter's rules: how an event becomes a row, what the insert
//! statement looks like, and how failed inserts are retried.

use crate::event::{EnrichedEvent, EnrichedEventView};
use crate::text::{concat2, concat3, decimal_digits, decimal_string, join, join_spec, opt_or_empty,
    or_empty};
use crate::time::format_datetime;
use vstd::prelude::*;
use vstd::string::*;

verus! {

/// Attempts an insert gets before it is given up.
pub const MAX_RETRIES: u32 = 3;

/// Milliseconds of rest after the first failed attempt; the rest doubles with
/// every further attempt.
pub const BASE_DELAY_MS: u64 = 500;

/// What stands before the rows in an insert statement.
pub const INSERT_HEADER: &'static str = "INSERT INTO events FORMAT JSONEachRow\n";

/// One row of the `events` table: the event with its device context flattened,
/// absent values as empty text, timestamps as `YYYY-MM-DD HH:MM:SS.mmm`.
#[derive(Debug)]
pub struct EventRow {
    pub event_id: u128,
    pub event_name: String,
    pub event_type: String,
    pub user_id: String,
    pub anonymous_id: String,
    pub mobile_number: String,
    pub email: String,
    pub client_timestamp: String,
    pub server_timestamp: String,
    pub properties: String,
    pub project_id: u128,
    pub app_version: String,
    pub os_name: String,
    pub os_version: String,
    pub device_model: String,
    pub device_id: String,
    pub network_type: String,
    pub locale: String,
    pub timezone: String,
    pub sdk_version: String,
}

/// The mathematical value of an [`EventRow`].
pub ghost struct EventRowView {
    pub event_id: u128,
    pub event_name: Seq<char>,
    pub event_type: Seq<char>,
    pub user_id: Seq<char>,
    pub anonymous_id: Seq<char>,
    pub mobile_number: Seq<char>,
    pub email: Seq<char>,
    pub client_timestamp: Seq<char>,
    pub server_timestamp: Seq<char>,
    pub properties: Seq<char>,
    pub project_id: u128,
    pub app_version: Seq<char>,
    pub os_name: Seq<char>,
    pub os_version: Seq<char>,
    pub device_model: Seq<char>,
    pub device_id: Seq<char>,
    pub network_type: Seq<char>,
    pub locale: Seq<char>,
    pub timezone: Seq<char>,
    pub sdk_version: Seq<char>,
}

impl View for EventRow {
    type V = EventRowView;

    open spec fn view(&self) -> EventRowView {
        EventRowView {
            event_id: self.event_id,
            event_name: self.event_name@,
            event_type: self.event_type@,
            user_id: self.user_id@,
            anonymous_id: self.anonymous_id@,
            mobile_number: self.mobile_number@,
            email: self.email@,
            client_timestamp: self.client_timestamp@,
            server_timestamp: self.server_timestamp@,
            properties: self.properties@,
            project_id: self.project_id,
            app_version: self.app_version@,
            os_name: self.os_name@,
            os_version: self.os_version@,
            device_model: self.device_model@,
            device_id: self.device_id@,
            network_type: self.network_type@,
            locale: self.locale@,
            timezone: self.timezone@,
            sdk_version: self.sdk_version@,
        }
    }
}

impl DeepView for EventRow {
    type V = EventRowView;

    open spec fn deep_view(&self) -> EventRowView {
        self@
    }
}

/// The row for `e`, given the texts of its two timestamps.
pub open spec fn row_with(e: EnrichedEventView, client: Seq<char>, server: Seq<char>)
    -> EventRowView {
    EventRowView {
        event_id: e.event_id,
        event_name: e.event_name,
        event_type: e.event_type.wire_name(),
        user_id: or_empty(e.user_id),
        anonymous_id: e.anonymous_id,
        mobile_number: or_empty(e.mobile_number),
        email: or_empty(e.email),
        client_timestamp: client,
        server_timestamp: server,
        properties: or_empty(e.properties),
        project_id: e.project_id,
        app_version: or_empty(e.context.app_version),
        os_name: e.context.os_name,
        os_version: e.context.os_version,
        device_model: e.context.device_model,
        device_id: e.context.device_id,
        network_type: or_empty(e.context.network_type),
        locale: e.context.locale,
        timezone: e.context.timezone,
        sdk_version: e.context.sdk_version,
    }
}

/// The row for `e`; `None` where one of its timestamps has no rendering.
pub open spec fn row_of(e: EnrichedEventView) -> Option<EventRowView> {
    match (e.client_timestamp.text(), e.server_timestamp.text()) {
        (Some(client), Some(server)) => Some(row_with(e, client, server)),
        _ => None,
    }
}

/// The rows for `events`, in order; `None` where some event has no row.
pub open spec fn rows_of(events: Seq<EnrichedEventView>) -> Option<Seq<EventRowView>> {
    if forall|i: int| 0 <= i < events.len() ==> row_of(#[trigger] events[i]) is Some {
        Some(Seq::new(events.len(), |i: int| row_of(events[i])->0))
    } else {
        None
    }
}

/// The insert statement for the JSON lines `lines`; `None` for an empty
/// batch, which is not sent at all.
pub open spec fn statement_of(lines: Seq<Seq<char>>) -> Option<Seq<char>> {
    if lines.len() == 0 {
        None
    } else {
        Some(INSERT_HEADER@ + join_spec(lines, "\n"@))
    }
}

/// Two to the power `e`.
pub open spec fn pow2(e: nat) -> nat
    decreases e,
{
    if e == 0 {
        1
    } else {
        2 * pow2((e - 1) as nat)
    }
}

/// Milliseconds of rest after the failed attempt number `attempt`, counted
/// from zero: the base delay doubled `attempt` times.
pub open spec fn backoff_ms(attempt: nat) -> nat {
    (BASE_DELAY_MS * pow2(attempt)) as nat
}

/// What the inserter reports when the attempt number `attempt`, counted from
/// zero, failed.
pub open spec fn attempt_error(attempt: nat) -> Seq<char> {
    "insert attempt "@ + decimal_digits(attempt + 1) + " failed"@
}

/// What follows one attempt to insert.
#[derive(Debug)]
pub enum RetryStep {
    /// The insert went through.
    Succeeded,
    /// The attempt failed: rest, then make the attempt `next_attempt`.
    RetryAfter { delay_ms: u64, next_attempt: u32 },
    /// The last attempt failed: rest, then report `error`.
    GiveUpAfter { delay_ms: u64, error: String },
}

/// The mathematical value of a [`RetryStep`].
pub ghost enum RetryStepView {
    Succeeded,
    RetryAfter { delay_ms: u64, next_attempt: u32 },
    GiveUpAfter { delay_ms: u64, error: Seq<char> },
}

impl View for RetryStep {
    type V = RetryStepView;

    open spec fn view(&self) -> RetryStepView {
        match self {
            RetryStep::Succeeded => RetryStepView::Succeeded,
            RetryStep::RetryAfter { delay_ms, next_attempt } => RetryStepView::RetryAfter {
                delay_ms: *delay_ms,
                next_attempt: *next_attempt,
            },
            RetryStep::GiveUpAfter { delay_ms, error } => RetryStepView::GiveUpAfter {
                delay_ms: *delay_ms,
                error: error@,
            },
        }
    }
}

/// What follows the attempt number `attempt`, counted from zero, that
/// succeeded or not.
pub open spec fn retry_step(attempt: u32, succeeded: bool) -> RetryStepView {
    if succeeded {
        RetryStepView::Succeeded
    } else if attempt + 1 < MAX_RETRIES {
        RetryStepView::RetryAfter {
            delay_ms: backoff_ms(attempt as nat) as u64,
            next_attempt: (attempt + 1) as u32,
        }
    } else {
        RetryStepView::GiveUpAfter {
            delay_ms: backoff_ms(attempt as nat) as u64,
            error: attempt_error(attempt as nat),
        }
    }
}

/// A row carries the sort key of its event, `(project_id, event_id)`, and the
/// admission instant by which the store picks the winner among rows with the
/// same key. Two events with the same key and the same admission instant give
/// rows that the store cannot tell apart by key and winner.
pub proof fn law_row_carries_dedup_key(e: EnrichedEventView, other: EnrichedEventView)
    ensures
        row_of(e) matches Some(r) ==> {
            &&& r.project_id == e.project_id
            &&& r.event_id == e.event_id
            &&& Some(r.server_timestamp) == e.server_timestamp.text()
        },
        (row_of(e) matches Some(r) && row_of(other) matches Some(s) && e.project_id
            == other.project_id && e.event_id == other.event_id && e.server_timestamp
            == other.server_timestamp) ==> {
            &&& row_of(e)->0.project_id == row_of(other)->0.project_id
            &&& row_of(e)->0.event_id == row_of(other)->0.event_id
            &&& row_of(e)->0.server_timestamp == row_of(other)->0.server_timestamp
        },
{
}

impl EventRow {
    /// Projects an event onto its row. `None` where a timestamp of the event
    /// lies outside the calendar of the formatter; an event whose two
    /// timestamps lie in the years 1970 to 9999 always has its row.
    pub fn from_enriched(event: &EnrichedEvent) -> (r: Option<EventRow>)
        ensures
            r.deep_view() == row_of(event@),
            event.client_timestamp.renders() && event.server_timestamp.renders() ==> r is Some,
    {
        let client = match format_datetime(&event.client_timestamp) {
            Some(t) => t,
            None => {
                return None;
            },
        };
        let server = match format_datetime(&event.server_timestamp) {
            Some(t) => t,
            None => {
                return None;
            },
        };
        Some(
            EventRow {
                event_id: event.event_id,
                event_name: event.event_name.clone(),
                event_type: String::from_str(event.event_type.name()),
                user_id: opt_or_empty(&event.user_id),
                anonymous_id: event.anonymous_id.clone(),
                mobile_number: opt_or_empty(&event.mobile_number),
                email: opt_or_empty(&event.email),
                client_timestamp: client,
                server_timestamp: server,
                properties: opt_or_empty(&event.properties),
                project_id: event.project_id,
                app_version: opt_or_empty(&event.context.app_version),
                os_name: event.context.os_name.clone(),
                os_version: event.context.os_version.clone(),
                device_model: event.context.device_model.clone(),
                device_id: event.context.device_id.clone(),
                network_type: opt_or_empty(&event.context.network_type),
                locale: event.context.locale.clone(),
                timezone: event.context.timezone.clone(),
                sdk_version: event.context.sdk_version.clone(),
            },
        )
    }
}

/// Whether both timestamps of every event lie in the years 1970 to 9999.
pub open spec fn all_render(events: Seq<EnrichedEventView>) -> bool {
    forall|i: int|
        0 <= i < events.len() ==> (#[trigger] events[i]).client_timestamp.renders()
            && events[i].server_timestamp.renders()
}

/// Projects every event of a batch onto its row, in order. `None` where some
/// event has no row; a batch whose timestamps all lie in the years 1970 to
/// 9999 always has its rows, one for each event.
pub fn project_rows(events: &Vec<EnrichedEvent>) -> (r: Option<Vec<EventRow>>)
    ensures
        r.deep_view() == rows_of(events.deep_view()),
        all_render(events.deep_view()) ==> (r matches Some(rows) && rows@.len()
            == events@.len()),
{
    let mut rows: Vec<EventRow> = Vec::new();
    let mut i: usize = 0;
    while i < events.len()
        invariant
            i <= events.len(),
            rows@.len() == i,
            forall|j: int| 0 <= j < i ==> row_of(#[trigger] events.deep_view()[j]) == Some(rows@[j]@),
        decreases events.len() - i,
    {
        assert(events.deep_view()[i as int] == events@[i as int]@);
        match EventRow::from_enriched(&events[i]) {
            Some(row) => {
                rows.push(row);
            },
            None => {
                assert(row_of(events.deep_view()[i as int]) is None);
                return None;
            },
        }
        i += 1;
    }
    assert(rows.deep_view() =~= rows_of(events.deep_view())->0);
    Some(rows)
}

/// The insert statement for a batch whose rows are serialized as the JSON
/// lines `lines`: the header, then one line per row. An empty batch has no
/// statement: nothing is sent for it.
pub fn insert_statement(lines: &Vec<String>) -> (r: Option<String>)
    ensures
        r.deep_view() == statement_of(lines.deep_view()),
{
    if lines.len() == 0 {
        return None;
    }
    let body = join(lines, "\n");
    Some(concat2(INSERT_HEADER, body.as_str()))
}

/// Milliseconds of rest after the failed attempt number `attempt`, counted
/// from zero: 500, 1000, 2000.
pub fn retry_delay_ms(attempt: u32) -> (r: u64)
    requires
        attempt < MAX_RETRIES,
    ensures
        r == backoff_ms(attempt as nat),
        attempt == 0 ==> r == 500,
        attempt == 1 ==> r == 1000,
        attempt == 2 ==> r == 2000,
{
    reveal_with_fuel(pow2, 4);
    let mut delay: u64 = BASE_DELAY_MS;
    let mut i: u32 = 0;
    while i < attempt
        invariant
            i <= attempt,
            attempt < MAX_RETRIES,
            delay == backoff_ms(i as nat),
        decreases attempt - i,
    {
        reveal_with_fuel(pow2, 4);
        delay = delay * 2;
        i += 1;
    }
    delay
}

/// Decides what follows the attempt number `attempt`, counted from zero. A
/// success ends the insert. A failure is followed by a rest of
/// [`retry_delay_ms`]; after the rest the next attempt is made, or, when this
/// was the last attempt, the error is reported.
pub fn after_attempt(attempt: u32, succeeded: bool) -> (r: RetryStep)
    requires
        attempt < MAX_RETRIES,
    ensures
        r@ == retry_step(attempt, succeeded),
{
    if succeeded {
        return RetryStep::Succeeded;
    }
    let delay_ms = retry_delay_ms(attempt);
    if attempt + 1 < MAX_RETRIES {
        RetryStep::RetryAfter { delay_ms, next_attempt: attempt + 1 }
    } else {
        let error = concat3(
            "insert attempt ",
            decimal_string((attempt + 1) as u64).as_str(),
            " failed",
        );
        RetryStep::GiveUpAfter { delay_ms, error }
    }
}

} // verus!
