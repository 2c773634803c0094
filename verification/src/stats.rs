//! The admin surface's rules for statistics: paging of event listings, the
//! shape of the queries, and the merging of their results.

use crate::text::{concat3, join, join_spec, str_eq};
use vstd::prelude::*;
use vstd::string::*;

verus! {

/// Most events per page of a listing.
pub const MAX_EVENTS_PER_PAGE: u64 = 200;

/// The condition on the project.
pub const COND_PROJECT: &'static str = "project_id = ?";

/// The condition on the time range.
pub const COND_TIME_RANGE: &'static str = "server_timestamp BETWEEN ? AND ?";

/// The condition of the filter by event type.
pub const COND_EVENT_TYPE: &'static str = "event_type = ?";

/// The condition of the filter by event name.
pub const COND_EVENT_NAME: &'static str = "event_name = ?";

/// The condition of the filter by user.
pub const COND_USER_ID: &'static str = "user_id = ?";

/// The condition of the filter by anonymous id.
pub const COND_ANONYMOUS_ID: &'static str = "anonymous_id = ?";

/// How many events of a kind were stored.
#[derive(Debug)]
pub struct TypeCount {
    pub event_type: String,
    pub count: u64,
}

/// How many events of a name were stored.
#[derive(Debug)]
pub struct TopEvent {
    pub name: String,
    pub count: u64,
}

/// What a listing of events says of itself.
#[derive(Debug, Clone, Copy, PartialEq, Eq, Structural)]
pub struct ListEventsMetadata {
    pub page: u64,
    pub per_page: u64,
    pub has_more: bool,
}

/// The users that were active in a period.
#[derive(Debug)]
pub struct ActiveUsersRow {
    pub period: String,
    pub active_users: u64,
}

/// The users that were first seen in a period.
#[derive(Debug)]
pub struct NewUsersRow {
    pub period: String,
    pub new_users: u64,
}

/// The active and the new users of a period.
#[derive(Debug)]
pub struct ActiveUsersPoint {
    pub period: String,
    pub active_users: u64,
    pub new_users: u64,
}

/// The mathematical value of an [`ActiveUsersPoint`].
pub ghost struct ActiveUsersPointView {
    pub period: Seq<char>,
    pub active_users: u64,
    pub new_users: u64,
}

impl View for ActiveUsersPoint {
    type V = ActiveUsersPointView;

    open spec fn view(&self) -> ActiveUsersPointView {
        ActiveUsersPointView {
            period: self.period@,
            active_users: self.active_users,
            new_users: self.new_users,
        }
    }
}

impl DeepView for ActiveUsersPoint {
    type V = ActiveUsersPointView;

    open spec fn deep_view(&self) -> ActiveUsersPointView {
        self@
    }
}

/// The page of a listing of events, where it starts, and how many rows are
/// fetched for it: one more than the page holds, to see whether more follow.
#[derive(Debug, Clone, Copy, PartialEq, Eq, Structural)]
pub struct EventsPaging {
    pub page: u64,
    pub per_page: u64,
    pub offset: u64,
    pub fetch_limit: u64,
}

/// The granularity of throughput where none is asked for.
pub fn default_granularity() -> (r: String)
    ensures
        r@ == "hour"@,
{
    String::from_str("hour")
}

/// The number of top events where none is asked for.
pub fn default_limit() -> (r: u64)
    ensures
        r == 10,
{
    10
}

/// The page of events where none is asked for.
pub fn default_events_page() -> (r: u64)
    ensures
        r == 1,
{
    1
}

/// Events per page where no number is asked for.
pub fn default_events_per_page() -> (r: u64)
    ensures
        r == 50,
{
    50
}

/// The granularity of active users where none is asked for.
pub fn default_active_granularity() -> (r: String)
    ensures
        r@ == "day"@,
{
    String::from_str("day")
}

/// The function of the store that cuts a timestamp down to the start of its
/// throughput bucket: the minute for `minute`, the hour for anything else.
pub fn throughput_bucket_fn(granularity: &str) -> (r: &'static str)
    ensures
        r@ == (if granularity@ == "minute"@ {
            "toStartOfMinute"@
        } else {
            "toStartOfHour"@
        }),
{
    if str_eq(granularity, "minute") {
        "toStartOfMinute"
    } else {
        "toStartOfHour"
    }
}

/// The expression of the store that names the period of the date `column`.
pub open spec fn period_expr(granularity: Seq<char>, column: Seq<char>) -> Seq<char> {
    if granularity == "week"@ {
        "toString(toMonday("@ + column + "))"@
    } else if granularity == "month"@ {
        "toString(toStartOfMonth("@ + column + "))"@
    } else {
        "toString("@ + column + ")"@
    }
}

/// The expression of the store that names the period of the date `column`:
/// its Monday for `week`, the first of its month for `month`, the day itself
/// for anything else.
pub fn period_expression(granularity: &str, column: &str) -> (r: String)
    ensures
        r@ == period_expr(granularity@, column@),
{
    if str_eq(granularity, "week") {
        concat3("toString(toMonday(", column, "))")
    } else if str_eq(granularity, "month") {
        concat3("toString(toStartOfMonth(", column, "))")
    } else {
        concat3("toString(", column, ")")
    }
}

/// The page of events to show for a request of `page` and `per_page`: the
/// page is at least the first, a page holds between 1 and
/// [`MAX_EVENTS_PER_PAGE`] events. `None` where the page lies so far out that
/// its offset cannot be counted.
pub fn events_paging(page: u64, per_page: u64) -> (r: Option<EventsPaging>)
    ensures
        ({
            let p: int = if page < 1 {
                1
            } else {
                page as int
            };
            let n: int = if per_page < 1 {
                1
            } else if per_page > MAX_EVENTS_PER_PAGE {
                MAX_EVENTS_PER_PAGE as int
            } else {
                per_page as int
            };
            r == (if (p - 1) * n <= u64::MAX {
                Some(
                    EventsPaging {
                        page: p as u64,
                        per_page: n as u64,
                        offset: ((p - 1) * n) as u64,
                        fetch_limit: (n + 1) as u64,
                    },
                )
            } else {
                None
            })
        }),
{
    let p: u64 = if page < 1 {
        1
    } else {
        page
    };
    let n: u64 = if per_page < 1 {
        1
    } else if per_page > MAX_EVENTS_PER_PAGE {
        MAX_EVENTS_PER_PAGE
    } else {
        per_page
    };
    match (p - 1).checked_mul(n) {
        Some(offset) => Some(EventsPaging { page: p, per_page: n, offset, fetch_limit: n + 1 }),
        None => None,
    }
}

/// The conditions of a listing of events: the project and the time range
/// always, then one for each filter that is present, in the order in which
/// their values are bound.
pub open spec fn event_conditions(
    by_event_type: bool,
    by_event_name: bool,
    by_user_id: bool,
    by_anonymous_id: bool,
) -> Seq<Seq<char>> {
    seq![COND_PROJECT@, COND_TIME_RANGE@] + (if by_event_type {
        seq![COND_EVENT_TYPE@]
    } else {
        Seq::empty()
    }) + (if by_event_name {
        seq![COND_EVENT_NAME@]
    } else {
        Seq::empty()
    }) + (if by_user_id {
        seq![COND_USER_ID@]
    } else {
        Seq::empty()
    }) + (if by_anonymous_id {
        seq![COND_ANONYMOUS_ID@]
    } else {
        Seq::empty()
    })
}

/// The `WHERE` clause of a listing of events: its conditions joined by
/// `AND`.
pub fn events_where_clause(
    by_event_type: bool,
    by_event_name: bool,
    by_user_id: bool,
    by_anonymous_id: bool,
) -> (r: String)
    ensures
        r@ == join_spec(
            event_conditions(by_event_type, by_event_name, by_user_id, by_anonymous_id),
            " AND "@,
        ),
{
    let mut conditions: Vec<String> = Vec::new();
    conditions.push(String::from_str(COND_PROJECT));
    conditions.push(String::from_str(COND_TIME_RANGE));
    if by_event_type {
        conditions.push(String::from_str(COND_EVENT_TYPE));
    }
    if by_event_name {
        conditions.push(String::from_str(COND_EVENT_NAME));
    }
    if by_user_id {
        conditions.push(String::from_str(COND_USER_ID));
    }
    if by_anonymous_id {
        conditions.push(String::from_str(COND_ANONYMOUS_ID));
    }
    assert(conditions.deep_view() =~= event_conditions(
        by_event_type,
        by_event_name,
        by_user_id,
        by_anonymous_id,
    ));
    join(&conditions, " AND ")
}

/// Cuts the fetched rows down to the page: a page is full and more follow
/// exactly when more rows were fetched than a page holds.
pub fn finish_page<T>(rows: Vec<T>, paging: &EventsPaging) -> (r: (Vec<T>, ListEventsMetadata))
    ensures
        r.1.page == paging.page,
        r.1.per_page == paging.per_page,
        r.1.has_more == (rows@.len() > paging.per_page),
        r.0@ == (if rows@.len() > paging.per_page {
            rows@.subrange(0, paging.per_page as int)
        } else {
            rows@
        }),
{
    let mut rows = rows;
    let has_more = rows.len() as u64 > paging.per_page;
    if has_more {
        rows.truncate(paging.per_page as usize);
    }
    (rows, ListEventsMetadata { page: paging.page, per_page: paging.per_page, has_more })
}

/// The new users recorded for `period` among the first `upto` rows: those of
/// the last row for that period, zero where there is none.
pub open spec fn new_users_for(rows: Seq<NewUsersRow>, period: Seq<char>, upto: int) -> u64
    decreases upto,
{
    if upto <= 0 || upto > rows.len() {
        0
    } else if rows[upto - 1].period@ == period {
        rows[upto - 1].new_users
    } else {
        new_users_for(rows, period, upto - 1)
    }
}

/// The points for the active rows, each with the new users of its period.
pub open spec fn merged_points(active: Seq<ActiveUsersRow>, new_rows: Seq<NewUsersRow>) -> Seq<
    ActiveUsersPointView,
> {
    Seq::new(
        active.len(),
        |i: int|
            ActiveUsersPointView {
                period: active[i].period@,
                active_users: active[i].active_users,
                new_users: new_users_for(new_rows, active[i].period@, new_rows.len() as int),
            },
    )
}

/// The new users recorded for `period`.
fn lookup_new_users(new_rows: &Vec<NewUsersRow>, period: &str) -> (r: u64)
    ensures
        r == new_users_for(new_rows@, period@, new_rows@.len() as int),
{
    let mut i: usize = new_rows.len();
    while i > 0
        invariant
            i <= new_rows.len(),
            new_users_for(new_rows@, period@, new_rows@.len() as int) == new_users_for(
                new_rows@,
                period@,
                i as int,
            ),
        decreases i,
    {
        if str_eq(new_rows[i - 1].period.as_str(), period) {
            return new_rows[i - 1].new_users;
        }
        i -= 1;
    }
    0
}

/// Puts the active and the new users of each period together: one point per
/// active row, in order, with the new users of the same period, or zero where
/// none were recorded.
pub fn merge_active_users(active: Vec<ActiveUsersRow>, new_rows: &Vec<NewUsersRow>) -> (r: Vec<
    ActiveUsersPoint,
>)
    ensures
        r.deep_view() == merged_points(active@, new_rows@),
{
    let ghost rows = active@;
    let mut points: Vec<ActiveUsersPoint> = Vec::new();
    for row in it: active
        invariant
            it.seq() == rows,
            points@.len() == it.index(),
            forall|j: int|
                0 <= j < points@.len() ==> (#[trigger] points@[j])@ == merged_points(
                    rows,
                    new_rows@,
                )[j],
    {
        let new_users = lookup_new_users(new_rows, row.period.as_str());
        points.push(
            ActiveUsersPoint { period: row.period, active_users: row.active_users, new_users },
        );
    }
    assert(points.deep_view() =~= merged_points(rows, new_rows@));
    points
}

} // verus!
