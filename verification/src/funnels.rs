//! The admin surface's rules for funnels: the query that counts how far users
//! got, and the reading of its result.

use crate::error::{AppError, AppErrorView};
use crate::text::{chars_of, concat3, join, join_spec, signed_decimal_string, signed_digits};
use vstd::prelude::*;
use vstd::string::*;

verus! {

/// Fewest steps a funnel may have.
pub const MIN_FUNNEL_STEPS: usize = 2;

/// What is said of a funnel with fewer than two steps.
pub const ERR_TOO_FEW_STEPS: &'static str = "Funnel must have at least 2 steps";

/// The funnel query up to the window.
pub const FUNNEL_QUERY_HEAD: &'static str =
    "SELECT level, count() AS users FROM ( SELECT user_uid, windowFunnel(";

/// The funnel query between the window and the conditions of the steps.
pub const FUNNEL_QUERY_AFTER_WINDOW: &'static str = ")(server_timestamp, ";

/// The funnel query between the conditions of the steps and the database.
pub const FUNNEL_QUERY_AFTER_CONDITIONS: &'static str =
    ") AS level FROM ( SELECT COALESCE(NULLIF(user_id, ''), anonymous_id) AS user_uid, server_timestamp, event_name FROM ";

/// The funnel query between the database and the names of the steps.
pub const FUNNEL_QUERY_AFTER_DATABASE: &'static str =
    ".events WHERE project_id = ? AND server_timestamp BETWEEN ? AND ? AND event_name IN (";

/// The funnel query after the names of the steps.
pub const FUNNEL_QUERY_TAIL: &'static str =
    ") ) GROUP BY user_uid ) GROUP BY level ORDER BY level";

/// One row of a funnel query: how many users got exactly as far as `level`
/// steps.
#[derive(Debug, Clone, Copy, PartialEq, Eq, Structural)]
pub struct WindowFunnelRow {
    pub level: u8,
    pub users: u64,
}

/// The window of a funnel, in seconds, where none is given: one day.
pub fn default_window() -> (r: i32)
    ensures
        r == 86400,
{
    86400
}

/// `s` with a backslash in front of every single quote.
pub open spec fn quotes_escaped(s: Seq<char>) -> Seq<char>
    decreases s.len(),
{
    if s.len() == 0 {
        Seq::empty()
    } else if s.last() == '\'' {
        quotes_escaped(s.drop_last()) + seq!['\\', '\'']
    } else {
        quotes_escaped(s.drop_last()).push(s.last())
    }
}

/// The condition that picks the events of the step named `name`.
pub open spec fn step_condition(name: Seq<char>) -> Seq<char> {
    "event_name = '"@ + quotes_escaped(name) + "'"@
}

/// The step named `name` as a quoted value.
pub open spec fn step_literal(name: Seq<char>) -> Seq<char> {
    "'"@ + quotes_escaped(name) + "'"@
}

/// The query that counts, for the funnel with the given window and steps, how
/// many users got how far.
pub open spec fn funnel_query_text(database: Seq<char>, window_seconds: i32, steps: Seq<Seq<char>>)
    -> Seq<char> {
    FUNNEL_QUERY_HEAD@ + signed_digits(window_seconds as int) + FUNNEL_QUERY_AFTER_WINDOW@
        + join_spec(steps.map_values(|s: Seq<char>| step_condition(s)), ", "@)
        + FUNNEL_QUERY_AFTER_CONDITIONS@ + database + FUNNEL_QUERY_AFTER_DATABASE@ + join_spec(
        steps.map_values(|s: Seq<char>| step_literal(s)),
        ", "@,
    ) + FUNNEL_QUERY_TAIL@
}

/// The users counted at each level from 0 to `steps` after the first `upto`
/// rows were read: a row sets the count of its level, a later row for the same
/// level replaces an earlier one, and a row for a level beyond the funnel is
/// passed over.
pub open spec fn level_counts_after(rows: Seq<WindowFunnelRow>, steps: nat, upto: int) -> Seq<u64>
    decreases upto,
{
    if upto <= 0 || upto > rows.len() {
        Seq::new(steps + 1, |i: int| 0u64)
    } else {
        let before = level_counts_after(rows, steps, upto - 1);
        let row = rows[upto - 1];
        if row.level <= steps {
            before.update(row.level as int, row.users)
        } else {
            before
        }
    }
}

/// The sum of `counts` from place `from` on.
pub open spec fn sum_from(counts: Seq<u64>, from: int) -> int
    decreases counts.len() - from,
{
    if from < 0 || from >= counts.len() {
        0
    } else {
        counts[from] + sum_from(counts, from + 1)
    }
}

/// Checks that a funnel has enough steps to be one.
pub fn validate_step_count(steps: usize) -> (r: Result<(), AppError>)
    ensures
        steps >= MIN_FUNNEL_STEPS ==> r is Ok,
        steps < MIN_FUNNEL_STEPS ==> (r matches Err(e) && e@ == AppErrorView::Validation(
            ERR_TOO_FEW_STEPS@,
        )),
{
    if steps < MIN_FUNNEL_STEPS {
        Err(AppError::Validation(String::from_str(ERR_TOO_FEW_STEPS)))
    } else {
        Ok(())
    }
}

/// Puts a backslash in front of every single quote of `s`.
pub fn escape_quotes(s: &str) -> (r: String)
    ensures
        r@ == quotes_escaped(s@),
{
    let v = chars_of(s);
    let mut out = String::new();
    let mut i: usize = 0;
    while i < v.len()
        invariant
            v@ == s@,
            i <= v.len(),
            out@ == quotes_escaped(v@.take(i as int)),
        decreases v.len() - i,
    {
        let c = v[i];
        assert(v@.take(i + 1).drop_last() =~= v@.take(i as int));
        assert(v@.take(i + 1).last() == c);
        if c == '\'' {
            out.push('\\');
            out.push('\'');
            assert(out@ =~= quotes_escaped(v@.take(i as int)) + seq!['\\', '\'']);
        } else {
            out.push(c);
        }
        i += 1;
    }
    assert(v@.take(v.len() as int) =~= v@);
    out
}

/// Builds the funnel query for the given database, window and step names.
pub fn funnel_query(database: &str, window_seconds: i32, steps: &Vec<String>) -> (r: String)
    ensures
        r@ == funnel_query_text(database@, window_seconds, steps.deep_view()),
{
    let mut conditions: Vec<String> = Vec::new();
    let mut literals: Vec<String> = Vec::new();
    let mut i: usize = 0;
    while i < steps.len()
        invariant
            i <= steps.len(),
            conditions@.len() == i,
            literals@.len() == i,
            forall|j: int| 0 <= j < i ==> (#[trigger] conditions@[j])@ == step_condition(steps@[j]@),
            forall|j: int| 0 <= j < i ==> (#[trigger] literals@[j])@ == step_literal(steps@[j]@),
        decreases steps.len() - i,
    {
        let escaped = escape_quotes(steps[i].as_str());
        conditions.push(concat3("event_name = '", escaped.as_str(), "'"));
        literals.push(concat3("'", escaped.as_str(), "'"));
        i += 1;
    }
    assert(conditions.deep_view() =~= steps.deep_view().map_values(
        |s: Seq<char>| step_condition(s),
    ));
    assert(literals.deep_view() =~= steps.deep_view().map_values(|s: Seq<char>| step_literal(s)));
    let mut out = String::from_str(FUNNEL_QUERY_HEAD);
    out.append(signed_decimal_string(window_seconds as i64).as_str());
    out.append(FUNNEL_QUERY_AFTER_WINDOW);
    out.append(join(&conditions, ", ").as_str());
    out.append(FUNNEL_QUERY_AFTER_CONDITIONS);
    out.append(database);
    out.append(FUNNEL_QUERY_AFTER_DATABASE);
    out.append(join(&literals, ", ").as_str());
    out.append(FUNNEL_QUERY_TAIL);
    out
}

/// Reads the rows of a funnel query into the users counted at each level from
/// 0 to `steps`.
pub fn level_counts(rows: &Vec<WindowFunnelRow>, steps: usize) -> (r: Vec<u64>)
    requires
        steps < usize::MAX,
    ensures
        r@ == level_counts_after(rows@, steps as nat, rows@.len() as int),
        r@.len() == steps + 1,
{
    let mut counts: Vec<u64> = Vec::new();
    let mut k: usize = 0;
    while k < steps + 1
        invariant
            steps < usize::MAX,
            k <= steps + 1,
            counts@.len() == k,
            forall|j: int| 0 <= j < k ==> counts@[j] == 0u64,
        decreases steps + 1 - k,
    {
        counts.push(0);
        k += 1;
    }
    assert(counts@ =~= level_counts_after(rows@, steps as nat, 0));
    let mut i: usize = 0;
    while i < rows.len()
        invariant
            i <= rows.len(),
            counts@.len() == steps + 1,
            counts@ == level_counts_after(rows@, steps as nat, i as int),
        decreases rows.len() - i,
    {
        let row = rows[i];
        if (row.level as usize) <= steps {
            counts.set(row.level as usize, row.users);
        }
        i += 1;
    }
    counts
}

/// The users who got at least as far as each level: for each level the sum of
/// the counts from that level on. `None` where a sum does not fit.
pub fn reached_counts(counts: &Vec<u64>) -> (r: Option<Vec<u64>>)
    ensures
        sum_from(counts@, 0) <= u64::MAX ==> (r matches Some(reached) && reached@.len()
            == counts@.len() && forall|i: int|
            0 <= i < counts@.len() ==> #[trigger] reached@[i] == sum_from(counts@, i)),
        sum_from(counts@, 0) > u64::MAX ==> r is None,
{
    let n = counts.len();
    let mut reached: Vec<u64> = Vec::new();
    let mut k: usize = 0;
    while k < n
        invariant
            k <= n,
            reached@.len() == k,
        decreases n - k,
    {
        reached.push(0);
        k += 1;
    }
    let mut running: u64 = 0;
    let mut i: usize = n;
    while i > 0
        invariant
            n == counts@.len(),
            reached@.len() == n,
            i <= n,
            running == sum_from(counts@, i as int),
            forall|j: int| i <= j < n ==> #[trigger] reached@[j] == sum_from(counts@, j),
        decreases i,
    {
        match running.checked_add(counts[i - 1]) {
            Some(sum) => {
                running = sum;
            },
            None => {
                proof {
                    lemma_sum_from_grows(counts@, 0, (i - 1) as int);
                }
                return None;
            },
        }
        reached.set(i - 1, running);
        i -= 1;
    }
    Some(reached)
}

/// Sums over longer runs are no smaller.
proof fn lemma_sum_from_grows(counts: Seq<u64>, from: int, to: int)
    requires
        0 <= from <= to <= counts.len(),
    ensures
        sum_from(counts, from) >= sum_from(counts, to),
        sum_from(counts, to) >= 0,
    decreases counts.len() - from,
{
    if from < to {
        lemma_sum_from_grows(counts, from + 1, to);
    } else if to < counts.len() {
        lemma_sum_from_grows(counts, from + 1, to + 1);
    }
}

/// The users who reached each step of a funnel with `steps` steps, given the
/// users who got at least as far as each level: the entry for step `i`,
/// counted from zero, is what reached level `i + 1`.
pub fn step_users(reached: &Vec<u64>, steps: usize) -> (r: Vec<u64>)
    ensures
        r@.len() == steps,
        forall|i: int|
            0 <= i < steps ==> #[trigger] r@[i] == (if i + 1 < reached@.len() {
                reached@[i + 1]
            } else {
                0u64
            }),
{
    let mut users: Vec<u64> = Vec::new();
    let mut i: usize = 0;
    while i < steps
        invariant
            i <= steps,
            users@.len() == i,
            forall|j: int|
                0 <= j < i ==> #[trigger] users@[j] == (if j + 1 < reached@.len() {
                    reached@[j + 1]
                } else {
                    0u64
                }),
        decreases steps - i,
    {
        let value = if i < reached.len() && i + 1 < reached.len() {
            reached[i + 1]
        } else {
            0
        };
        users.push(value);
        i += 1;
    }
    users
}

} // verus!
