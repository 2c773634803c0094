//! Instants in UTC as plain numbers, and their rendering for the columnar store.

use std::fmt::Write;
use vstd::prelude::*;
use vstd::string::*;

verus! {

/// Seconds in a day.
pub const SECS_PER_DAY: i64 = 86400;

/// The pattern under which the columnar store takes timestamps:
/// `YYYY-MM-DD HH:MM:SS.mmm`.
pub const DATETIME_PATTERN: &'static str = "%Y-%m-%d %H:%M:%S%.3f";

/// An instant in UTC: whole seconds since 1970-01-01T00:00:00Z and the
/// nanoseconds into that second.
///
/// Instants are ordered by `secs`, then by `nanos`.
#[derive(Debug, Clone, Copy, PartialEq, Eq, Structural)]
pub struct Timestamp {
    pub secs: i64,
    pub nanos: u32,
}

/// The last second of the year 9999, in seconds since 1970-01-01T00:00:00Z.
pub const LAST_SECOND_OF_9999: i64 = 253402300799;

/// The text that chrono writes for the UTC instant `(secs, nanos)` under
/// `pattern`; `None` where chrono has no such instant or cannot apply the
/// pattern.
pub uninterp spec fn chrono_text(secs: i64, nanos: u32, pattern: Seq<char>) -> Option<Seq<char>>;

/// Trusted: makes the instant with `chrono::DateTime::from_timestamp` and
/// writes it with `DateTime::format`. The outcome is determined by the three
/// arguments alone: `None` when `from_timestamp` refuses the pair or the
/// formatter reports an error, otherwise the formatted text. `from_timestamp`
/// takes every second of the years 1970 to 9999 with nanoseconds below a full
/// second, and the formatter has everything that [`DATETIME_PATTERN`] asks
/// for, so for those instants and that pattern there is a text.
#[verifier::external_body]
fn chrono_format(secs: i64, nanos: u32, pattern: &str) -> (r: Option<String>)
    ensures
        r.deep_view() == chrono_text(secs, nanos, pattern@),
        (pattern@ == DATETIME_PATTERN@ && 0 <= secs <= LAST_SECOND_OF_9999 && nanos < 1000000000)
            ==> r is Some,
{
    match chrono::DateTime::from_timestamp(secs, nanos) {
        Some(t) => {
            let mut out = String::new();
            match write!(out, "{}", t.format(pattern)) {
                Ok(_) => Some(out),
                Err(_) => None,
            }
        },
        None => None,
    }
}

/// Trusted: reads the wall clock with `chrono::Utc::now` and hands back its
/// `timestamp()` and `timestamp_subsec_nanos()`. The instant is whatever the
/// clock says. `Utc::now` builds it from the time since the Unix epoch, so the
/// seconds are not negative and the nanoseconds stay below a full second.
/// `Utc::now` panics on a machine whose clock stands before 1970; that is a
/// state of the machine, which no precondition can rule out.
#[verifier::external_body]
fn chrono_now() -> (r: (i64, u32))
    ensures
        r.0 >= 0,
        r.1 < 1000000000,
{
    let t = chrono::Utc::now();
    (t.timestamp(), t.timestamp_subsec_nanos())
}

impl Timestamp {
    /// `self` lies strictly before `other`.
    pub open spec fn is_before(self, other: Timestamp) -> bool {
        self.secs < other.secs || (self.secs == other.secs && self.nanos < other.nanos)
    }

    /// `self` lies at or before `other`.
    pub open spec fn at_or_before(self, other: Timestamp) -> bool {
        !other.is_before(self)
    }

    /// `self` lies strictly after the instant `delta` seconds after `base`.
    pub open spec fn is_after_offset(self, base: Timestamp, delta: int) -> bool {
        self.secs > base.secs + delta || (self.secs == base.secs + delta && self.nanos
            > base.nanos)
    }

    /// `self` lies strictly before the instant `delta` seconds after `base`.
    pub open spec fn is_before_offset(self, base: Timestamp, delta: int) -> bool {
        self.secs < base.secs + delta || (self.secs == base.secs + delta && self.nanos
            < base.nanos)
    }

    /// Whether the instant lies in the years 1970 to 9999, with nanoseconds
    /// below a full second. Every such instant has a rendering.
    pub open spec fn renders(self) -> bool {
        0 <= self.secs <= LAST_SECOND_OF_9999 && self.nanos < 1000000000
    }

    /// The rendering of this instant for the columnar store, where it has one.
    pub open spec fn text(self) -> Option<Seq<char>> {
        chrono_text(self.secs, self.nanos, DATETIME_PATTERN@)
    }

    /// The instant `nanos` nanoseconds into the second `secs`.
    pub fn new(secs: i64, nanos: u32) -> (t: Timestamp)
        ensures
            t == (Timestamp { secs, nanos }),
    {
        Timestamp { secs, nanos }
    }

    /// Whether the instant lies in the years 1970 to 9999, with nanoseconds
    /// below a full second.
    pub fn is_renderable(&self) -> (r: bool)
        ensures
            r == self.renders(),
    {
        0 <= self.secs && self.secs <= LAST_SECOND_OF_9999 && self.nanos < 1000000000
    }

    /// The current instant by the wall clock: an instant at or after the Unix
    /// epoch. Panics, as the clock's reader does, on a machine whose clock
    /// stands before 1970.
    pub fn now() -> (t: Timestamp)
        ensures
            t.secs >= 0,
            t.nanos < 1000000000,
    {
        let (secs, nanos) = chrono_now();
        Timestamp { secs, nanos }
    }

    /// Whether this instant lies strictly before `other`.
    pub fn before(&self, other: &Timestamp) -> (r: bool)
        ensures
            r == self.is_before(*other),
    {
        self.secs < other.secs || (self.secs == other.secs && self.nanos < other.nanos)
    }

    /// Whether this instant is later than `base` moved by `delta` seconds.
    pub fn after_offset(&self, base: &Timestamp, delta: i64) -> (r: bool)
        ensures
            r == self.is_after_offset(*base, delta as int),
    {
        let limit: i128 = base.secs as i128 + delta as i128;
        let own: i128 = self.secs as i128;
        own > limit || (own == limit && self.nanos > base.nanos)
    }

    /// Whether this instant is earlier than `base` moved by `delta` seconds.
    pub fn before_offset(&self, base: &Timestamp, delta: i64) -> (r: bool)
        ensures
            r == self.is_before_offset(*base, delta as int),
    {
        let limit: i128 = base.secs as i128 + delta as i128;
        let own: i128 = self.secs as i128;
        own < limit || (own == limit && self.nanos < base.nanos)
    }
}

/// Renders `t` as `YYYY-MM-DD HH:MM:SS.mmm`; `None` where the calendar of the
/// formatter does not reach the instant. Every instant of the years 1970 to
/// 9999 is rendered.
pub fn format_datetime(t: &Timestamp) -> (r: Option<String>)
    ensures
        r.deep_view() == t.text(),
        t.renders() ==> r is Some,
{
    chrono_format(t.secs, t.nanos, DATETIME_PATTERN)
}

} // verus!
