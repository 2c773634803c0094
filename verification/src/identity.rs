//! Identity resolution: the mapping from an anonymous id to a known user that
//! an identify event establishes, and the statement that records it.

use crate::event::{names_user, EnrichedEvent, EnrichedEventView, EventType};
use crate::ids::{id_text, id_to_string};
use crate::text::chars_of;
use crate::time::{format_datetime, Timestamp};
use vstd::prelude::*;
use vstd::string::*;

verus! {

/// What stands before the values in an identity upsert.
pub const IDENTITY_INSERT_HEADER: &'static str =
    "INSERT INTO user_identity_map (project_id, anonymous_id, user_id, first_seen, last_seen) VALUES (";

/// One row of the identity table. The table is sorted by `(project_id,
/// anonymous_id, user_id)` and replaces on match with `last_seen` as the
/// winner.
#[derive(Debug)]
pub struct UserIdentityMap {
    pub project_id: u128,
    pub anonymous_id: String,
    pub user_id: String,
    pub first_seen: Timestamp,
    pub last_seen: Timestamp,
}

/// The mathematical value of a [`UserIdentityMap`].
pub ghost struct UserIdentityMapView {
    pub project_id: u128,
    pub anonymous_id: Seq<char>,
    pub user_id: Seq<char>,
    pub first_seen: Timestamp,
    pub last_seen: Timestamp,
}

impl View for UserIdentityMap {
    type V = UserIdentityMapView;

    open spec fn view(&self) -> UserIdentityMapView {
        UserIdentityMapView {
            project_id: self.project_id,
            anonymous_id: self.anonymous_id@,
            user_id: self.user_id@,
            first_seen: self.first_seen,
            last_seen: self.last_seen,
        }
    }
}

impl DeepView for UserIdentityMap {
    type V = UserIdentityMapView;

    open spec fn deep_view(&self) -> UserIdentityMapView {
        self@
    }
}

/// How one character is written inside a quoted value: a backslash and a
/// single quote each get a backslash in front.
pub open spec fn escape_char(c: char) -> Seq<char> {
    if c == '\\' {
        seq!['\\', '\\']
    } else if c == '\'' {
        seq!['\\', '\'']
    } else {
        seq![c]
    }
}

/// `s` as it is written inside a quoted value.
pub open spec fn escaped(s: Seq<char>) -> Seq<char>
    decreases s.len(),
{
    if s.len() == 0 {
        Seq::empty()
    } else {
        escaped(s.drop_last()) + escape_char(s.last())
    }
}

/// How many backslashes stand at the very end of `t`.
pub open spec fn trailing_backslashes(t: Seq<char>) -> nat
    decreases t.len(),
{
    if t.len() == 0 || t.last() != '\\' {
        0
    } else {
        1 + trailing_backslashes(t.drop_last())
    }
}

/// Whether `t` can stand between single quotes without ending the value
/// early or running into the closing quote: every single quote in `t` has an
/// odd number of backslashes right before it, so it is an escaped one, and `t`
/// ends in an even number of backslashes, so the closing quote is not.
pub open spec fn stays_quoted(t: Seq<char>) -> bool {
    &&& trailing_backslashes(t) % 2 == 0
    &&& forall|i: int|
        0 <= i < t.len() && t[i] == '\'' ==> trailing_backslashes(#[trigger] t.take(i)) % 2 == 1
}

/// Whatever text is escaped, the result stays inside its quotes.
pub proof fn law_escaped_stays_quoted(s: Seq<char>)
    ensures
        stays_quoted(escaped(s)),
    decreases s.len(),
{
    if s.len() > 0 {
        let head = escaped(s.drop_last());
        let c = s.last();
        let whole = escaped(s);
        law_escaped_stays_quoted(s.drop_last());
        assert(whole == head + escape_char(c));
        assert forall|i: int| 0 <= i < head.len() implies #[trigger] whole.take(i) == head.take(
            i,
        ) by {
            assert(whole.take(i) =~= head.take(i));
        }
        if c == '\\' {
            let mid = head.push('\\');
            assert(whole =~= mid.push('\\'));
            assert(whole.drop_last() =~= mid);
            assert(mid.drop_last() =~= head);
            assert(trailing_backslashes(mid) == 1 + trailing_backslashes(head));
            assert(trailing_backslashes(whole) == 2 + trailing_backslashes(head));
            assert forall|i: int| 0 <= i < whole.len() && whole[i] == '\'' implies trailing_backslashes(
                #[trigger] whole.take(i),
            ) % 2 == 1 by {
                assert(i < head.len());
                assert(whole[i] == head[i]);
            }
        } else if c == '\'' {
            let mid = head.push('\\');
            assert(whole =~= mid.push('\''));
            assert(mid.drop_last() =~= head);
            assert(trailing_backslashes(mid) == 1 + trailing_backslashes(head));
            assert(trailing_backslashes(whole) == 0);
            assert forall|i: int| 0 <= i < whole.len() && whole[i] == '\'' implies trailing_backslashes(
                #[trigger] whole.take(i),
            ) % 2 == 1 by {
                if i < head.len() {
                    assert(whole[i] == head[i]);
                } else {
                    assert(whole[head.len() as int] == '\\');
                    assert(i == head.len() + 1);
                    assert(whole.take(i) =~= mid);
                }
            }
        } else {
            assert(whole =~= head.push(c));
            assert(trailing_backslashes(whole) == 0);
            assert forall|i: int| 0 <= i < whole.len() && whole[i] == '\'' implies trailing_backslashes(
                #[trigger] whole.take(i),
            ) % 2 == 1 by {
                assert(i < head.len());
                assert(whole[i] == head[i]);
            }
        }
    }
}

/// `s` between single quotes.
pub open spec fn quoted(s: Seq<char>) -> Seq<char> {
    seq!['\''] + s + seq!['\'']
}

/// The mapping that `e` establishes: one for an identify event that names a
/// user, none for any other event.
pub open spec fn mapping_of(e: EnrichedEventView) -> Option<UserIdentityMapView> {
    if e.event_type == EventType::Identify && names_user(e.user_id) {
        Some(
            UserIdentityMapView {
                project_id: e.project_id,
                anonymous_id: e.anonymous_id,
                user_id: e.user_id->0,
                first_seen: e.server_timestamp,
                last_seen: e.server_timestamp,
            },
        )
    } else {
        None
    }
}

/// The statement that records `m`, given the texts of its two instants.
pub open spec fn upsert_text(m: UserIdentityMapView, first: Seq<char>, last: Seq<char>) -> Seq<
    char,
> {
    IDENTITY_INSERT_HEADER@ + quoted(id_text(m.project_id)) + ", "@ + quoted(
        escaped(m.anonymous_id),
    ) + ", "@ + quoted(escaped(m.user_id)) + ", "@ + quoted(first) + ", "@ + quoted(last) + ")"@
}

/// The statement that records `m`; `None` where one of its instants has no
/// rendering.
pub open spec fn upsert_of(m: UserIdentityMapView) -> Option<Seq<char>> {
    match (m.first_seen.text(), m.last_seen.text()) {
        (Some(first), Some(last)) => Some(upsert_text(m, first, last)),
        _ => None,
    }
}

/// The statement to run for `e`: the upsert of the mapping it establishes,
/// where it establishes one that can be written.
pub open spec fn identify_statement(e: EnrichedEventView) -> Option<Seq<char>> {
    match mapping_of(e) {
        Some(m) => upsert_of(m),
        None => None,
    }
}

/// Escapes `s` for use inside a quoted value: every backslash and every
/// single quote gets a backslash in front.
pub fn escape_ch_string(s: &str) -> (r: String)
    ensures
        r@ == escaped(s@),
        stays_quoted(r@),
{
    proof {
        law_escaped_stays_quoted(s@);
    }
    let v = chars_of(s);
    let mut out = String::new();
    let mut i: usize = 0;
    while i < v.len()
        invariant
            v@ == s@,
            i <= v.len(),
            out@ == escaped(v@.take(i as int)),
        decreases v.len() - i,
    {
        let c = v[i];
        assert(v@.take(i + 1).drop_last() =~= v@.take(i as int));
        assert(v@.take(i + 1).last() == c);
        if c == '\\' {
            out.push('\\');
            out.push('\\');
        } else if c == '\'' {
            out.push('\\');
            out.push('\'');
        } else {
            out.push(c);
        }
        assert(out@ =~= escaped(v@.take(i as int)) + escape_char(c));
        i += 1;
    }
    assert(v@.take(v.len() as int) =~= v@);
    out
}

/// Appends `s` between single quotes to `out`.
fn push_quoted(out: &mut String, s: &str)
    ensures
        final(out)@ == old(out)@ + quoted(s@),
{
    out.push('\'');
    out.append(s);
    out.push('\'');
    assert(out@ =~= old(out)@ + quoted(s@));
}

impl UserIdentityMap {
    /// The mapping that `event` establishes, if it is an identify event that
    /// names a user. Both instants of the mapping are the event's admission
    /// instant.
    pub fn from_event(event: &EnrichedEvent) -> (r: Option<UserIdentityMap>)
        ensures
            r.deep_view() == mapping_of(event@),
    {
        if event.event_type != EventType::Identify {
            return None;
        }
        match &event.user_id {
            Some(user_id) => {
                if user_id.as_str().unicode_len() == 0 {
                    return None;
                }
                Some(
                    UserIdentityMap {
                        project_id: event.project_id,
                        anonymous_id: event.anonymous_id.clone(),
                        user_id: user_id.clone(),
                        first_seen: event.server_timestamp,
                        last_seen: event.server_timestamp,
                    },
                )
            },
            None => None,
        }
    }

    /// The single-row insert that records this mapping, its text values
    /// escaped. `None` where an instant of the mapping lies outside the
    /// calendar of the formatter; a mapping whose instants lie in the years
    /// 1970 to 9999 always has its statement.
    pub fn upsert_statement(&self) -> (r: Option<String>)
        ensures
            r.deep_view() == upsert_of(self@),
            self.first_seen.renders() && self.last_seen.renders() ==> r is Some,
    {
        let first = match format_datetime(&self.first_seen) {
            Some(t) => t,
            None => {
                return None;
            },
        };
        let last = match format_datetime(&self.last_seen) {
            Some(t) => t,
            None => {
                return None;
            },
        };
        let mut out = String::from_str(IDENTITY_INSERT_HEADER);
        push_quoted(&mut out, id_to_string(self.project_id).as_str());
        out.append(", ");
        push_quoted(&mut out, escape_ch_string(self.anonymous_id.as_str()).as_str());
        out.append(", ");
        push_quoted(&mut out, escape_ch_string(self.user_id.as_str()).as_str());
        out.append(", ");
        push_quoted(&mut out, first.as_str());
        out.append(", ");
        push_quoted(&mut out, last.as_str());
        out.append(")");
        assert(out@ =~= upsert_text(self@, first@, last@));
        Some(out)
    }
}

/// The statement to run for `event` after it was stored: the upsert of the
/// identity mapping for an identify event that names a user, nothing for any
/// other event.
pub fn process_identify_event(event: &EnrichedEvent) -> (r: Option<String>)
    ensures
        r.deep_view() == identify_statement(event@),
        mapping_of(event@) is None ==> r is None,
        mapping_of(event@) is Some && event.server_timestamp.renders() ==> r is Some,
{
    match UserIdentityMap::from_event(event) {
        Some(mapping) => mapping.upsert_statement(),
        None => None,
    }
}

} // verus!
