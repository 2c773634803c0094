//! The wire schema of analytics events and the rules an event must meet.

use crate::text::{
    all_digits, alphanumeric, chars_of, clone_opt, contains_char, is_all_digits,
    is_ascii_alphanumeric,
};
use crate::time::Timestamp;
use vstd::prelude::*;
use vstd::string::*;

verus! {

/// Most characters an event name may have.
pub const MAX_EVENT_NAME_CHARS: usize = 256;

/// The digits a mobile number has.
pub const MOBILE_NUMBER_DIGITS: usize = 10;

/// Fewest bytes an e-mail address may have.
pub const MIN_EMAIL_BYTES: usize = 5;

/// How far ahead of the server's clock a client timestamp may lie: 24 hours.
pub const MAX_FUTURE_SECS: i64 = 86400;

/// How far behind the server's clock a client timestamp may lie: 30 days.
pub const MAX_PAST_SECS: i64 = 2592000;

/// The failure of an event name that is too long.
pub const ERR_NAME_TOO_LONG: &'static str = "event_name must be at most 256 characters";

/// The failure of an event name with a character that is not allowed.
pub const ERR_NAME_CHARS: &'static str =
    "event_name contains invalid characters; only alphanumeric, spaces, _, ., -, and $ are allowed";

/// The failure of an identify event that names no user.
pub const ERR_USER_ID_REQUIRED: &'static str = "user_id is required for identify events";

/// The failure of a malformed mobile number.
pub const ERR_MOBILE_NUMBER: &'static str = "mobile_number must be exactly 10 digits";

/// The failure of a malformed e-mail address.
pub const ERR_EMAIL: &'static str = "email is not valid";

/// The failure of a client timestamp too far ahead.
pub const ERR_TIMESTAMP_FUTURE: &'static str =
    "client_timestamp must not be more than 24 hours in the future";

/// The failure of a client timestamp too far behind.
pub const ERR_TIMESTAMP_PAST: &'static str =
    "client_timestamp must not be more than 30 days in the past";

/// The failure of an empty anonymous id.
pub const ERR_ANONYMOUS_ID: &'static str = "anonymous_id must not be empty";

/// The kind of an event.
#[derive(Debug, Clone, Copy, PartialEq, Eq, Structural)]
pub enum EventType {
    Track,
    Identify,
    Screen,
}

impl EventType {
    /// The name of the kind on the wire and in the store.
    pub open spec fn wire_name(self) -> Seq<char> {
        match self {
            EventType::Track => "track"@,
            EventType::Identify => "identify"@,
            EventType::Screen => "screen"@,
        }
    }

    /// The lower-case name of the kind on the wire and in the store.
    pub fn name(&self) -> (r: &'static str)
        ensures
            r@ == self.wire_name(),
    {
        match self {
            EventType::Track => "track",
            EventType::Identify => "identify",
            EventType::Screen => "screen",
        }
    }
}

/// What the SDK reports of the device an event comes from.
#[derive(Debug)]
pub struct DeviceContext {
    pub app_version: Option<String>,
    pub os_name: String,
    pub os_version: String,
    pub device_model: String,
    pub device_id: String,
    pub network_type: Option<String>,
    pub locale: String,
    pub timezone: String,
    pub sdk_version: String,
}

/// The mathematical value of a [`DeviceContext`].
pub ghost struct DeviceContextView {
    pub app_version: Option<Seq<char>>,
    pub os_name: Seq<char>,
    pub os_version: Seq<char>,
    pub device_model: Seq<char>,
    pub device_id: Seq<char>,
    pub network_type: Option<Seq<char>>,
    pub locale: Seq<char>,
    pub timezone: Seq<char>,
    pub sdk_version: Seq<char>,
}

impl View for DeviceContext {
    type V = DeviceContextView;

    open spec fn view(&self) -> DeviceContextView {
        DeviceContextView {
            app_version: self.app_version.deep_view(),
            os_name: self.os_name@,
            os_version: self.os_version@,
            device_model: self.device_model@,
            device_id: self.device_id@,
            network_type: self.network_type.deep_view(),
            locale: self.locale@,
            timezone: self.timezone@,
            sdk_version: self.sdk_version@,
        }
    }
}

impl DeepView for DeviceContext {
    type V = DeviceContextView;

    open spec fn deep_view(&self) -> DeviceContextView {
        self@
    }
}

impl Clone for DeviceContext {
    fn clone(&self) -> (r: Self)
        ensures
            r@ == self@,
    {
        DeviceContext {
            app_version: clone_opt(&self.app_version),
            os_name: self.os_name.clone(),
            os_version: self.os_version.clone(),
            device_model: self.device_model.clone(),
            device_id: self.device_id.clone(),
            network_type: clone_opt(&self.network_type),
            locale: self.locale.clone(),
            timezone: self.timezone.clone(),
            sdk_version: self.sdk_version.clone(),
        }
    }
}

/// An event as an SDK sends it. `properties`, where present, is the JSON text
/// of the client's free-form data; the library never looks inside it.
#[derive(Debug)]
pub struct IngestEvent {
    pub event_id: u128,
    pub event_name: String,
    pub event_type: EventType,
    pub user_id: Option<String>,
    pub anonymous_id: String,
    pub mobile_number: Option<String>,
    pub email: Option<String>,
    pub client_timestamp: Timestamp,
    pub properties: Option<String>,
    pub context: DeviceContext,
}

/// The mathematical value of an [`IngestEvent`].
pub ghost struct IngestEventView {
    pub event_id: u128,
    pub event_name: Seq<char>,
    pub event_type: EventType,
    pub user_id: Option<Seq<char>>,
    pub anonymous_id: Seq<char>,
    pub mobile_number: Option<Seq<char>>,
    pub email: Option<Seq<char>>,
    pub client_timestamp: Timestamp,
    pub properties: Option<Seq<char>>,
    pub context: DeviceContextView,
}

impl View for IngestEvent {
    type V = IngestEventView;

    open spec fn view(&self) -> IngestEventView {
        IngestEventView {
            event_id: self.event_id,
            event_name: self.event_name@,
            event_type: self.event_type,
            user_id: self.user_id.deep_view(),
            anonymous_id: self.anonymous_id@,
            mobile_number: self.mobile_number.deep_view(),
            email: self.email.deep_view(),
            client_timestamp: self.client_timestamp,
            properties: self.properties.deep_view(),
            context: self.context@,
        }
    }
}

impl DeepView for IngestEvent {
    type V = IngestEventView;

    open spec fn deep_view(&self) -> IngestEventView {
        self@
    }
}

impl Clone for IngestEvent {
    fn clone(&self) -> (r: Self)
        ensures
            r@ == self@,
    {
        IngestEvent {
            event_id: self.event_id,
            event_name: self.event_name.clone(),
            event_type: self.event_type,
            user_id: clone_opt(&self.user_id),
            anonymous_id: self.anonymous_id.clone(),
            mobile_number: clone_opt(&self.mobile_number),
            email: clone_opt(&self.email),
            client_timestamp: self.client_timestamp,
            properties: clone_opt(&self.properties),
            context: self.context.clone(),
        }
    }
}

/// An event after admission: the client's event, the project it was admitted
/// for and the instant of admission.
#[derive(Debug)]
pub struct EnrichedEvent {
    pub event_id: u128,
    pub event_name: String,
    pub event_type: EventType,
    pub user_id: Option<String>,
    pub anonymous_id: String,
    pub mobile_number: Option<String>,
    pub email: Option<String>,
    pub client_timestamp: Timestamp,
    pub properties: Option<String>,
    pub context: DeviceContext,
    pub project_id: u128,
    pub server_timestamp: Timestamp,
}

/// The mathematical value of an [`EnrichedEvent`].
pub ghost struct EnrichedEventView {
    pub event_id: u128,
    pub event_name: Seq<char>,
    pub event_type: EventType,
    pub user_id: Option<Seq<char>>,
    pub anonymous_id: Seq<char>,
    pub mobile_number: Option<Seq<char>>,
    pub email: Option<Seq<char>>,
    pub client_timestamp: Timestamp,
    pub properties: Option<Seq<char>>,
    pub context: DeviceContextView,
    pub project_id: u128,
    pub server_timestamp: Timestamp,
}

impl View for EnrichedEvent {
    type V = EnrichedEventView;

    open spec fn view(&self) -> EnrichedEventView {
        EnrichedEventView {
            event_id: self.event_id,
            event_name: self.event_name@,
            event_type: self.event_type,
            user_id: self.user_id.deep_view(),
            anonymous_id: self.anonymous_id@,
            mobile_number: self.mobile_number.deep_view(),
            email: self.email.deep_view(),
            client_timestamp: self.client_timestamp,
            properties: self.properties.deep_view(),
            context: self.context@,
            project_id: self.project_id,
            server_timestamp: self.server_timestamp,
        }
    }
}

impl DeepView for EnrichedEvent {
    type V = EnrichedEventView;

    open spec fn deep_view(&self) -> EnrichedEventView {
        self@
    }
}

impl Clone for EnrichedEvent {
    fn clone(&self) -> (r: Self)
        ensures
            r@ == self@,
    {
        EnrichedEvent {
            event_id: self.event_id,
            event_name: self.event_name.clone(),
            event_type: self.event_type,
            user_id: clone_opt(&self.user_id),
            anonymous_id: self.anonymous_id.clone(),
            mobile_number: clone_opt(&self.mobile_number),
            email: clone_opt(&self.email),
            client_timestamp: self.client_timestamp,
            properties: clone_opt(&self.properties),
            context: self.context.clone(),
            project_id: self.project_id,
            server_timestamp: self.server_timestamp,
        }
    }
}

/// The body of a batch request.
#[derive(Debug)]
pub struct BatchRequest {
    pub batch: Vec<IngestEvent>,
    pub sent_at: Timestamp,
}

/// Whether `c` may occur in an event name: a letter or digit, a space, or one
/// of `_ . - $`.
pub open spec fn name_char_allowed(c: char) -> bool {
    alphanumeric(c) || c == ' ' || c == '_' || c == '.' || c == '-' || c == '$'
}

/// Whether every character of `name` may occur in an event name.
pub open spec fn name_chars_allowed(name: Seq<char>) -> bool {
    forall|i: int| 0 <= i < name.len() ==> name_char_allowed(#[trigger] name[i])
}

/// Whether `user_id` names a user: present and not empty.
pub open spec fn names_user(user_id: Option<Seq<char>>) -> bool {
    user_id matches Some(u) && u.len() > 0
}

/// A mobile number is exactly ten ASCII digits.
pub open spec fn mobile_number_ok(m: Seq<char>) -> bool {
    m.len() == MOBILE_NUMBER_DIGITS && all_digits(m)
}

/// An e-mail address holds `@` and `.` and is at least five bytes long.
pub open spec fn email_ok(e: Seq<char>) -> bool {
    e.contains('@') && e.contains('.') && vstd::utf8::encode_utf8(e).len() >= MIN_EMAIL_BYTES
}

/// The one-element list of `msg` where `failed`, the empty list otherwise.
pub open spec fn when(failed: bool, msg: Seq<char>) -> Seq<Seq<char>> {
    if failed {
        seq![msg]
    } else {
        Seq::empty()
    }
}

/// Every rule that `e` breaks when judged at the instant `now`, each by its
/// message, in the order in which the rules are checked.
pub open spec fn event_errors(e: IngestEventView, now: Timestamp) -> Seq<Seq<char>> {
    when(e.event_name.len() > MAX_EVENT_NAME_CHARS, ERR_NAME_TOO_LONG@) + when(
        !name_chars_allowed(e.event_name),
        ERR_NAME_CHARS@,
    ) + when(e.event_type == EventType::Identify && !names_user(e.user_id), ERR_USER_ID_REQUIRED@)
        + when(
        e.mobile_number matches Some(m) && !mobile_number_ok(m),
        ERR_MOBILE_NUMBER@,
    ) + when(e.email matches Some(a) && !email_ok(a), ERR_EMAIL@) + when(
        e.client_timestamp.is_after_offset(now, MAX_FUTURE_SECS as int),
        ERR_TIMESTAMP_FUTURE@,
    ) + when(
        e.client_timestamp.is_before_offset(now, -(MAX_PAST_SECS as int)),
        ERR_TIMESTAMP_PAST@,
    ) + when(e.anonymous_id.len() == 0, ERR_ANONYMOUS_ID@)
}

/// What validation of `e` at `now` returns: `Ok` when no rule is broken, else
/// the full list of failures.
pub open spec fn validation_outcome(e: IngestEventView, now: Timestamp) -> Result<
    (),
    Seq<Seq<char>>,
> {
    if event_errors(e, now).len() == 0 {
        Ok(())
    } else {
        Err(event_errors(e, now))
    }
}

/// Among the ASCII characters, an event name may hold the letters, the
/// digits, the space and `_ . - $`, and no others. A name with any other
/// ASCII character in it, such as `!`, breaks the rule on characters.
pub proof fn law_ascii_name_chars(name: Seq<char>, i: int)
    requires
        0 <= i < name.len(),
        name[i] <= '\u{7f}',
    ensures
        name_char_allowed(name[i]) <==> (is_ascii_alphanumeric(name[i]) || name[i] == ' '
            || name[i] == '_' || name[i] == '.' || name[i] == '-' || name[i] == '$'),
        !name_char_allowed(name[i]) ==> !name_chars_allowed(name),
        !name_char_allowed('!'),
{
}

/// Whether `e` keeps every rule when judged at the instant `now`.
pub open spec fn keeps_all_rules(e: IngestEventView, now: Timestamp) -> bool {
    &&& e.event_name.len() <= MAX_EVENT_NAME_CHARS
    &&& name_chars_allowed(e.event_name)
    &&& (e.event_type == EventType::Identify ==> names_user(e.user_id))
    &&& (e.mobile_number matches Some(m) ==> mobile_number_ok(m))
    &&& (e.email matches Some(a) ==> email_ok(a))
    &&& !e.client_timestamp.is_after_offset(now, MAX_FUTURE_SECS as int)
    &&& !e.client_timestamp.is_before_offset(now, -(MAX_PAST_SECS as int))
    &&& e.anonymous_id.len() > 0
}

/// An event passes validation exactly when it keeps every rule; an event that
/// breaks a rule gets at least one failure and at most one per rule.
pub proof fn law_valid_iff_all_rules_kept(e: IngestEventView, now: Timestamp)
    ensures
        validation_outcome(e, now) is Ok <==> keeps_all_rules(e, now),
        validation_outcome(e, now) matches Err(errors) ==> 1 <= errors.len() <= 8,
{
}

/// The mathematical value of a validation result.
pub open spec fn outcome_view(r: Result<(), Vec<String>>) -> Result<(), Seq<Seq<char>>> {
    match r {
        Ok(_) => Ok(()),
        Err(errors) => Err(errors.deep_view()),
    }
}

/// Whether every character of `name` may occur in an event name.
pub fn check_name_chars(name: &str) -> (r: bool)
    ensures
        r == name_chars_allowed(name@),
{
    let v = chars_of(name);
    let mut i: usize = 0;
    while i < v.len()
        invariant
            v@ == name@,
            i <= v.len(),
            forall|j: int| 0 <= j < i ==> name_char_allowed(#[trigger] v[j]),
        decreases v.len() - i,
    {
        let c = v[i];
        if !(c.is_alphanumeric() || c == ' ' || c == '_' || c == '.' || c == '-' || c == '$') {
            assert(!name_char_allowed(name@[i as int]));
            return false;
        }
        i += 1;
    }
    true
}

/// Whether `m` is a well-formed mobile number.
pub fn check_mobile_number(m: &str) -> (r: bool)
    ensures
        r == mobile_number_ok(m@),
{
    m.unicode_len() == MOBILE_NUMBER_DIGITS && is_all_digits(m)
}

/// Whether `e` is a well-formed e-mail address.
pub fn check_email(e: &str) -> (r: bool)
    ensures
        r == email_ok(e@),
{
    contains_char(e, '@') && contains_char(e, '.') && e.as_bytes().len() >= MIN_EMAIL_BYTES
}

/// Appends `msg` to `errors` where `failed`.
fn note(errors: &mut Vec<String>, failed: bool, msg: &str)
    ensures
        final(errors).deep_view() == old(errors).deep_view() + when(failed, msg@),
{
    if failed {
        errors.push(String::from_str(msg));
        assert(errors.deep_view() =~= old(errors).deep_view() + seq![msg@]);
    } else {
        assert(errors.deep_view() =~= old(errors).deep_view() + Seq::<Seq<char>>::empty());
    }
}

/// Validates `event` against every field rule, judging its timestamp at the
/// instant `now`. Returns all failures, not only the first.
pub fn validate_ingest_event_at(event: &IngestEvent, now: &Timestamp) -> (r: Result<
    (),
    Vec<String>,
>)
    ensures
        outcome_view(r) == validation_outcome(event@, *now),
{
    let mut errors: Vec<String> = Vec::new();
    assert(errors.deep_view() =~= Seq::<Seq<char>>::empty());

    let too_long = event.event_name.as_str().unicode_len() > MAX_EVENT_NAME_CHARS;
    note(&mut errors, too_long, ERR_NAME_TOO_LONG);

    let bad_chars = !check_name_chars(event.event_name.as_str());
    note(&mut errors, bad_chars, ERR_NAME_CHARS);

    let has_user = match &event.user_id {
        Some(u) => u.as_str().unicode_len() > 0,
        None => false,
    };
    let needs_user = event.event_type == EventType::Identify && !has_user;
    note(&mut errors, needs_user, ERR_USER_ID_REQUIRED);

    let bad_mobile = match &event.mobile_number {
        Some(m) => !check_mobile_number(m.as_str()),
        None => false,
    };
    note(&mut errors, bad_mobile, ERR_MOBILE_NUMBER);

    let bad_email = match &event.email {
        Some(a) => !check_email(a.as_str()),
        None => false,
    };
    note(&mut errors, bad_email, ERR_EMAIL);

    let future = event.client_timestamp.after_offset(now, MAX_FUTURE_SECS);
    note(&mut errors, future, ERR_TIMESTAMP_FUTURE);

    let past = event.client_timestamp.before_offset(now, -MAX_PAST_SECS);
    note(&mut errors, past, ERR_TIMESTAMP_PAST);

    let no_anon = event.anonymous_id.as_str().unicode_len() == 0;
    note(&mut errors, no_anon, ERR_ANONYMOUS_ID);

    assert(errors.deep_view() =~= event_errors(event@, *now));
    if errors.len() == 0 {
        Ok(())
    } else {
        Err(errors)
    }
}

/// Validates `event` against every field rule, judging its timestamp by the
/// wall clock. The outcome is that of [`validate_ingest_event_at`] for the
/// instant the clock showed.
pub fn validate_ingest_event(event: &IngestEvent) -> (r: Result<(), Vec<String>>)
    ensures
        exists|now: Timestamp|
            now.secs >= 0 && now.nanos < 1000000000 && outcome_view(r)
                == #[trigger] validation_outcome(event@, now),
{
    let now = Timestamp::now();
    validate_ingest_event_at(event, &now)
}

} // verus!
