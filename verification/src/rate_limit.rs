//! Per-project rate limiting at the ingestion edge.

use crate::api_key_auth::ProjectId;
use crate::error::{AppError, AppErrorView};
use vstd::prelude::*;
use vstd::string::*;

verus! {

/// Requests per second that a project may sustain.
pub const RATE_PER_SECOND: u32 = 1000;

/// Requests that a project may send at once on top of none.
pub const BURST: u32 = 200;

/// What is said of a request that reaches the limiter without a project.
pub const ERR_NO_PROJECT: &'static str = "Missing project context";

/// What is said when the service runs without a limiter registry.
pub const ERR_NO_LIMITER: &'static str = "Rate limiter not configured";

/// The registry of rate limiters, one token bucket per project. A limiter is
/// made when its project is first seen and is kept from then on.
///
/// The methods that may add a limiter take `&mut self`, so that what the
/// registry holds before and after a call can be told apart. A service that
/// shares one registry between its requests keeps it behind a lock.
///
/// Trusted: the registry is a `dashmap::DashMap` from project to
/// `governor::DefaultDirectRateLimiter`. The limiter's type is bounded by
/// traits of its crate and cannot be made known to the verifier, so the whole
/// field is hidden; which projects have a limiter, and for which quota each
/// was made, is spoken of through [`limiter_quotas`] only.
#[verifier::external_body]
pub struct RateLimiterMap {
    inner: dashmap::DashMap<u128, std::sync::Arc<governor::DefaultDirectRateLimiter>>,
}

/// What the registry holds: for each project with a limiter, the quota that
/// its limiter was made with, as requests per second and burst.
pub uninterp spec fn limiter_quotas(m: RateLimiterMap) -> Map<u128, (u32, u32)>;

/// Trusted: `DashMap::new`, a registry without limiters.
#[verifier::external_body]
fn registry_new() -> (m: RateLimiterMap)
    ensures
        limiter_quotas(m) =~= Map::empty(),
{
    RateLimiterMap { inner: dashmap::DashMap::new() }
}

/// Trusted: `DashMap::contains_key`.
#[verifier::external_body]
fn registry_contains(m: &RateLimiterMap, project: u128) -> (r: bool)
    ensures
        r == limiter_quotas(*m).contains_key(project),
{
    m.inner.contains_key(&project)
}

/// Trusted: makes a limiter with `governor::RateLimiter::direct` for the quota
/// `Quota::per_second(per_second).allow_burst(burst)` and stores it with
/// `DashMap::insert`. Both numbers become `NonZeroU32`, so neither may be
/// zero, and the rate is at most one request per nanosecond so that the
/// interval between two requests is not zero.
#[verifier::external_body]
fn registry_insert(m: &mut RateLimiterMap, project: u128, per_second: u32, burst: u32)
    requires
        0 < per_second <= 1000000000,
        burst > 0,
    ensures
        limiter_quotas(*final(m)) == limiter_quotas(*old(m)).insert(project, (per_second, burst)),
{
    let quota = governor::Quota::per_second(std::num::NonZeroU32::new(per_second).unwrap())
        .allow_burst(std::num::NonZeroU32::new(burst).unwrap());
    m.inner.insert(project, std::sync::Arc::new(governor::RateLimiter::direct(quota)));
}

/// Trusted: `RateLimiter::check` on the project's limiter. `None` when the
/// request may pass; otherwise the time to wait, as `NotUntil::wait_time_from`
/// the limiter's clock gives it, in whole seconds and nanoseconds. The answer
/// depends on the clock and on earlier calls, so nothing is promised of it.
/// Checking changes what the limiter has counted, not which limiters there
/// are or what quota they were made with.
#[verifier::external_body]
fn registry_check(m: &RateLimiterMap, project: u128) -> (r: Option<(u64, u32)>)
    requires
        limiter_quotas(*m).contains_key(project),
{
    let limiter = m.inner.get(&project).unwrap().value().clone();
    match limiter.check() {
        Ok(_) => None,
        Err(not_until) => {
            let wait = not_until.wait_time_from(
                governor::clock::Clock::now(&governor::clock::DefaultClock::default()),
            );
            Some((wait.as_secs(), wait.subsec_nanos()))
        },
    }
}

/// What the limiter says of a request.
#[derive(Debug, Clone, Copy, PartialEq, Eq, Structural)]
pub enum RateDecision {
    Allowed,
    Limited { retry_after_secs: u64 },
}

/// What a request gets that is turned away: the error, and for a rate-limited
/// request the seconds after which it may come again.
#[derive(Debug)]
pub struct Rejection {
    pub error: AppError,
    pub retry_after_secs: Option<u64>,
}

/// The seconds a client is told to wait when the limiter asks for a wait of
/// `secs` seconds and `nanos` nanoseconds: the wait rounded up to whole
/// seconds, and at least one.
pub open spec fn retry_after(secs: u64, nanos: u32) -> u64 {
    if nanos > 0 && secs < u64::MAX {
        (secs + 1) as u64
    } else if secs == 0 {
        1
    } else {
        secs
    }
}

/// What is decided of a request for which the limiter answered `outcome`.
pub open spec fn decision_of(outcome: Option<(u64, u32)>) -> RateDecision {
    match outcome {
        None => RateDecision::Allowed,
        Some((secs, nanos)) => RateDecision::Limited { retry_after_secs: retry_after(secs, nanos) },
    }
}

/// The seconds to put into `Retry-After` for a wait of `secs` seconds and
/// `nanos` nanoseconds.
pub fn retry_after_secs(secs: u64, nanos: u32) -> (r: u64)
    ensures
        r == retry_after(secs, nanos),
        r >= 1,
{
    if nanos > 0 && secs < u64::MAX {
        secs + 1
    } else if secs == 0 {
        1
    } else {
        secs
    }
}

/// Reads the limiter's answer: no wait lets the request pass, a wait turns
/// it away with the seconds to wait.
pub fn decide(outcome: Option<(u64, u32)>) -> (r: RateDecision)
    ensures
        r == decision_of(outcome),
        r matches RateDecision::Limited { retry_after_secs } ==> retry_after_secs >= 1,
{
    match outcome {
        None => RateDecision::Allowed,
        Some((secs, nanos)) => RateDecision::Limited {
            retry_after_secs: retry_after_secs(secs, nanos),
        },
    }
}

impl Default for RateLimiterMap {
    fn default() -> (r: RateLimiterMap)
        ensures
            r@ == Map::<u128, (u32, u32)>::empty(),
    {
        RateLimiterMap::new()
    }
}

/// The registry after `project` was seen: it keeps the limiter it has, or
/// gets one for [`RATE_PER_SECOND`] sustained and [`BURST`] at once.
pub open spec fn quotas_after_seen(quotas: Map<u128, (u32, u32)>, project: u128) -> Map<
    u128,
    (u32, u32),
> {
    if quotas.contains_key(project) {
        quotas
    } else {
        quotas.insert(project, (RATE_PER_SECOND, BURST))
    }
}

impl View for RateLimiterMap {
    type V = Map<u128, (u32, u32)>;

    /// For each project with a limiter, the quota its limiter was made with.
    open spec fn view(&self) -> Map<u128, (u32, u32)> {
        limiter_quotas(*self)
    }
}

impl RateLimiterMap {
    /// The projects that have a limiter.
    pub open spec fn projects(&self) -> Set<u128> {
        self@.dom()
    }

    /// Every limiter of the registry was made for the one quota of the
    /// service.
    pub open spec fn uniform(&self) -> bool {
        forall|p: u128| #[trigger] self@.contains_key(p) ==> self@[p] == (RATE_PER_SECOND, BURST)
    }

    /// A registry without limiters.
    pub fn new() -> (r: RateLimiterMap)
        ensures
            r@ == Map::<u128, (u32, u32)>::empty(),
            r.projects() == Set::<u128>::empty(),
            r.uniform(),
    {
        registry_new()
    }

    /// Makes sure that `project` has a limiter: one is made, for
    /// [`RATE_PER_SECOND`] sustained and [`BURST`] at once, where there is
    /// none. A limiter that is there is kept as it is, and none is ever
    /// dropped.
    pub fn get_or_create(&mut self, project: u128)
        ensures
            final(self)@ == quotas_after_seen(old(self)@, project),
            final(self).projects() == old(self).projects().insert(project),
            old(self).uniform() ==> final(self).uniform(),
    {
        if !registry_contains(self, project) {
            registry_insert(self, project, RATE_PER_SECOND, BURST);
        }
        assert(self.projects() =~= old(self).projects().insert(project));
    }

    /// Counts a request of `project` against its limiter, which is made on the
    /// project's first request for [`RATE_PER_SECOND`] sustained and
    /// [`BURST`] at once, and says whether the request may pass.
    pub fn check(&mut self, project: u128) -> (r: RateDecision)
        ensures
            final(self)@ == quotas_after_seen(old(self)@, project),
            final(self).projects() == old(self).projects().insert(project),
            old(self).uniform() ==> final(self).uniform(),
            r matches RateDecision::Limited { retry_after_secs } ==> retry_after_secs >= 1,
    {
        self.get_or_create(project);
        decide(registry_check(self, project))
    }
}

/// A project that is seen for the first time gets a limiter for 1000
/// requests per second with a burst of 200; a project that was seen before
/// keeps its limiter, and so does every other project.
pub proof fn law_first_request_sets_the_quota(
    quotas: Map<u128, (u32, u32)>,
    project: u128,
    other: u128,
)
    ensures
        quotas_after_seen(quotas, project).contains_key(project),
        !quotas.contains_key(project) ==> quotas_after_seen(quotas, project)[project] == (
            1000u32,
            200u32,
        ),
        quotas.contains_key(project) ==> quotas_after_seen(quotas, project)[project]
            == quotas[project],
        other != project ==> (quotas_after_seen(quotas, project).contains_key(other)
            <==> quotas.contains_key(other)),
        other != project && quotas.contains_key(other) ==> quotas_after_seen(
            quotas,
            project,
        )[other] == quotas[other],
{
}

/// The rejection for a request that the limiter turned away.
pub open spec fn is_rate_limited(r: Rejection, secs: u64) -> bool {
    r.error@ == AppErrorView::RateLimited && r.retry_after_secs == Some(secs)
}

/// Turns a decision into the answer of the limiting step: a request that may
/// pass goes on; one that may not gets `429` with `Retry-After`.
pub fn enforce(decision: RateDecision) -> (r: Result<(), Rejection>)
    ensures
        decision is Allowed ==> r is Ok,
        decision matches RateDecision::Limited { retry_after_secs } ==> (r matches Err(rej)
            && is_rate_limited(rej, retry_after_secs)),
{
    match decision {
        RateDecision::Allowed => Ok(()),
        RateDecision::Limited { retry_after_secs } => Err(
            Rejection { error: AppError::RateLimited, retry_after_secs: Some(retry_after_secs) },
        ),
    }
}

/// The limiting step for a request. A request that authentication left
/// without a project is unauthorized. Any other request is counted against its
/// project's limiter and passes or is turned away with `429` and a
/// `Retry-After` of at least one second.
pub fn rate_limit(limiters: &mut RateLimiterMap, project: Option<ProjectId>) -> (r: Result<
    (),
    Rejection,
>)
    ensures
        project is None ==> {
            &&& r matches Err(rej)
            &&& rej.error@ == AppErrorView::Unauthorized(ERR_NO_PROJECT@)
            &&& rej.retry_after_secs is None
            &&& final(limiters)@ == old(limiters)@
        },
        project matches Some(p) ==> {
            &&& final(limiters)@ == quotas_after_seen(old(limiters)@, p.0)
            &&& final(limiters).projects() == old(limiters).projects().insert(p.0)
            &&& r matches Err(rej) ==> rej.error@ == AppErrorView::RateLimited && (
            rej.retry_after_secs matches Some(secs) && secs >= 1)
        },
        old(limiters).uniform() ==> final(limiters).uniform(),
{
    match project {
        None => Err(
            Rejection {
                error: AppError::Unauthorized(String::from_str(ERR_NO_PROJECT)),
                retry_after_secs: None,
            },
        ),
        Some(p) => enforce(limiters.check(p.0)),
    }
}

/// The rejection for a request that reaches the limiting step of a service
/// that was set up without a limiter registry.
pub fn limiter_missing() -> (r: Rejection)
    ensures
        r.error@ == AppErrorView::Internal(ERR_NO_LIMITER@),
        r.retry_after_secs is None,
{
    Rejection {
        error: AppError::Internal(String::from_str(ERR_NO_LIMITER)),
        retry_after_secs: None,
    }
}

} // verus!
