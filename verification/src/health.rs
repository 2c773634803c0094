//! The liveness report of a service.

use crate::text::{concat2, str_eq};
use vstd::prelude::*;
use vstd::string::*;

verus! {

/// What a service reports of itself: `healthy` or `degraded`, its version, the
/// seconds since it booted, and the state of each dependency it probed, in the
/// order of probing. The dependencies form a map from name to state: in a
/// well-formed report no name occurs twice.
#[derive(Debug, Clone)]
pub struct HealthStatus {
    pub status: String,
    pub version: String,
    pub uptime_seconds: u64,
    pub dependencies: Vec<(String, String)>,
}

/// The state recorded for a dependency whose probe gave `outcome`.
pub open spec fn probe_state(outcome: Result<(), Seq<char>>) -> Seq<char> {
    match outcome {
        Ok(_) => "ok"@,
        Err(detail) => "error: "@ + detail,
    }
}

/// Whether every dependency of `deps` is recorded as `ok`.
pub open spec fn all_ok(deps: Seq<(Seq<char>, Seq<char>)>) -> bool {
    forall|i: int| 0 <= i < deps.len() ==> (#[trigger] deps[i]).1 == "ok"@
}

/// Whether no dependency is named twice.
pub open spec fn distinct_names(deps: Seq<(Seq<char>, Seq<char>)>) -> bool {
    forall|i: int, j: int|
        0 <= i < j < deps.len() ==> (#[trigger] deps[i]).0 != (#[trigger] deps[j]).0
}

/// The status word for the given dependency states.
pub open spec fn status_word(deps: Seq<(Seq<char>, Seq<char>)>) -> Seq<char> {
    if all_ok(deps) {
        "healthy"@
    } else {
        "degraded"@
    }
}

/// The mathematical value of a probe's outcome.
pub open spec fn probe_view(outcome: Result<(), String>) -> Result<(), Seq<char>> {
    match outcome {
        Ok(_) => Ok(()),
        Err(detail) => Err(detail@),
    }
}

/// The entry of the dependency map for the dependency `name` whose probe gave
/// `outcome`.
pub fn dependency_entry(name: &str, outcome: &Result<(), String>) -> (r: (String, String))
    ensures
        r.0@ == name@,
        r.1@ == probe_state(probe_view(*outcome)),
{
    let state = match outcome {
        Ok(_) => String::from_str("ok"),
        Err(detail) => concat2("error: ", detail.as_str()),
    };
    (String::from_str(name), state)
}

/// Whether no dependency of `deps` is named twice.
pub fn has_distinct_names(deps: &Vec<(String, String)>) -> (r: bool)
    ensures
        r == distinct_names(deps.deep_view()),
{
    let mut i: usize = 0;
    while i < deps.len()
        invariant
            i <= deps.len(),
            forall|a: int, b: int|
                0 <= a < b < deps.len() && a < i ==> (#[trigger] deps.deep_view()[a]).0 != (
                #[trigger] deps.deep_view()[b]).0,
        decreases deps.len() - i,
    {
        let mut j: usize = i + 1;
        while j < deps.len()
            invariant
                i < deps.len(),
                i < j <= deps.len(),
                forall|b: int|
                    i < b < j ==> deps.deep_view()[i as int].0 != (#[trigger] deps.deep_view()[b]).0,
            decreases deps.len() - j,
        {
            if str_eq(deps[i].0.as_str(), deps[j].0.as_str()) {
                assert(deps.deep_view()[i as int].0 == deps.deep_view()[j as int].0);
                return false;
            }
            j += 1;
        }
        i += 1;
    }
    true
}

/// Whole seconds from `start` to `now`, both in nanoseconds of one monotonic
/// clock; zero where `now` is not after `start`.
pub fn uptime_seconds(start_nanos: u64, now_nanos: u64) -> (r: u64)
    ensures
        r == (if now_nanos >= start_nanos {
            (now_nanos - start_nanos) / 1000000000
        } else {
            0
        }),
{
    if now_nanos >= start_nanos {
        (now_nanos - start_nanos) / 1000000000
    } else {
        0
    }
}

impl HealthStatus {
    /// Whether the dependencies form a map: no name occurs twice.
    pub open spec fn wf(&self) -> bool {
        distinct_names(self.dependencies.deep_view())
    }

    /// Whether the report says that every dependency answered.
    pub open spec fn is_healthy(&self) -> bool {
        self.status@ == "healthy"@
    }

    /// The report for the given probes, each dependency probed once:
    /// `healthy` when every dependency is `ok`, `degraded` otherwise.
    pub fn from_probes(version: String, uptime_seconds: u64, dependencies: Vec<(String, String)>) -> (r:
        HealthStatus)
        requires
            distinct_names(dependencies.deep_view()),
        ensures
            r.wf(),
            r.status@ == status_word(dependencies.deep_view()),
            r.version == version,
            r.uptime_seconds == uptime_seconds,
            r.dependencies == dependencies,
            r.is_healthy() <==> all_ok(dependencies.deep_view()),
    {
        let mut healthy = true;
        let mut i: usize = 0;
        while i < dependencies.len()
            invariant
                i <= dependencies.len(),
                healthy <==> all_ok(dependencies.deep_view().take(i as int)),
            decreases dependencies.len() - i,
        {
            let ghost seen = dependencies.deep_view().take(i as int);
            let ghost next = dependencies.deep_view().take(i + 1);
            assert(forall|j: int| 0 <= j < i ==> next[j] == seen[j]);
            assert(next[i as int] == dependencies.deep_view()[i as int]);
            if !str_eq(dependencies[i].1.as_str(), "ok") {
                healthy = false;
                assert(next[i as int].1 != "ok"@);
            } else {
                assert(all_ok(seen) ==> all_ok(next));
            }
            assert(!all_ok(seen) ==> !all_ok(next)) by {
                if !all_ok(seen) {
                    let j = choose|j: int| 0 <= j < seen.len() && (#[trigger] seen[j]).1 != "ok"@;
                    assert(next[j] == seen[j]);
                }
            }
            i += 1;
        }
        assert(dependencies.deep_view().take(dependencies.len() as int)
            =~= dependencies.deep_view());
        proof {
            reveal_strlit("healthy");
            reveal_strlit("degraded");
            assert("healthy"@.len() != "degraded"@.len());
        }
        let status = if healthy {
            String::from_str("healthy")
        } else {
            String::from_str("degraded")
        };
        HealthStatus { status, version, uptime_seconds, dependencies }
    }

    /// The report of a service with no dependencies to probe.
    pub fn healthy(version: String, uptime_seconds: u64) -> (r: HealthStatus)
        ensures
            r.wf(),
            r.is_healthy(),
            r.version == version,
            r.uptime_seconds == uptime_seconds,
            r.dependencies@.len() == 0,
    {
        HealthStatus {
            status: String::from_str("healthy"),
            version,
            uptime_seconds,
            dependencies: Vec::new(),
        }
    }

    /// The HTTP status of the ingestion edge's health endpoint: 200 when
    /// healthy, 503 when degraded.
    pub fn http_status(&self) -> (r: u16)
        ensures
            r == (if self.is_healthy() {
                200u16
            } else {
                503u16
            }),
    {
        if str_eq(self.status.as_str(), "healthy") {
            200
        } else {
            503
        }
    }
}

} // verus!
