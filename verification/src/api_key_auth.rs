//! The verification protocol of the ingestion edge: from the `X-API-Key`
//! header to the project the request belongs to.

use crate::api_key::{ApiKey, KEY_PREFIX_CHARS};
use crate::auth::{
    cache_after_insert, cache_after_lookup, cache_key_text, cache_lookup, verification,
    verify_api_key, ApiKeyCache,
};
use crate::error::{AppError, AppErrorView};
use vstd::prelude::*;
use vstd::string::*;

verus! {

/// How long a verified key stays cached: five minutes, in nanoseconds.
pub const CACHE_TTL_NANOS: u64 = 300000000000;

/// What is said of a request without an API key.
pub const ERR_MISSING_KEY: &'static str = "Missing X-API-Key header";

/// What is said of a key that is shorter than a prefix.
pub const ERR_KEY_FORMAT: &'static str = "Invalid API key format";

/// What is said of a key that no stored hash verifies.
pub const ERR_INVALID_KEY: &'static str = "Invalid API key";

/// What is said when the stored keys cannot be fetched.
pub const ERR_UNAVAILABLE: &'static str = "Service unavailable";

/// What a handler says of a request that was never authenticated.
pub const ERR_MISSING_PROJECT: &'static str = "Missing or invalid API key";

/// The project a request was authenticated for.
#[derive(Debug, Clone, Copy, PartialEq, Eq, Structural)]
pub struct ProjectId(pub u128);

/// Where authentication stands after the header and the cache were looked
/// at.
#[derive(Debug)]
pub enum AuthStep {
    /// The cache knows the key.
    Authenticated(ProjectId),
    /// The request carries no usable key.
    Rejected(AppError),
    /// The stored keys with this prefix that are active decide.
    Lookup { prefix: String },
}

/// The mathematical value of an [`AuthStep`].
pub ghost enum AuthStepView {
    Authenticated(u128),
    Rejected(AppErrorView),
    Lookup { prefix: Seq<char> },
}

impl View for AuthStep {
    type V = AuthStepView;

    open spec fn view(&self) -> AuthStepView {
        match self {
            AuthStep::Authenticated(p) => AuthStepView::Authenticated(p.0),
            AuthStep::Rejected(e) => AuthStepView::Rejected(e@),
            AuthStep::Lookup { prefix } => AuthStepView::Lookup { prefix: prefix@ },
        }
    }
}

/// Whether the stored hash `hash` is one of `key`.
pub open spec fn key_matches(key: Seq<char>, hash: Seq<char>) -> bool {
    verification(key, hash) == Some(true)
}

/// The place of the first candidate from `from` on whose hash is one of
/// `key`, if there is one. A candidate whose hash does not parse counts as no
/// match.
pub open spec fn first_match_from(key: Seq<char>, hashes: Seq<Seq<char>>, from: int) -> Option<int>
    decreases hashes.len() - from,
{
    if from < 0 || from >= hashes.len() {
        None
    } else if key_matches(key, hashes[from]) {
        Some(from)
    } else {
        first_match_from(key, hashes, from + 1)
    }
}

/// The first match is a candidate that matches, and no candidate before it
/// does.
pub proof fn law_first_match_wins(key: Seq<char>, hashes: Seq<Seq<char>>, from: int)
    requires
        0 <= from,
    ensures
        first_match_from(key, hashes, from) matches Some(i) ==> {
            &&& from <= i < hashes.len()
            &&& key_matches(key, hashes[i])
            &&& forall|j: int| from <= j < i ==> !key_matches(key, #[trigger] hashes[j])
        },
        first_match_from(key, hashes, from) is None ==> forall|j: int|
            from <= j < hashes.len() ==> !key_matches(key, #[trigger] hashes[j]),
    decreases hashes.len() - from,
{
    if from < hashes.len() && !key_matches(key, hashes[from]) {
        law_first_match_wins(key, hashes, from + 1);
    }
}

/// The hashes of the candidates, in order.
pub open spec fn hashes_of(candidates: Seq<ApiKey>) -> Seq<Seq<char>> {
    candidates.map_values(|c: ApiKey| c.key_hash@)
}

/// What the first look at a request decides, given what the cache holds.
pub open spec fn first_step(
    entries: Map<Seq<char>, crate::auth::CacheEntry>,
    header: Option<Seq<char>>,
    now: u64,
) -> AuthStepView {
    match header {
        None => AuthStepView::Rejected(AppErrorView::Unauthorized(ERR_MISSING_KEY@)),
        Some(key) => if key.len() == 0 {
            AuthStepView::Rejected(AppErrorView::Unauthorized(ERR_MISSING_KEY@))
        } else {
            match cache_lookup(entries, cache_key_text(key), now) {
                Some(project) => AuthStepView::Authenticated(project),
                None => if key.len() < KEY_PREFIX_CHARS {
                    AuthStepView::Rejected(AppErrorView::Unauthorized(ERR_KEY_FORMAT@))
                } else {
                    AuthStepView::Lookup { prefix: key.subrange(0, KEY_PREFIX_CHARS as int) }
                },
            }
        },
    }
}

/// What the cache holds after the first look at a request.
pub open spec fn cache_after_first_step(
    entries: Map<Seq<char>, crate::auth::CacheEntry>,
    header: Option<Seq<char>>,
    now: u64,
) -> Map<Seq<char>, crate::auth::CacheEntry> {
    match header {
        None => entries,
        Some(key) => if key.len() == 0 {
            entries
        } else {
            cache_after_lookup(entries, cache_key_text(key), now)
        },
    }
}

/// The first look at a request: a missing or empty `X-API-Key` is rejected; a
/// key the cache still knows is authenticated at once; a key shorter than a
/// prefix is rejected; any other key is to be looked up by its prefix.
pub fn begin_auth(cache: &mut ApiKeyCache, header: &Option<String>, now: u64) -> (r: AuthStep)
    ensures
        r@ == first_step(old(cache)@, header.deep_view(), now),
        final(cache)@ == cache_after_first_step(old(cache)@, header.deep_view(), now),
{
    let key = match header {
        Some(k) => k,
        None => {
            return AuthStep::Rejected(AppError::Unauthorized(String::from_str(ERR_MISSING_KEY)));
        },
    };
    let n = key.as_str().unicode_len();
    if n == 0 {
        return AuthStep::Rejected(AppError::Unauthorized(String::from_str(ERR_MISSING_KEY)));
    }
    match cache.get(key.as_str(), now) {
        Some(project) => {
            return AuthStep::Authenticated(ProjectId(project));
        },
        None => {},
    }
    if n < KEY_PREFIX_CHARS {
        return AuthStep::Rejected(AppError::Unauthorized(String::from_str(ERR_KEY_FORMAT)));
    }
    let prefix = key.as_str().substring_char(0, KEY_PREFIX_CHARS);
    AuthStep::Lookup { prefix: String::from_str(prefix) }
}

/// The place of the first candidate whose hash is one of `key`.
pub fn find_match(key: &str, candidates: &Vec<ApiKey>) -> (r: Option<usize>)
    ensures
        match r {
            Some(i) => i < candidates@.len() && first_match_from(key@, hashes_of(candidates@), 0)
                == Some(i as int),
            None => first_match_from(key@, hashes_of(candidates@), 0) is None,
        },
{
    let ghost hashes = hashes_of(candidates@);
    let mut i: usize = 0;
    while i < candidates.len()
        invariant
            i <= candidates.len(),
            hashes == hashes_of(candidates@),
            first_match_from(key@, hashes, 0) == first_match_from(key@, hashes, i as int),
        decreases candidates.len() - i,
    {
        assert(hashes[i as int] == candidates@[i as int].key_hash@);
        match verify_api_key(key, candidates[i].key_hash.as_str()) {
            Ok(true) => {
                return Some(i);
            },
            Ok(false) => {},
            Err(_) => {},
        }
        i += 1;
    }
    None
}

/// What the stored keys with the key's prefix decide of `raw_key`. A failed
/// fetch makes the service unavailable. Otherwise the candidates are tried in
/// order: the first whose hash verifies decides the project; if none verifies
/// the key is invalid. The cache plays no part in this, so a service can let
/// many requests be resolved at the same time.
pub fn resolve_candidates(raw_key: &str, candidates: &Result<Vec<ApiKey>, String>) -> (r: Result<
    ProjectId,
    AppError,
>)
    ensures
        candidates is Err ==> (r matches Err(e) && e@ == AppErrorView::Internal(ERR_UNAVAILABLE@)),
        candidates matches Ok(list) ==> match first_match_from(raw_key@, hashes_of(list@), 0) {
            Some(i) => 0 <= i < list@.len() && r == Ok::<ProjectId, AppError>(
                ProjectId(list@[i].project_id),
            ),
            None => r matches Err(e) && e@ == AppErrorView::Unauthorized(ERR_INVALID_KEY@),
        },
{
    match candidates {
        Err(_) => Err(AppError::Internal(String::from_str(ERR_UNAVAILABLE))),
        Ok(list) => match find_match(raw_key, list) {
            Some(i) => Ok(ProjectId(list[i].project_id)),
            None => Err(AppError::Unauthorized(String::from_str(ERR_INVALID_KEY))),
        },
    }
}

/// Caches the project that `raw_key` was resolved to, from `now` for five
/// minutes.
pub fn remember(cache: &mut ApiKeyCache, raw_key: &str, project: ProjectId, now: u64)
    requires
        now + CACHE_TTL_NANOS <= u64::MAX,
    ensures
        final(cache)@ == cache_after_insert(
            old(cache)@,
            cache_key_text(raw_key@),
            project.0,
            CACHE_TTL_NANOS,
            now,
        ),
{
    cache.insert(raw_key, project.0, CACHE_TTL_NANOS, now);
}

/// The second half of authentication, once the stored keys with the key's
/// prefix have been fetched: [`resolve_candidates`], and for a key that was
/// resolved [`remember`]. A failed fetch makes the service unavailable.
/// Otherwise the candidates are tried in order: the first whose hash verifies
/// decides the project, and the key is cached for five minutes; if none
/// verifies the key is invalid and the cache stays as it is.
pub fn finish_auth(
    cache: &mut ApiKeyCache,
    raw_key: &str,
    candidates: &Result<Vec<ApiKey>, String>,
    now: u64,
) -> (r: Result<ProjectId, AppError>)
    requires
        now + CACHE_TTL_NANOS <= u64::MAX,
    ensures
        candidates is Err ==> {
            &&& r matches Err(e)
            &&& e@ == AppErrorView::Internal(ERR_UNAVAILABLE@)
            &&& final(cache)@ == old(cache)@
        },
        candidates matches Ok(list) ==> match first_match_from(raw_key@, hashes_of(list@), 0) {
            Some(i) => {
                &&& r == Ok::<ProjectId, AppError>(ProjectId(list@[i].project_id))
                &&& final(cache)@ == cache_after_insert(
                    old(cache)@,
                    cache_key_text(raw_key@),
                    list@[i].project_id,
                    CACHE_TTL_NANOS,
                    now,
                )
            },
            None => {
                &&& r matches Err(e)
                &&& e@ == AppErrorView::Unauthorized(ERR_INVALID_KEY@)
                &&& final(cache)@ == old(cache)@
            },
        },
{
    match resolve_candidates(raw_key, candidates) {
        Ok(project) => {
            remember(cache, raw_key, project, now);
            Ok(project)
        },
        Err(e) => Err(e),
    }
}

/// The project of a request as a handler sees it: present only if
/// authentication put it there.
pub fn project_of_request(project: Option<ProjectId>) -> (r: Result<ProjectId, AppError>)
    ensures
        project matches Some(p) ==> r == Ok::<ProjectId, AppError>(p),
        project is None ==> (r matches Err(e) && e@ == AppErrorView::Unauthorized(
            ERR_MISSING_PROJECT@,
        )),
{
    match project {
        Some(p) => Ok(p),
        None => Err(AppError::Unauthorized(String::from_str(ERR_MISSING_PROJECT))),
    }
}

} // verus!
