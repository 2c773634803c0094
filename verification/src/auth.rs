//! The credential plane's primitives: hashing and verifying keys, and the
//! cache that spares a request the slow hash.

use crate::ids::hex_digit;
use crate::text::{concat2, has_prefix};
use sha2::Digest;
use vstd::prelude::*;
use vstd::string::*;

verus! {

/// Trusted: `dashmap::DashMap` is taken as an opaque type. What a map holds
/// is spoken of through [`cache_entries`] only.
#[verifier::external_type_specification]
#[verifier::external_body]
#[verifier::reject_recursive_types(K)]
#[verifier::reject_recursive_types(V)]
#[verifier::reject_recursive_types(S)]
pub struct ExDashMap<K, V, S>(dashmap::DashMap<K, V, S>);

/// Trusted: `password_hash::Error` is taken as an opaque type. It is only
/// carried from the call that failed to [`password_hash_error_text`].
#[verifier::external_type_specification]
#[verifier::external_body]
pub struct ExPasswordHashError(argon2::password_hash::Error);

/// Most bytes of a password that Argon2 takes.
pub const MAX_PASSWORD_BYTES: u64 = 0xFFFFFFFF;

/// Whether `hash` parses as a PHC string, as `PasswordHash::new` decides.
pub uninterp spec fn phc_well_formed(hash: Seq<char>) -> bool;

/// Whether Argon2 with default settings accepts the password `key` for the
/// parsed PHC string `hash`, as `verify_password` decides.
pub uninterp spec fn argon2_accepts(key: Seq<u8>, hash: Seq<char>) -> bool;

/// The SHA-256 digest of `data`.
pub uninterp spec fn sha256(data: Seq<u8>) -> Seq<u8>;

/// What a cache holds: for each cache index the project and the instant at
/// which the entry lapses.
pub uninterp spec fn cache_entries(m: dashmap::DashMap<String, CacheEntry>) -> Map<
    Seq<char>,
    CacheEntry,
>;

/// Trusted: hashes `key` with `Argon2::default()` under a salt fresh from
/// `SaltString::generate(&mut OsRng)` and hands back the PHC string. The salt
/// is random, so the string differs from call to call; what holds of every
/// string that comes back is that it parses again and that
/// `verify_password` accepts `key` for it, since verification recomputes the
/// hash from the parameters and salt the string records. With the default
/// settings and a generated salt of sixteen bytes, Argon2 refuses nothing but
/// a password of more than `0xFFFFFFFF` bytes.
#[verifier::external_body]
fn argon2_hash(key: &[u8]) -> (r: Result<String, argon2::password_hash::Error>)
    ensures
        r matches Ok(h) ==> phc_well_formed(h@) && argon2_accepts(key@, h@),
        key@.len() <= MAX_PASSWORD_BYTES ==> r is Ok,
{
    let salt = argon2::password_hash::SaltString::generate(
        &mut argon2::password_hash::rand_core::OsRng,
    );
    match argon2::PasswordHasher::hash_password(&argon2::Argon2::default(), key, &salt) {
        Ok(h) => Ok(h.to_string()),
        Err(e) => Err(e),
    }
}

/// Trusted: parses `hash` with `PasswordHash::new` and asks
/// `Argon2::default().verify_password` whether `key` matches it. The call
/// fails exactly when the string does not parse; otherwise the answer is a
/// function of the key and the string alone.
#[verifier::external_body]
fn argon2_check(key: &[u8], hash: &str) -> (r: Result<bool, argon2::password_hash::Error>)
    ensures
        r is Ok <==> phc_well_formed(hash@),
        r matches Ok(b) ==> b == argon2_accepts(key@, hash@),
{
    match argon2::PasswordHash::new(hash) {
        Ok(parsed) => Ok(
            argon2::PasswordVerifier::verify_password(&argon2::Argon2::default(), key, &parsed)
                .is_ok(),
        ),
        Err(e) => Err(e),
    }
}

/// Trusted: the `Display` text of a `password_hash::Error`.
#[verifier::external_body]
fn password_hash_error_text(e: &argon2::password_hash::Error) -> (r: String) {
    e.to_string()
}

/// Trusted: `sha2::Sha256::digest`, the SHA-256 digest of `data`, always 32
/// bytes.
#[verifier::external_body]
fn sha256_digest(data: &[u8]) -> (r: Vec<u8>)
    ensures
        r@ == sha256(data@),
        r@.len() == 32,
{
    sha2::Sha256::digest(data).to_vec()
}

/// Trusted: `hex::encode`, which writes each byte as two lower-case
/// hexadecimal digits, high nibble first.
#[verifier::external_body]
fn hex_encode(data: &[u8]) -> (r: String)
    ensures
        r@ == hex_lower(data@),
{
    hex::encode(data)
}

/// Trusted: `DashMap::new`, an empty map.
#[verifier::external_body]
fn cache_map_new() -> (m: dashmap::DashMap<String, CacheEntry>)
    ensures
        cache_entries(m) =~= Map::empty(),
{
    dashmap::DashMap::new()
}

/// Trusted: `DashMap::get`, copied out of the guard: the entry stored under
/// `key`, if there is one.
#[verifier::external_body]
fn cache_map_get(m: &dashmap::DashMap<String, CacheEntry>, key: &str) -> (r: Option<CacheEntry>)
    ensures
        r == (if cache_entries(*m).contains_key(key@) {
            Some(cache_entries(*m)[key@])
        } else {
            None
        }),
{
    match m.get(key) {
        Some(entry) => Some(*entry.value()),
        None => None,
    }
}

/// Trusted: `DashMap::insert`, which stores `value` under `key` in place of
/// whatever was there.
#[verifier::external_body]
fn cache_map_insert(m: &mut dashmap::DashMap<String, CacheEntry>, key: String, value: CacheEntry)
    ensures
        cache_entries(*final(m)) == cache_entries(*old(m)).insert(key@, value),
{
    m.insert(key, value);
}

/// Trusted: `DashMap::remove`, after which nothing is stored under `key`.
#[verifier::external_body]
fn cache_map_remove(m: &mut dashmap::DashMap<String, CacheEntry>, key: &str)
    ensures
        cache_entries(*final(m)) == cache_entries(*old(m)).remove(key@),
{
    m.remove(key);
}

/// Each byte of `data` as two lower-case hexadecimal digits, high nibble
/// first.
pub open spec fn hex_lower(data: Seq<u8>) -> Seq<char> {
    Seq::new(
        2 * data.len(),
        |i: int|
            if i % 2 == 0 {
                hex_digit(data[i / 2] as int / 16)
            } else {
                hex_digit(data[i / 2] as int % 16)
            },
    )
}

/// The index under which the cache files `key`: the SHA-256 digest of its
/// UTF-8 bytes in hexadecimal.
pub open spec fn cache_key_text(key: Seq<char>) -> Seq<char> {
    hex_lower(sha256(vstd::utf8::encode_utf8(key)))
}

/// What verification of `key` against the stored `hash` decides: `Some` of the
/// verdict where the hash parses, `None` where it does not.
pub open spec fn verification(key: Seq<char>, hash: Seq<char>) -> Option<bool> {
    if phc_well_formed(hash) {
        Some(argon2_accepts(vstd::utf8::encode_utf8(key), hash))
    } else {
        None
    }
}

/// Hashes an API key with Argon2id under a fresh salt. Hashing succeeds for
/// every key of no more than `0xFFFFFFFF` bytes, and every hash that comes
/// back verifies against the key it was made from.
pub fn hash_api_key(key: &str) -> (r: Result<String, String>)
    ensures
        vstd::utf8::encode_utf8(key@).len() <= MAX_PASSWORD_BYTES ==> r is Ok,
        r matches Ok(h) ==> verification(key@, h@) == Some(true),
        r matches Err(e) ==> has_prefix(e@, "Failed to hash API key: "@)
            && vstd::utf8::encode_utf8(key@).len() > MAX_PASSWORD_BYTES,
{
    match argon2_hash(key.as_bytes()) {
        Ok(h) => Ok(h),
        Err(e) => {
            let detail = password_hash_error_text(&e);
            let msg = concat2("Failed to hash API key: ", detail.as_str());
            assert(msg@.subrange(0, "Failed to hash API key: "@.len() as int)
                =~= "Failed to hash API key: "@);
            Err(msg)
        },
    }
}

/// Verifies an API key against a stored Argon2id hash: `Ok` of the verdict
/// where the hash parses, an error where it does not.
pub fn verify_api_key(key: &str, hash: &str) -> (r: Result<bool, String>)
    ensures
        verification(key@, hash@) matches Some(verdict) ==> r == Ok::<bool, String>(verdict),
        verification(key@, hash@) is None ==> (r matches Err(e) && has_prefix(
            e@,
            "Failed to parse password hash: "@,
        )),
{
    match argon2_check(key.as_bytes(), hash) {
        Ok(verdict) => Ok(verdict),
        Err(e) => {
            let detail = password_hash_error_text(&e);
            let msg = concat2("Failed to parse password hash: ", detail.as_str());
            assert(msg@.subrange(0, "Failed to parse password hash: "@.len() as int)
                =~= "Failed to parse password hash: "@);
            Err(msg)
        },
    }
}

/// The cache index of `key`: the SHA-256 digest of the key in lower-case
/// hexadecimal, 64 characters.
pub fn cache_key(key: &str) -> (r: String)
    ensures
        r@ == cache_key_text(key@),
        r@.len() == 64,
{
    let digest = sha256_digest(key.as_bytes());
    hex_encode(digest.as_slice())
}

/// A cached resolution of a key: the project it belongs to and the instant, in
/// nanoseconds of the monotonic clock, from which the entry no longer counts.
#[derive(Debug, Clone, Copy, PartialEq, Eq, Structural)]
pub struct CacheEntry {
    pub project_id: u128,
    pub expires_at: u64,
}

/// What a lookup of the index `index` in `entries` gives at the instant `now`:
/// the project of a live entry, nothing for a lapsed or missing one.
pub open spec fn cache_lookup(entries: Map<Seq<char>, CacheEntry>, index: Seq<char>, now: u64)
    -> Option<u128> {
    if entries.contains_key(index) && entries[index].expires_at > now {
        Some(entries[index].project_id)
    } else {
        None
    }
}

/// What is left of `entries` after a lookup of `index` at `now`: a lapsed
/// entry is dropped on the way.
pub open spec fn cache_after_lookup(
    entries: Map<Seq<char>, CacheEntry>,
    index: Seq<char>,
    now: u64,
) -> Map<Seq<char>, CacheEntry> {
    if entries.contains_key(index) && entries[index].expires_at <= now {
        entries.remove(index)
    } else {
        entries
    }
}

/// `entries` with `index` resolved to `project_id` from `now` for `ttl`
/// nanoseconds.
pub open spec fn cache_after_insert(
    entries: Map<Seq<char>, CacheEntry>,
    index: Seq<char>,
    project_id: u128,
    ttl: u64,
    now: u64,
) -> Map<Seq<char>, CacheEntry> {
    entries.insert(index, CacheEntry { project_id, expires_at: (now + ttl) as u64 })
}

/// The in-memory cache of verified keys. Entries are filed under the digest of
/// the key, never under the key itself.
///
/// The methods take `&mut self`, so that what the cache holds before and after
/// a call can be told apart. A service that shares one cache between its
/// requests keeps it behind a lock, and holds the lock for the lookup or the
/// insert alone.
pub struct ApiKeyCache {
    inner: dashmap::DashMap<String, CacheEntry>,
}

impl View for ApiKeyCache {
    type V = Map<Seq<char>, CacheEntry>;

    closed spec fn view(&self) -> Map<Seq<char>, CacheEntry> {
        cache_entries(self.inner)
    }
}

impl Default for ApiKeyCache {
    fn default() -> (c: ApiKeyCache)
        ensures
            c@ == Map::<Seq<char>, CacheEntry>::empty(),
    {
        ApiKeyCache::new()
    }
}

impl ApiKeyCache {
    /// An empty cache.
    pub fn new() -> (c: ApiKeyCache)
        ensures
            c@ == Map::<Seq<char>, CacheEntry>::empty(),
    {
        ApiKeyCache { inner: cache_map_new() }
    }

    /// The project cached for `key`, if the entry has not lapsed at `now`. A
    /// lapsed entry is evicted.
    pub fn get(&mut self, key: &str, now: u64) -> (r: Option<u128>)
        ensures
            r == cache_lookup(old(self)@, cache_key_text(key@), now),
            final(self)@ == cache_after_lookup(old(self)@, cache_key_text(key@), now),
    {
        let index = cache_key(key);
        match cache_map_get(&self.inner, index.as_str()) {
            Some(entry) => {
                if entry.expires_at > now {
                    Some(entry.project_id)
                } else {
                    cache_map_remove(&mut self.inner, index.as_str());
                    None
                }
            },
            None => None,
        }
    }

    /// Caches `project_id` for `key` from `now` for `ttl` nanoseconds.
    pub fn insert(&mut self, key: &str, project_id: u128, ttl: u64, now: u64)
        requires
            now + ttl <= u64::MAX,
        ensures
            final(self)@ == cache_after_insert(
                old(self)@,
                cache_key_text(key@),
                project_id,
                ttl,
                now,
            ),
    {
        let index = cache_key(key);
        cache_map_insert(&mut self.inner, index, CacheEntry { project_id, expires_at: now + ttl });
    }

    /// Drops whatever is cached for `key`.
    pub fn remove(&mut self, key: &str)
        ensures
            final(self)@ == old(self)@.remove(cache_key_text(key@)),
    {
        let index = cache_key(key);
        cache_map_remove(&mut self.inner, index.as_str());
    }
}

/// A key cached at `start` for `ttl` resolves to its project at every instant
/// before `start + ttl` and to nothing from then on, whatever the cache held
/// before.
pub proof fn law_cached_key_lives_for_ttl(
    entries: Map<Seq<char>, CacheEntry>,
    key: Seq<char>,
    project_id: u128,
    ttl: u64,
    start: u64,
    at: u64,
)
    requires
        start + ttl <= u64::MAX,
    ensures
        at < start + ttl ==> cache_lookup(
            cache_after_insert(entries, cache_key_text(key), project_id, ttl, start),
            cache_key_text(key),
            at,
        ) == Some(project_id),
        at >= start + ttl ==> cache_lookup(
            cache_after_insert(entries, cache_key_text(key), project_id, ttl, start),
            cache_key_text(key),
            at,
        ) is None,
{
}

/// A lookup at or after the instant at which an entry lapses finds nothing and
/// evicts the entry: the cache no longer holds the key, and every other entry
/// is as it was.
pub proof fn law_lapsed_entry_is_evicted(
    entries: Map<Seq<char>, CacheEntry>,
    key: Seq<char>,
    project_id: u128,
    ttl: u64,
    start: u64,
    at: u64,
    other: Seq<char>,
)
    requires
        start + ttl <= u64::MAX,
        at >= start + ttl,
        other != cache_key_text(key),
    ensures
        ({
            let cached = cache_after_insert(entries, cache_key_text(key), project_id, ttl, start);
            let left = cache_after_lookup(cached, cache_key_text(key), at);
            &&& cache_lookup(cached, cache_key_text(key), at) is None
            &&& !left.contains_key(cache_key_text(key))
            &&& left.contains_key(other) == entries.contains_key(other)
            &&& entries.contains_key(other) ==> left[other] == entries[other]
        }),
{
}

/// A lookup before an entry lapses leaves the cache as it was.
pub proof fn law_live_entry_is_kept(
    entries: Map<Seq<char>, CacheEntry>,
    key: Seq<char>,
    project_id: u128,
    ttl: u64,
    start: u64,
    at: u64,
)
    requires
        start + ttl <= u64::MAX,
        at < start + ttl,
    ensures
        ({
            let cached = cache_after_insert(entries, cache_key_text(key), project_id, ttl, start);
            cache_after_lookup(cached, cache_key_text(key), at) == cached
        }),
{
}

/// A lookup never changes what a later lookup at the same or a later instant
/// returns: eviction only removes entries that have lapsed for good.
pub proof fn law_lookup_keeps_answers(
    entries: Map<Seq<char>, CacheEntry>,
    looked_up: Seq<char>,
    first: u64,
    index: Seq<char>,
    later: u64,
)
    requires
        first <= later,
    ensures
        cache_lookup(cache_after_lookup(entries, looked_up, first), index, later) == cache_lookup(
            entries,
            index,
            later,
        ),
{
}

/// A hash that was made from one key gives a verdict for every key: trying
/// another key against it is answered with a refusal or an acceptance, never
/// with an error.
pub proof fn law_made_hash_gives_verdicts(made_from: Seq<char>, hash: Seq<char>, tried: Seq<char>)
    requires
        verification(made_from, hash) == Some(true),
    ensures
        verification(tried, hash) is Some,
        verification(tried, hash) == Some(
            argon2_accepts(vstd::utf8::encode_utf8(tried), hash),
        ),
{
}

} // verus!
