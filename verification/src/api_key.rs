//! API keys: their stored form and how fresh ones are made.

use crate::text::str_eq;
use crate::time::Timestamp;
use rand::Rng;
use vstd::prelude::*;
use vstd::string::*;

verus! {

/// Characters of the random part of a key.
pub const KEY_RANDOM_CHARS: usize = 32;

/// Characters of the stored prefix of a key.
pub const KEY_PREFIX_CHARS: usize = 8;

/// Size of the alphabet of the random part: the digits and the lower-case
/// letters.
pub const KEY_ALPHABET_SIZE: u8 = 36;

/// A stored API key. The plaintext is never stored: only its first eight
/// characters and its Argon2id hash.
#[derive(Debug, Clone)]
pub struct ApiKey {
    pub id: u128,
    pub project_id: u128,
    pub prefix: String,
    pub key_hash: String,
    pub label: String,
    pub environment: String,
    pub active: bool,
    pub created_at: Timestamp,
}

/// What is stored when a key is issued.
#[derive(Debug, Clone)]
pub struct NewApiKey {
    pub project_id: u128,
    pub prefix: String,
    pub key_hash: String,
    pub label: String,
    pub environment: String,
}

/// A stored key as the admin surface lists it: everything but the hash.
#[derive(Debug, Clone)]
pub struct ApiKeyResponse {
    pub id: u128,
    pub project_id: u128,
    pub prefix: String,
    pub label: String,
    pub environment: String,
    pub active: bool,
    pub created_at: Timestamp,
}

impl From<ApiKey> for ApiKeyResponse {
    /// The listing of `key`: every stored field except the hash.
    fn from(key: ApiKey) -> (r: ApiKeyResponse) {
        ApiKeyResponse {
            id: key.id,
            project_id: key.project_id,
            prefix: key.prefix,
            label: key.label,
            environment: key.environment,
            active: key.active,
            created_at: key.created_at,
        }
    }
}

impl vstd::std_specs::convert::FromSpecImpl<ApiKey> for ApiKeyResponse {
    open spec fn obeys_from_spec() -> bool {
        true
    }

    open spec fn from_spec(key: ApiKey) -> ApiKeyResponse {
        ApiKeyResponse {
            id: key.id,
            project_id: key.project_id,
            prefix: key.prefix,
            label: key.label,
            environment: key.environment,
            active: key.active,
            created_at: key.created_at,
        }
    }
}

/// The character of the key alphabet with index `i`: `0` to `9` for 0 to 9,
/// `a` to `z` for 10 to 35.
pub open spec fn key_char(i: u8) -> char
    recommends
        i < KEY_ALPHABET_SIZE,
{
    if i < 10 {
        (48 + i) as char
    } else {
        (87 + i) as char
    }
}

/// Whether `c` is a digit or a lower-case ASCII letter.
pub open spec fn is_key_char(c: char) -> bool {
    ('0' <= c <= '9') || ('a' <= c <= 'z')
}

/// Whether `environment` asks for a live key.
pub open spec fn is_live(environment: Seq<char>) -> bool {
    environment == "live"@ || environment == "production"@
}

/// The leading part of a key for `environment`.
pub open spec fn env_prefix(environment: Seq<char>) -> Seq<char> {
    if is_live(environment) {
        "ts_live_"@
    } else {
        "ts_test_"@
    }
}

/// The key for `environment` whose random part is drawn as `draws`.
pub open spec fn key_text(environment: Seq<char>, draws: Seq<u8>) -> Seq<char> {
    env_prefix(environment) + draws.map_values(|i: u8| key_char(i))
}

/// Whether `key` has the shape `ts_live_` or `ts_test_` followed by 32
/// characters, each a digit or a lower-case letter.
pub open spec fn well_formed_key(key: Seq<char>) -> bool {
    &&& key.len() == KEY_PREFIX_CHARS + KEY_RANDOM_CHARS
    &&& (key.subrange(0, 8) == "ts_live_"@ || key.subrange(0, 8) == "ts_test_"@)
    &&& forall|i: int| 8 <= i < key.len() ==> is_key_char(#[trigger] key[i])
}

/// Trusted: `rand::thread_rng` with `Rng::gen_range(0..n)`, which draws from
/// the half-open range and panics on an empty one. Only the bound is promised
/// of the value.
#[verifier::external_body]
fn random_below(n: u8) -> (r: u8)
    requires
        n > 0,
    ensures
        r < n,
{
    rand::thread_rng().gen_range(0..n)
}

/// Every keyed character of a well-formed draw is in the key alphabet, and the
/// key built from 32 such draws is well formed.
pub proof fn lemma_key_text_well_formed(environment: Seq<char>, draws: Seq<u8>)
    requires
        draws.len() == KEY_RANDOM_CHARS,
        forall|i: int| 0 <= i < draws.len() ==> #[trigger] draws[i] < KEY_ALPHABET_SIZE,
    ensures
        well_formed_key(key_text(environment, draws)),
        key_text(environment, draws).subrange(0, 8) == env_prefix(environment),
{
    reveal_strlit("ts_live_");
    reveal_strlit("ts_test_");
    let key = key_text(environment, draws);
    let tail = draws.map_values(|i: u8| key_char(i));
    assert(key.subrange(0, 8) =~= env_prefix(environment));
    assert forall|i: int| 8 <= i < key.len() implies is_key_char(#[trigger] key[i]) by {
        assert(key[i] == tail[i - 8]);
        assert(tail[i - 8] == key_char(draws[i - 8]));
        assert(draws[i - 8] < KEY_ALPHABET_SIZE);
    }
}

/// Builds the key for `environment` from the drawn alphabet indices, and its
/// prefix.
pub fn api_key_from_draws(environment: &str, draws: &Vec<u8>) -> (r: (String, String))
    requires
        draws@.len() == KEY_RANDOM_CHARS,
        forall|i: int| 0 <= i < draws@.len() ==> #[trigger] draws@[i] < KEY_ALPHABET_SIZE,
    ensures
        r.0@ == key_text(environment@, draws@),
        r.1@ == r.0@.subrange(0, KEY_PREFIX_CHARS as int),
        r.1@ == env_prefix(environment@),
        well_formed_key(r.0@),
{
    let live = str_eq(environment, "live") || str_eq(environment, "production");
    let lead: &str = if live {
        "ts_live_"
    } else {
        "ts_test_"
    };
    let mut key = String::from_str(lead);
    let mut i: usize = 0;
    while i < draws.len()
        invariant
            i <= draws.len(),
            draws@.len() == KEY_RANDOM_CHARS,
            forall|j: int| 0 <= j < draws@.len() ==> #[trigger] draws@[j] < KEY_ALPHABET_SIZE,
            key@ == lead@ + draws@.take(i as int).map_values(|d: u8| key_char(d)),
        decreases draws.len() - i,
    {
        let d: u8 = draws[i];
        let c: char = if d < 10 {
            (48u8 + d) as char
        } else {
            (87u8 + d) as char
        };
        key.push(c);
        assert(draws@.take(i + 1) =~= draws@.take(i as int).push(d));
        assert(draws@.take(i + 1).map_values(|d: u8| key_char(d)) =~= draws@.take(
            i as int,
        ).map_values(|d: u8| key_char(d)).push(key_char(d)));
        i += 1;
    }
    assert(draws@.take(draws.len() as int) =~= draws@);
    proof {
        lemma_key_text_well_formed(environment@, draws@);
    }
    let prefix = String::from_str(lead);
    (key, prefix)
}

/// Generates an API key for `environment`: `ts_live_` for `live` and
/// `production`, `ts_test_` for anything else, followed by 32 characters drawn
/// from the digits and lower-case letters. Returns the key and its prefix, the
/// first eight characters.
pub fn generate_api_key(environment: &str) -> (r: (String, String))
    ensures
        well_formed_key(r.0@),
        r.1@ == r.0@.subrange(0, KEY_PREFIX_CHARS as int),
        r.1@ == env_prefix(environment@),
        exists|draws: Seq<u8>| r.0@ == #[trigger] key_text(environment@, draws),
{
    let mut draws: Vec<u8> = Vec::new();
    let mut i: usize = 0;
    while i < KEY_RANDOM_CHARS
        invariant
            i <= KEY_RANDOM_CHARS,
            draws@.len() == i,
            forall|j: int| 0 <= j < draws@.len() ==> #[trigger] draws@[j] < KEY_ALPHABET_SIZE,
        decreases KEY_RANDOM_CHARS - i,
    {
        let d = random_below(KEY_ALPHABET_SIZE);
        draws.push(d);
        i += 1;
    }
    api_key_from_draws(environment, &draws)
}

} // verus!
