//! The admin surface's rules for API keys: issuing and revoking.

use crate::api_key::{
    env_prefix, generate_api_key, well_formed_key, ApiKey, NewApiKey, KEY_PREFIX_CHARS,
};
use crate::auth::{hash_api_key, verification};
use crate::error::{AppError, AppErrorView};
use crate::ids::{id_text, id_to_string};
use crate::text::{concat2, lemma_utf8_len_bound, str_eq};
use crate::time::Timestamp;
use vstd::prelude::*;
use vstd::string::*;

verus! {

/// What is said of a request for a key of an unknown environment.
pub const ERR_ENVIRONMENT: &'static str = "environment must be 'live' or 'test'";

/// What stands before the hasher's complaint when a key could not be hashed.
pub const HASH_FAILURE_PREFIX: &'static str = "Failed to hash API key: ";

/// The body of a request to issue a key.
#[derive(Debug)]
pub struct GenerateApiKeyRequest {
    pub label: String,
    pub environment: String,
}

/// The answer to a request to issue a key: the stored key and, this once, its
/// plaintext.
#[derive(Debug)]
pub struct GenerateApiKeyResponse {
    pub id: u128,
    pub project_id: u128,
    pub prefix: String,
    pub label: String,
    pub environment: String,
    pub active: bool,
    pub created_at: Timestamp,
    pub key: String,
}

/// A freshly made key: what is stored of it, and the plaintext that is shown
/// once and never stored.
#[derive(Debug)]
pub struct IssuedKey {
    pub new_key: NewApiKey,
    pub plaintext: String,
}

/// Whether keys can be issued for `environment`.
pub open spec fn environment_ok(environment: Seq<char>) -> bool {
    environment == "live"@ || environment == "test"@
}

/// The message for a key that is not there.
pub open spec fn key_missing_message(key_id: u128, project_id: u128) -> Seq<char> {
    "API key "@ + id_text(key_id) + " not found for project "@ + id_text(project_id)
}

/// Checks that keys can be issued for `environment`: only for `live` and
/// `test`.
pub fn validate_environment(environment: &str) -> (r: Result<(), AppError>)
    ensures
        environment_ok(environment@) ==> r is Ok,
        !environment_ok(environment@) ==> (r matches Err(e) && e@ == AppErrorView::Validation(
            ERR_ENVIRONMENT@,
        )),
{
    if str_eq(environment, "live") || str_eq(environment, "test") {
        Ok(())
    } else {
        Err(AppError::Validation(String::from_str(ERR_ENVIRONMENT)))
    }
}

/// Makes a key for `project_id` as `request` asks: generates the plaintext,
/// hashes it, and puts together what is to be stored. A key is made for every
/// request that names a known environment. The stored prefix is the
/// plaintext's first eight characters, and the stored hash verifies against
/// the plaintext.
pub fn issue_api_key(project_id: u128, request: GenerateApiKeyRequest) -> (r: Result<
    IssuedKey,
    AppError,
>)
    ensures
        environment_ok(request.environment@) ==> r is Ok,
        !environment_ok(request.environment@) ==> (r matches Err(e) && e@
            == AppErrorView::Validation(ERR_ENVIRONMENT@)),
        r matches Ok(issued) ==> {
            &&& environment_ok(request.environment@)
            &&& well_formed_key(issued.plaintext@)
            &&& issued.new_key.prefix@ == issued.plaintext@.subrange(0, KEY_PREFIX_CHARS as int)
            &&& issued.new_key.prefix@ == env_prefix(request.environment@)
            &&& verification(issued.plaintext@, issued.new_key.key_hash@) == Some(true)
            &&& issued.new_key.project_id == project_id
            &&& issued.new_key.label == request.label
            &&& issued.new_key.environment == request.environment
        },
{
    match validate_environment(request.environment.as_str()) {
        Err(e) => {
            return Err(e);
        },
        Ok(_) => {},
    }
    let (plaintext, prefix) = generate_api_key(request.environment.as_str());
    proof {
        lemma_utf8_len_bound(plaintext@);
    }
    match hash_api_key(plaintext.as_str()) {
        Err(detail) => {
            Err(AppError::Internal(concat2(HASH_FAILURE_PREFIX, detail.as_str())))
        },
        Ok(key_hash) => Ok(
            IssuedKey {
                new_key: NewApiKey {
                    project_id,
                    prefix,
                    key_hash,
                    label: request.label,
                    environment: request.environment,
                },
                plaintext,
            },
        ),
    }
}

impl GenerateApiKeyResponse {
    /// The answer for the key as it was stored, with the plaintext shown this
    /// once.
    pub fn new(stored: ApiKey, plaintext: String) -> (r: GenerateApiKeyResponse)
        ensures
            r.id == stored.id,
            r.project_id == stored.project_id,
            r.prefix == stored.prefix,
            r.label == stored.label,
            r.environment == stored.environment,
            r.active == stored.active,
            r.created_at == stored.created_at,
            r.key == plaintext,
    {
        GenerateApiKeyResponse {
            id: stored.id,
            project_id: stored.project_id,
            prefix: stored.prefix,
            label: stored.label,
            environment: stored.environment,
            active: stored.active,
            created_at: stored.created_at,
            key: plaintext,
        }
    }
}

/// The answer to a revocation that touched a row or did not.
pub fn revocation_outcome(revoked: bool, key_id: u128, project_id: u128) -> (r: Result<
    (),
    AppError,
>)
    ensures
        revoked ==> r is Ok,
        !revoked ==> (r matches Err(e) && e@ == AppErrorView::NotFound(
            key_missing_message(key_id, project_id),
        )),
{
    if revoked {
        Ok(())
    } else {
        let mut msg = String::from_str("API key ");
        msg.append(id_to_string(key_id).as_str());
        msg.append(" not found for project ");
        msg.append(id_to_string(project_id).as_str());
        Err(AppError::NotFound(msg))
    }
}

} // verus!
