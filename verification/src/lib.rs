//! TrueSight: the rules and decisions of an analytics event pipeline, from the
//! ingestion edge through the queue to the writer, with the credential plane
//! that guards the edge.

pub mod admin_auth;
pub mod api_key;
pub mod api_key_admin;
pub mod api_key_auth;
pub mod auth;
pub mod batcher;
pub mod config;
pub mod consumer;
pub mod dedup;
pub mod error;
pub mod event;
pub mod funnels;
pub mod health;
pub mod identity;
pub mod ids;
pub mod ingest;
pub mod inserter;
pub mod project;
pub mod projects;
pub mod rate_limit;
pub mod request_id;
pub mod sqs;
pub mod stats;
pub mod text;
pub mod time;
pub mod validation;
pub mod zstd_decode;
