//! Settings of the three services and the defaults that apply where the
//! environment leaves one out.

use vstd::prelude::*;
use vstd::string::*;

verus! {

/// Events that the writer's batcher gathers before it flushes, unless
/// configured otherwise.
pub const DEFAULT_BATCH_SIZE: usize = 5000;

/// Milliseconds after which the batcher flushes a partial batch, unless
/// configured otherwise.
pub const DEFAULT_BATCH_TIMEOUT_MS: u64 = 2000;

/// Most flushes that may run at the same time.
pub const MAX_IN_FLIGHT: usize = 3;

/// Consumer loops that the writer runs.
pub const NUM_CONSUMERS: usize = 3;

/// Port of the writer's health endpoint.
pub const HEALTH_PORT: u16 = 9090;

/// Capacity of the channel between the consumer loops and the batcher.
pub const CHANNEL_BUFFER: usize = 10000;

/// Most connections that the pool to the relational store holds.
pub const DB_POOL_MAX_SIZE: u32 = 10;

/// The AWS region where none is configured.
pub fn default_aws_region() -> (r: String)
    ensures
        r@ == "us-east-1"@,
{
    String::from_str("us-east-1")
}

/// The value of a textual setting that is left out and may be empty.
pub fn default_empty_string() -> (r: String)
    ensures
        r@ == Seq::<char>::empty(),
{
    String::new()
}

/// The port of the ingestion service where none is configured.
pub fn default_ingestion_port() -> (r: u16)
    ensures
        r == 8080,
{
    8080
}

/// The port of the admin service where none is configured.
pub fn default_admin_port() -> (r: u16)
    ensures
        r == 8081,
{
    8081
}

/// The origins allowed by CORS where none are configured: all of them.
pub fn default_cors_origins() -> (r: String)
    ensures
        r@ == "*"@,
{
    String::from_str("*")
}

/// The writer's batch size where `CH_BATCH_SIZE` is not set.
pub fn default_batch_size() -> (r: usize)
    ensures
        r == 1000,
{
    1000
}

/// The writer's flush interval where `CH_FLUSH_INTERVAL_SECS` is not set.
pub fn default_flush_interval_secs() -> (r: u64)
    ensures
        r == 5,
{
    5
}

/// Messages asked of the queue per poll where `SQS_RECEIVE_BATCH_SIZE` is not
/// set.
pub fn default_sqs_receive_batch_size() -> (r: i32)
    ensures
        r == 10,
{
    10
}

/// Settings of the ingestion service.
#[derive(Debug, Clone)]
pub struct IngestionConfig {
    pub ingestion_api_port: u16,
    pub sqs_queue_url: String,
    pub database_url: String,
    pub sentry_dsn: Option<String>,
    pub aws_region: String,
    pub sqs_endpoint_url: Option<String>,
}

impl IngestionConfig {
    /// The port the service listens on.
    pub fn port(&self) -> (r: u16)
        ensures
            r == self.ingestion_api_port,
    {
        self.ingestion_api_port
    }
}

/// Settings of the admin service.
#[derive(Debug, Clone)]
pub struct AdminConfig {
    pub admin_api_port: u16,
    pub database_url: String,
    pub clickhouse_url: String,
    pub clickhouse_database: String,
    pub clickhouse_user: String,
    pub clickhouse_password: String,
    pub admin_api_token: String,
    pub cors_allowed_origins: String,
    pub sentry_dsn: Option<String>,
}

impl AdminConfig {
    /// The port the service listens on.
    pub fn port(&self) -> (r: u16)
        ensures
            r == self.admin_api_port,
    {
        self.admin_api_port
    }
}

/// Settings of the writer.
#[derive(Debug, Clone)]
pub struct WriterConfig {
    pub sqs_queue_url: String,
    pub clickhouse_url: String,
    pub clickhouse_database: String,
    pub clickhouse_user: String,
    pub clickhouse_password: String,
    pub ch_batch_size: usize,
    pub ch_flush_interval_secs: u64,
    pub sqs_receive_batch_size: i32,
    pub aws_region: String,
    pub sqs_endpoint_url: Option<String>,
    pub sentry_dsn: Option<String>,
}

impl WriterConfig {
    /// Events per flush.
    pub fn batch_size(&self) -> (r: usize)
        ensures
            r == self.ch_batch_size,
    {
        self.ch_batch_size
    }

    /// Seconds after which a partial batch is flushed.
    pub fn flush_interval_secs(&self) -> (r: u64)
        ensures
            r == self.ch_flush_interval_secs,
    {
        self.ch_flush_interval_secs
    }

    /// The flush interval in milliseconds; `None` where it does not fit.
    pub fn flush_interval_ms(&self) -> (r: Option<u64>)
        ensures
            r == (if self.ch_flush_interval_secs * 1000 <= u64::MAX {
                Some((self.ch_flush_interval_secs * 1000) as u64)
            } else {
                None
            }),
    {
        self.ch_flush_interval_secs.checked_mul(1000)
    }

    /// The address of the dead-letter queue that belongs to this writer's
    /// source queue: the source address with `-dlq` behind it.
    pub fn dlq_url(&self) -> (r: String)
        ensures
            r@ == self.sqs_queue_url@ + "-dlq"@,
    {
        let mut out = self.sqs_queue_url.clone();
        out.append("-dlq");
        out
    }
}

} // verus!
