//! How duplicates are dealt with.
//!
//! The writer inserts every event it receives. The `events` table is sorted by
//! `(project_id, event_id)` and replaces on match with `server_timestamp` as
//! the winner, so rows that share a key collapse to the latest-arrived one when
//! the store compacts. Until then duplicates are visible to readers.

use vstd::prelude::*;

verus! {

/// The account of the deduplication strategy.
pub const DEDUP_NOTE: &'static str =
    "Deduplication is handled by ClickHouse using ReplacingMergeTree(server_timestamp). Rows with the same (project_id, event_id) are collapsed during background merges, keeping only the row with the latest server_timestamp. No runtime dedup is performed by the writer.";

/// A one-paragraph account of the deduplication strategy, for the start-up
/// log.
pub fn dedup_note() -> (r: &'static str)
    ensures
        r@ == DEDUP_NOTE@,
{
    DEDUP_NOTE
}

} // verus!
