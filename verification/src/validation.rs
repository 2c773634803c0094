//! Limits on batches, single events and request bodies.

use crate::error::{AppError, AppErrorView};
use crate::event::{
    event_errors, validate_ingest_event_at, BatchRequest, IngestEvent, IngestEventView,
};
use crate::ids::{id_text, id_to_string};
use crate::text::{decimal_digits, decimal_string, join, join_spec};
use crate::time::Timestamp;
use vstd::prelude::*;
use vstd::string::*;

verus! {

/// Most events in one batch.
pub const MAX_BATCH_SIZE: usize = 100;

/// Most bytes of one event in its serialized form: 32 KiB.
pub const MAX_EVENT_SIZE: usize = 32768;

/// Most bytes of a request body after decompression: 4 MiB.
pub const MAX_BODY_SIZE: usize = 4194304;

/// The message for a batch of `n` events, more than allowed.
pub open spec fn batch_too_large_message(n: nat) -> Seq<char> {
    "Batch must contain at most "@ + decimal_digits(MAX_BATCH_SIZE as nat) + " events, got "@
        + decimal_digits(n)
}

/// What the batch-level check returns for a batch of `n` events.
pub open spec fn batch_outcome(n: nat) -> Result<(), AppErrorView> {
    if n == 0 {
        Err(AppErrorView::Validation("Batch must contain at least 1 event"@))
    } else if n > MAX_BATCH_SIZE {
        Err(AppErrorView::Validation(batch_too_large_message(n)))
    } else {
        Ok(())
    }
}

/// The message for an event `id` whose serialized form has `n` bytes, more
/// than allowed.
pub open spec fn event_too_large_message(id: u128, n: nat) -> Seq<char> {
    "Event "@ + id_text(id) + " exceeds maximum size of "@ + decimal_digits(
        MAX_EVENT_SIZE as nat,
    ) + " bytes (actual: "@ + decimal_digits(n) + " bytes)"@
}

/// The message for a body of `n` bytes, more than allowed.
pub open spec fn body_too_large_message(n: nat) -> Seq<char> {
    "Request body exceeds maximum size of "@ + decimal_digits(MAX_BODY_SIZE as nat)
        + " bytes (actual: "@ + decimal_digits(n) + " bytes)"@
}

/// What the check of one event returns: the field rules first, all failures
/// joined by `"; "`; then the serialized form, which must have been produced
/// and be within the size limit.
pub open spec fn event_outcome(
    e: IngestEventView,
    serialized: Result<usize, Seq<char>>,
    now: Timestamp,
) -> Result<(), AppErrorView> {
    if event_errors(e, now).len() > 0 {
        Err(AppErrorView::Validation(join_spec(event_errors(e, now), "; "@)))
    } else {
        match serialized {
            Err(detail) => Err(AppErrorView::Validation("Failed to serialize event: "@ + detail)),
            Ok(n) => if n > MAX_EVENT_SIZE {
                Err(AppErrorView::Validation(event_too_large_message(e.event_id, n as nat)))
            } else {
                Ok(())
            },
        }
    }
}

/// What the check of a body of `n` bytes returns.
pub open spec fn body_outcome(n: nat) -> Result<(), AppErrorView> {
    if n > MAX_BODY_SIZE {
        Err(AppErrorView::PayloadTooLarge(body_too_large_message(n)))
    } else {
        Ok(())
    }
}

/// The mathematical value of a check's result.
pub open spec fn check_view(r: Result<(), AppError>) -> Result<(), AppErrorView> {
    match r {
        Ok(_) => Ok(()),
        Err(e) => Err(e@),
    }
}

/// The mathematical value of what serialising an event gave: its length in
/// bytes, or the serialiser's complaint.
pub open spec fn serialized_view(s: Result<usize, String>) -> Result<usize, Seq<char>> {
    match s {
        Ok(n) => Ok(n),
        Err(detail) => Err(detail@),
    }
}

/// Checks that the batch holds between 1 and 100 events.
pub fn validate_batch(batch: &BatchRequest) -> (r: Result<(), AppError>)
    ensures
        check_view(r) == batch_outcome(batch.batch@.len()),
{
    let n = batch.batch.len();
    if n == 0 {
        return Err(AppError::Validation(String::from_str("Batch must contain at least 1 event")));
    }
    if n > MAX_BATCH_SIZE {
        let mut msg = String::from_str("Batch must contain at most ");
        msg.append(decimal_string(MAX_BATCH_SIZE as u64).as_str());
        msg.append(" events, got ");
        msg.append(decimal_string(n as u64).as_str());
        return Err(AppError::Validation(msg));
    }
    Ok(())
}

/// Checks one event: every field rule, judged at `now`, and the size of its
/// serialized form, which the caller hands in as `serialized`.
pub fn validate_event(event: &IngestEvent, serialized: &Result<usize, String>, now: &Timestamp) -> (r:
    Result<(), AppError>)
    ensures
        check_view(r) == event_outcome(event@, serialized_view(*serialized), *now),
{
    match validate_ingest_event_at(event, now) {
        Err(errors) => {
            return Err(AppError::Validation(join(&errors, "; ")));
        },
        Ok(_) => {},
    }
    match serialized {
        Err(detail) => {
            let mut msg = String::from_str("Failed to serialize event: ");
            msg.append(detail.as_str());
            Err(AppError::Validation(msg))
        },
        Ok(n) => {
            if *n > MAX_EVENT_SIZE {
                let mut msg = String::from_str("Event ");
                msg.append(id_to_string(event.event_id).as_str());
                msg.append(" exceeds maximum size of ");
                msg.append(decimal_string(MAX_EVENT_SIZE as u64).as_str());
                msg.append(" bytes (actual: ");
                msg.append(decimal_string(*n as u64).as_str());
                msg.append(" bytes)");
                Err(AppError::Validation(msg))
            } else {
                Ok(())
            }
        },
    }
}

/// Checks that a decompressed body is no larger than 4 MiB.
pub fn validate_body_size(body: &[u8]) -> (r: Result<(), AppError>)
    ensures
        check_view(r) == body_outcome(body@.len()),
{
    let n = body.len();
    if n > MAX_BODY_SIZE {
        let mut msg = String::from_str("Request body exceeds maximum size of ");
        msg.append(decimal_string(MAX_BODY_SIZE as u64).as_str());
        msg.append(" bytes (actual: ");
        msg.append(decimal_string(n as u64).as_str());
        msg.append(" bytes)");
        return Err(AppError::PayloadTooLarge(msg));
    }
    Ok(())
}

} // verus!
