//! Admission of a batch at the ingestion edge: validation of the whole batch,
//! enrichment of every event, and the answer to the client.

use crate::error::{AppError, AppErrorView};
use crate::event::{
    BatchRequest, EnrichedEvent, EnrichedEventView, IngestEvent, IngestEventView,
};
use crate::text::concat2;
use crate::time::Timestamp;
use crate::validation::{
    batch_outcome, event_outcome, serialized_view, validate_batch, validate_event,
};
use vstd::prelude::*;
use vstd::string::*;

verus! {

/// The HTTP status that answers an admitted batch.
pub const ACCEPTED_STATUS: u16 = 202;

/// What stands before the queue's complaint when a batch could not be queued.
pub const ENQUEUE_FAILURE_PREFIX: &'static str = "Failed to enqueue events: ";

/// The body of the answer to an admitted batch.
#[derive(Debug)]
pub struct IngestAccepted {
    pub accepted: usize,
    pub request_id: String,
}

/// The event `e` as admitted for `project_id` at the instant `now`.
pub open spec fn enriched(e: IngestEventView, project_id: u128, now: Timestamp)
    -> EnrichedEventView {
    EnrichedEventView {
        event_id: e.event_id,
        event_name: e.event_name,
        event_type: e.event_type,
        user_id: e.user_id,
        anonymous_id: e.anonymous_id,
        mobile_number: e.mobile_number,
        email: e.email,
        client_timestamp: e.client_timestamp,
        properties: e.properties,
        context: e.context,
        project_id,
        server_timestamp: now,
    }
}

/// The sizes of the serialized events, as mathematical values.
pub open spec fn sizes_view(sizes: Seq<Result<usize, String>>) -> Seq<Result<usize, Seq<char>>> {
    sizes.map_values(|s: Result<usize, String>| serialized_view(s))
}

/// The error of the first event from place `from` on that fails its check, if
/// any does.
pub open spec fn rejection_from(
    events: Seq<IngestEventView>,
    sizes: Seq<Result<usize, Seq<char>>>,
    now: Timestamp,
    from: int,
) -> Option<AppErrorView>
    decreases events.len() - from,
{
    if from < 0 || from >= events.len() {
        None
    } else {
        match event_outcome(events[from], sizes[from], now) {
            Err(e) => Some(e),
            Ok(_) => rejection_from(events, sizes, now, from + 1),
        }
    }
}

/// What admission of a batch decides: the batch is admitted whole, every
/// event enriched, or it is rejected whole with the first error found, the
/// batch-level check coming first.
pub open spec fn admission(
    events: Seq<IngestEventView>,
    sizes: Seq<Result<usize, Seq<char>>>,
    project_id: u128,
    now: Timestamp,
) -> Result<Seq<EnrichedEventView>, AppErrorView> {
    match batch_outcome(events.len()) {
        Err(e) => Err(e),
        Ok(_) => match rejection_from(events, sizes, now, 0) {
            Some(e) => Err(e),
            None => Ok(events.map_values(|e: IngestEventView| enriched(e, project_id, now))),
        },
    }
}

/// The mathematical value of an admission's result.
pub open spec fn admission_view(r: Result<Vec<EnrichedEvent>, AppError>) -> Result<
    Seq<EnrichedEventView>,
    AppErrorView,
> {
    match r {
        Ok(events) => Ok(events.deep_view()),
        Err(e) => Err(e@),
    }
}

/// Stamps `event` with the project it is admitted for and the instant of
/// admission. Everything the client sent is kept as it is.
pub fn enrich(event: IngestEvent, project_id: u128, now: &Timestamp) -> (r: EnrichedEvent)
    ensures
        r@ == enriched(event@, project_id, *now),
{
    EnrichedEvent {
        event_id: event.event_id,
        event_name: event.event_name,
        event_type: event.event_type,
        user_id: event.user_id,
        anonymous_id: event.anonymous_id,
        mobile_number: event.mobile_number,
        email: event.email,
        client_timestamp: event.client_timestamp,
        properties: event.properties,
        context: event.context,
        project_id,
        server_timestamp: *now,
    }
}

/// Decides on a batch at the instant `now`. `sizes` holds, for each event in
/// order, what serialising it gave. The batch is admitted only if it passes
/// the batch-level check and every event passes its own; it is then enriched
/// whole, every event with the same project and the same instant. Otherwise it
/// is rejected whole with the first error.
pub fn admit_batch(
    batch: BatchRequest,
    sizes: &Vec<Result<usize, String>>,
    project_id: u128,
    now: &Timestamp,
) -> (r: Result<Vec<EnrichedEvent>, AppError>)
    requires
        sizes@.len() == batch.batch@.len(),
    ensures
        admission_view(r) == admission(
            batch.batch.deep_view(),
            sizes_view(sizes@),
            project_id,
            *now,
        ),
        r matches Ok(events) ==> {
            &&& events@.len() == batch.batch@.len()
            &&& forall|i: int|
                0 <= i < events@.len() ==> {
                    &&& (#[trigger] events@[i]).server_timestamp == *now
                    &&& events@[i].project_id == project_id
                }
        },
{
    let ghost events = batch.batch.deep_view();
    let ghost lens = sizes_view(sizes@);
    match validate_batch(&batch) {
        Err(e) => {
            return Err(e);
        },
        Ok(_) => {},
    }
    let mut i: usize = 0;
    while i < batch.batch.len()
        invariant
            i <= batch.batch.len(),
            sizes@.len() == batch.batch@.len(),
            events == batch.batch.deep_view(),
            lens == sizes_view(sizes@),
            batch_outcome(events.len()) is Ok,
            rejection_from(events, lens, *now, 0) == rejection_from(events, lens, *now, i as int),
        decreases batch.batch.len() - i,
    {
        assert(events[i as int] == batch.batch@[i as int]@);
        assert(lens[i as int] == serialized_view(sizes@[i as int]));
        match validate_event(&batch.batch[i], &sizes[i], now) {
            Err(e) => {
                return Err(e);
            },
            Ok(_) => {},
        }
        i += 1;
    }
    let mut out: Vec<EnrichedEvent> = Vec::new();
    for event in it: batch.batch
        invariant
            it.seq().len() == events.len(),
            forall|j: int| 0 <= j < it.seq().len() ==> (#[trigger] it.seq()[j])@ == events[j],
            out@.len() == it.index(),
            forall|j: int|
                0 <= j < out@.len() ==> (#[trigger] out@[j])@ == enriched(
                    events[j],
                    project_id,
                    *now,
                ),
    {
        out.push(enrich(event, project_id, now));
    }
    assert(out.deep_view() =~= events.map_values(
        |e: IngestEventView| enriched(e, project_id, *now),
    ));
    Ok(out)
}

/// Decides on a batch by the wall clock: reads the clock once and admits or
/// rejects the batch as [`admit_batch`] does for that instant.
pub fn ingest_batch(batch: BatchRequest, sizes: &Vec<Result<usize, String>>, project_id: u128) -> (r:
    Result<Vec<EnrichedEvent>, AppError>)
    requires
        sizes@.len() == batch.batch@.len(),
    ensures
        exists|now: Timestamp|
            now.secs >= 0 && now.nanos < 1000000000 && admission_view(r) == #[trigger] admission(
                batch.batch.deep_view(),
                sizes_view(sizes@),
                project_id,
                now,
            ),
        r matches Ok(events) ==> {
            &&& events@.len() == batch.batch@.len()
            &&& forall|i: int, j: int|
                0 <= i < events@.len() && 0 <= j < events@.len() ==> (#[trigger] events@[i]).server_timestamp
                    == (#[trigger] events@[j]).server_timestamp
        },
{
    let now = Timestamp::now();
    admit_batch(batch, sizes, project_id, &now)
}

/// The answer to the client once the queue has been asked to take the batch of
/// `accepted` events: `202` with the count and the request id when the queue
/// took all of it, an `Sqs` error when it did not.
pub fn enqueue_outcome(accepted: usize, request_id: String, sent: Result<(), String>) -> (r: Result<
    IngestAccepted,
    AppError,
>)
    ensures
        sent is Ok ==> (r matches Ok(body) && body.accepted == accepted && body.request_id
            == request_id),
        sent matches Err(detail) ==> (r matches Err(e) && e@ == AppErrorView::Sqs(
            ENQUEUE_FAILURE_PREFIX@ + detail@,
        )),
{
    match sent {
        Ok(_) => Ok(IngestAccepted { accepted, request_id }),
        Err(detail) => Err(AppError::Sqs(concat2(ENQUEUE_FAILURE_PREFIX, detail.as_str()))),
    }
}

/// Every event of an admitted batch carries the instant of admission, so
/// batches admitted at instants that do not go backwards carry timestamps that
/// do not go backwards.
pub proof fn law_server_timestamps_follow_admission(
    first: IngestEventView,
    first_project: u128,
    first_now: Timestamp,
    second: IngestEventView,
    second_project: u128,
    second_now: Timestamp,
)
    requires
        first_now.at_or_before(second_now),
    ensures
        enriched(first, first_project, first_now).server_timestamp == first_now,
        enriched(second, second_project, second_now).server_timestamp == second_now,
        enriched(first, first_project, first_now).server_timestamp.at_or_before(
            enriched(second, second_project, second_now).server_timestamp,
        ),
{
}

/// A batch is admitted whole or not at all: an admission holds as many events
/// as the batch, each the enriched form of the event at its place.
pub proof fn law_admission_is_all_or_nothing(
    events: Seq<IngestEventView>,
    sizes: Seq<Result<usize, Seq<char>>>,
    project_id: u128,
    now: Timestamp,
)
    ensures
        admission(events, sizes, project_id, now) matches Ok(admitted) ==> {
            &&& admitted.len() == events.len()
            &&& forall|i: int|
                0 <= i < events.len() ==> #[trigger] admitted[i] == enriched(
                    events[i],
                    project_id,
                    now,
                )
            &&& forall|i: int|
                0 <= i < events.len() ==> event_outcome(#[trigger] events[i], sizes[i], now) is Ok
        },
{
    if admission(events, sizes, project_id, now) is Ok {
        assert forall|i: int| 0 <= i < events.len() implies event_outcome(
            #[trigger] events[i],
            sizes[i],
            now,
        ) is Ok by {
            lemma_no_rejection(events, sizes, now, 0, i);
        }
    }
}

/// Where no event from `from` on is rejected, the event at `at` passes.
proof fn lemma_no_rejection(
    events: Seq<IngestEventView>,
    sizes: Seq<Result<usize, Seq<char>>>,
    now: Timestamp,
    from: int,
    at: int,
)
    requires
        0 <= from <= at < events.len(),
        rejection_from(events, sizes, now, from) is None,
    ensures
        event_outcome(events[at], sizes[at], now) is Ok,
    decreases at - from,
{
    if from < at {
        lemma_no_rejection(events, sizes, now, from + 1, at);
    }
}

} // verus!
