//! The queue adapter's rules: how events become queue messages, how batches
//! are cut into calls, and how the outcome of a call is read.

use crate::event::{EnrichedEvent, EnrichedEventView};
use crate::ids::{id_text, id_to_string};
use crate::text::{concat2, concat3, decimal_digits, decimal_string};
use vstd::prelude::*;
use vstd::string::*;

verus! {

/// Most entries that the queue takes in one batch call.
pub const QUEUE_BATCH_LIMIT: usize = 10;

/// Seconds a receive call waits for messages before it returns empty.
pub const LONG_POLL_WAIT_SECS: i32 = 20;

/// How many calls a batch of `n` entries takes.
pub open spec fn chunk_count(n: nat) -> nat {
    (n + QUEUE_BATCH_LIMIT - 1) as nat / (QUEUE_BATCH_LIMIT as nat)
}

/// Where the `c`-th call's entries end in a batch of `n`.
pub open spec fn chunk_end(n: nat, c: int) -> int {
    if (c + 1) * QUEUE_BATCH_LIMIT <= n {
        (c + 1) * QUEUE_BATCH_LIMIT
    } else {
        n as int
    }
}

/// Whether `chunks` is `items` cut into runs of ten, in order, the last run
/// holding what is left.
pub open spec fn is_chunking<T>(chunks: Seq<Vec<T>>, items: Seq<T>) -> bool {
    &&& chunks.len() == chunk_count(items.len())
    &&& forall|c: int|
        0 <= c < chunks.len() ==> (#[trigger] chunks[c])@ == items.subrange(
            c * QUEUE_BATCH_LIMIT,
            chunk_end(items.len(), c),
        )
}

/// A chunking loses nothing and adds nothing: the item at place `i` is found
/// in run `i / 10` at place `i % 10`, and every run holds between one and ten
/// items.
pub proof fn law_chunking_covers_items<T>(chunks: Seq<Vec<T>>, items: Seq<T>, i: int)
    requires
        is_chunking(chunks, items),
        0 <= i < items.len(),
    ensures
        0 <= i / 10 < chunks.len(),
        0 <= i % 10 < chunks[i / 10]@.len(),
        chunks[i / 10]@[i % 10] == items[i],
        forall|c: int| 0 <= c < chunks.len() ==> 1 <= (#[trigger] chunks[c])@.len() <= 10,
{
    let c = i / 10;
    assert(chunks[c]@ == items.subrange(c * 10, chunk_end(items.len(), c)));
    assert forall|k: int| 0 <= k < chunks.len() implies 1 <= (#[trigger] chunks[k])@.len()
        <= 10 by {
        assert(chunks[k]@ == items.subrange(k * 10, chunk_end(items.len(), k)));
    }
}

/// Cuts `items` into runs of at most ten, keeping their order.
pub fn chunks_of_ten<T>(items: Vec<T>) -> (r: Vec<Vec<T>>)
    ensures
        is_chunking(r@, items@),
{
    let ghost all = items@;
    let mut out: Vec<Vec<T>> = Vec::new();
    let mut current: Vec<T> = Vec::new();
    for item in it: items
        invariant
            it.seq() == all,
            current@.len() < QUEUE_BATCH_LIMIT,
            out@.len() * QUEUE_BATCH_LIMIT + current@.len() == it.index(),
            current@ == all.subrange(out@.len() * QUEUE_BATCH_LIMIT, it.index() as int),
            forall|c: int|
                0 <= c < out@.len() ==> (#[trigger] out@[c])@ == all.subrange(
                    c * QUEUE_BATCH_LIMIT,
                    (c + 1) * QUEUE_BATCH_LIMIT,
                ),
    {
        current.push(item);
        assert(current@ =~= all.subrange(out@.len() * QUEUE_BATCH_LIMIT, it.index() + 1));
        if current.len() == QUEUE_BATCH_LIMIT {
            out.push(current);
            current = Vec::new();
            assert(current@ =~= all.subrange(out@.len() * QUEUE_BATCH_LIMIT, it.index() + 1));
        }
    }
    if current.len() > 0 {
        out.push(current);
    }
    assert(is_chunking(out@, all));
    out
}

/// A message as the queue hands it out. Either part may be missing.
#[derive(Debug)]
pub struct QueueMessage {
    pub body: Option<String>,
    pub receipt_handle: Option<String>,
}

/// An admitted event together with its JSON text, ready to be queued.
#[derive(Debug)]
pub struct OutboundMessage {
    pub event: EnrichedEvent,
    pub body: String,
}

/// One entry of a send-batch call: the body and the three string attributes
/// that mirror the event's top-level fields.
#[derive(Debug)]
pub struct SendEntry {
    pub id: String,
    pub body: String,
    pub project_id: String,
    pub event_type: String,
    pub event_id: String,
}

/// The mathematical value of a [`SendEntry`].
pub ghost struct SendEntryView {
    pub id: Seq<char>,
    pub body: Seq<char>,
    pub project_id: Seq<char>,
    pub event_type: Seq<char>,
    pub event_id: Seq<char>,
}

impl View for SendEntry {
    type V = SendEntryView;

    open spec fn view(&self) -> SendEntryView {
        SendEntryView {
            id: self.id@,
            body: self.body@,
            project_id: self.project_id@,
            event_type: self.event_type@,
            event_id: self.event_id@,
        }
    }
}

impl DeepView for SendEntry {
    type V = SendEntryView;

    open spec fn deep_view(&self) -> SendEntryView {
        self@
    }
}

/// A message for the dead-letter queue: the original body, untouched, and why
/// it was given up.
#[derive(Debug)]
pub struct DlqMessage {
    pub queue_url: String,
    pub body: String,
    pub error_reason: String,
}

/// The mathematical value of a [`DlqMessage`].
pub ghost struct DlqMessageView {
    pub queue_url: Seq<char>,
    pub body: Seq<char>,
    pub error_reason: Seq<char>,
}

impl View for DlqMessage {
    type V = DlqMessageView;

    open spec fn view(&self) -> DlqMessageView {
        DlqMessageView {
            queue_url: self.queue_url@,
            body: self.body@,
            error_reason: self.error_reason@,
        }
    }
}

impl DeepView for DlqMessage {
    type V = DlqMessageView;

    open spec fn deep_view(&self) -> DlqMessageView {
        self@
    }
}

/// What a receive call asks of the queue.
#[derive(Debug, Clone, Copy, PartialEq, Eq, Structural)]
pub struct ReceiveRequest {
    pub max_messages: i32,
    pub wait_seconds: i32,
}

/// The entry for the event `e` with JSON text `body` at place `index` of its
/// call.
pub open spec fn send_entry_of(index: nat, e: EnrichedEventView, body: Seq<char>) -> SendEntryView {
    SendEntryView {
        id: "msg_"@ + decimal_digits(index),
        body,
        project_id: id_text(e.project_id),
        event_type: e.event_type.wire_name(),
        event_id: id_text(e.event_id),
    }
}

/// The entry of a delete call for the message at place `index` of a flushed
/// batch.
pub open spec fn delete_entry_of(index: nat, receipt_handle: Seq<char>) -> (Seq<char>, Seq<char>) {
    ("del_"@ + decimal_digits(index), receipt_handle)
}

/// How the outcome of one send-batch call reads: a failed call and a call
/// that reports failed entries both fail the batch.
pub open spec fn chunk_outcome(result: Result<usize, Seq<char>>) -> Result<(), Seq<char>> {
    match result {
        Err(_) => Err("SQS SendMessageBatch failed"@),
        Ok(failed) => if failed > 0 {
            Err("Failed to send "@ + decimal_digits(failed as nat) + " messages to SQS"@)
        } else {
            Ok(())
        },
    }
}

/// The entry for `message` at place `index` of its call.
pub fn send_entry(index: usize, message: &OutboundMessage) -> (r: SendEntry)
    ensures
        r@ == send_entry_of(index as nat, message.event@, message.body@),
{
    SendEntry {
        id: concat2("msg_", decimal_string(index as u64).as_str()),
        body: message.body.clone(),
        project_id: id_to_string(message.event.project_id),
        event_type: String::from_str(message.event.event_type.name()),
        event_id: id_to_string(message.event.event_id),
    }
}

/// Whether `calls` is the send plan for `messages`: the messages cut into
/// runs of ten, each entry numbered by its place within its own call.
pub open spec fn is_send_plan(calls: Seq<Vec<SendEntry>>, messages: Seq<OutboundMessage>) -> bool {
    &&& calls.len() == chunk_count(messages.len())
    &&& forall|c: int|
        0 <= c < calls.len() ==> (#[trigger] calls[c])@.len() == chunk_end(messages.len(), c) - c
            * QUEUE_BATCH_LIMIT
    &&& forall|c: int, j: int|
        0 <= c < calls.len() && 0 <= j < calls[c]@.len() ==> (#[trigger] calls[c]@[j])@
            == send_entry_of(
            j as nat,
            messages[c * QUEUE_BATCH_LIMIT + j].event@,
            messages[c * QUEUE_BATCH_LIMIT + j].body@,
        )
}

/// A send plan sends every message exactly once: the message at place `i` is
/// entry `i % 10` of call `i / 10`, under the id `msg_` and its place in the
/// call, with its own body and the ids and kind of its own event.
pub proof fn law_send_plan_covers_messages(
    calls: Seq<Vec<SendEntry>>,
    messages: Seq<OutboundMessage>,
    i: int,
)
    requires
        is_send_plan(calls, messages),
        0 <= i < messages.len(),
    ensures
        0 <= i / 10 < calls.len(),
        0 <= i % 10 < calls[i / 10]@.len(),
        calls[i / 10]@[i % 10]@ == send_entry_of((i % 10) as nat, messages[i].event@, messages[i].body@),
        forall|c: int| 0 <= c < calls.len() ==> 1 <= (#[trigger] calls[c])@.len() <= 10,
{
    let c = i / 10;
    let j = i % 10;
    assert(calls[c]@.len() == chunk_end(messages.len(), c) - c * 10);
    assert(calls[c]@[j]@ == send_entry_of(
        j as nat,
        messages[c * 10 + j].event@,
        messages[c * 10 + j].body@,
    ));
}

/// Plans the send-batch calls for `messages`: runs of at most ten entries, in
/// order, each entry carrying the body and the attributes of its event.
pub fn plan_send_batch(messages: &Vec<OutboundMessage>) -> (r: Vec<Vec<SendEntry>>)
    ensures
        is_send_plan(r@, messages@),
{
    let mut calls: Vec<Vec<SendEntry>> = Vec::new();
    let mut current: Vec<SendEntry> = Vec::new();
    let mut i: usize = 0;
    while i < messages.len()
        invariant
            i <= messages.len(),
            current@.len() < QUEUE_BATCH_LIMIT,
            calls@.len() * QUEUE_BATCH_LIMIT + current@.len() == i,
            forall|j: int|
                0 <= j < current@.len() ==> (#[trigger] current@[j])@ == send_entry_of(
                    j as nat,
                    messages[calls@.len() * QUEUE_BATCH_LIMIT + j].event@,
                    messages[calls@.len() * QUEUE_BATCH_LIMIT + j].body@,
                ),
            forall|c: int|
                0 <= c < calls@.len() ==> (#[trigger] calls@[c])@.len() == QUEUE_BATCH_LIMIT,
            forall|c: int, j: int|
                0 <= c < calls@.len() && 0 <= j < calls@[c]@.len() ==> (#[trigger] calls@[c]@[j])@
                    == send_entry_of(
                    j as nat,
                    messages[c * QUEUE_BATCH_LIMIT + j].event@,
                    messages[c * QUEUE_BATCH_LIMIT + j].body@,
                ),
        decreases messages.len() - i,
    {
        let entry = send_entry(current.len(), &messages[i]);
        current.push(entry);
        if current.len() == QUEUE_BATCH_LIMIT {
            calls.push(current);
            current = Vec::new();
        }
        i += 1;
    }
    if current.len() > 0 {
        calls.push(current);
    }
    calls
}

/// A batch is reported as sent only if every message of it was taken: where
/// the outcome of every call of the plan reads `Ok`, every call reported no
/// failed entry, and every message is an entry of such a call. So a caller
/// that is told `Ok` knows the whole batch queued; a caller that is told `Err`
/// treats none of it as accepted, though calls made before the failed one may
/// have queued their messages.
pub proof fn law_sent_means_every_message_taken(
    calls: Seq<Vec<SendEntry>>,
    messages: Seq<OutboundMessage>,
    results: Seq<Result<usize, Seq<char>>>,
    i: int,
)
    requires
        is_send_plan(calls, messages),
        results.len() == calls.len(),
        forall|c: int| 0 <= c < results.len() ==> chunk_outcome(#[trigger] results[c]) is Ok,
        0 <= i < messages.len(),
    ensures
        0 <= i / 10 < calls.len(),
        results[i / 10] == Ok::<usize, Seq<char>>(0),
        0 <= i % 10 < calls[i / 10]@.len(),
        calls[i / 10]@[i % 10]@ == send_entry_of((i % 10) as nat, messages[i].event@, messages[i].body@),
{
    law_send_plan_covers_messages(calls, messages, i);
    assert(chunk_outcome(results[i / 10]) is Ok);
}

/// Reads the outcome of one send-batch call. `result` is the number of entries
/// that the queue reported as failed, or the error of the call itself. Any
/// failure fails the whole batch.
pub fn chunk_send_outcome(result: &Result<usize, String>) -> (r: Result<(), String>)
    ensures
        r is Ok <==> result == Ok::<usize, String>(0),
        r matches Err(e) ==> Err::<(), Seq<char>>(e@) == chunk_outcome(
            match *result {
                Ok(n) => Ok(n),
                Err(d) => Err(d@),
            },
        ),
{
    match result {
        Err(_) => Err(String::from_str("SQS SendMessageBatch failed")),
        Ok(failed) => {
            if *failed > 0 {
                Err(
                    concat3(
                        "Failed to send ",
                        decimal_string(*failed as u64).as_str(),
                        " messages to SQS",
                    ),
                )
            } else {
                Ok(())
            }
        },
    }
}

/// Plans the delete-batch calls for `entries`, pairs of entry id and receipt
/// handle: runs of at most ten, in order.
pub fn plan_delete_batch(entries: Vec<(String, String)>) -> (r: Vec<Vec<(String, String)>>)
    ensures
        is_chunking(r@, entries@),
{
    chunks_of_ten(entries)
}

/// The dead-letter message for `body`, given up for `error_reason`.
pub fn dlq_message(queue_url: &str, body: &str, error_reason: &str) -> (r: DlqMessage)
    ensures
        r@ == (DlqMessageView {
            queue_url: queue_url@,
            body: body@,
            error_reason: error_reason@,
        }),
{
    DlqMessage {
        queue_url: String::from_str(queue_url),
        body: String::from_str(body),
        error_reason: String::from_str(error_reason),
    }
}

} // verus!
