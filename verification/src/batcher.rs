//! The batcher: when buffered events are flushed, how many flushes may run at
//! once, and what follows a flush.

use crate::config::{DEFAULT_BATCH_SIZE, DEFAULT_BATCH_TIMEOUT_MS, MAX_IN_FLIGHT};
use crate::consumer::{IncomingEvent, IncomingEventView};
use crate::event::{EnrichedEvent, EnrichedEventView};
use crate::identity::{identify_statement, process_identify_event};
use crate::sqs::{delete_entry_of, dlq_message, DlqMessage, DlqMessageView};
use crate::text::{concat2, decimal_string};
use vstd::prelude::*;
use vstd::string::*;

verus! {

/// What stands before the inserter's complaint in the reason of a batch that
/// could not be stored.
pub const INSERT_FAILURE_PREFIX: &'static str = "insert failure: ";

/// A batch to flush, and whether the flush timer starts over with it.
#[derive(Debug)]
pub struct FlushOrder {
    pub batch: Vec<IncomingEvent>,
    pub reset_timer: bool,
}

/// What is to be done once the insert of a batch has ended: the identity
/// statements to run, the messages for the dead-letter queue, and the entries
/// to delete from the source queue, each list in the order of the batch.
#[derive(Debug)]
pub struct FlushFollowUp {
    pub identity_statements: Vec<String>,
    pub dead_letters: Vec<DlqMessage>,
    pub deletes: Vec<(String, String)>,
}

/// The batcher's state: the events waiting for the next flush and the number
/// of flushes under way.
pub struct Batcher {
    buffer: Vec<IncomingEvent>,
    batch_size: usize,
    batch_timeout_ms: u64,
    in_flight: usize,
    closed: bool,
    queue_url: String,
    dlq_url: Option<String>,
}

/// The identity statements for `events`, in order: one for each event that
/// establishes a mapping.
pub open spec fn identity_statements_of(events: Seq<EnrichedEventView>) -> Seq<Seq<char>>
    decreases events.len(),
{
    if events.len() == 0 {
        Seq::empty()
    } else {
        let rest = identity_statements_of(events.drop_last());
        match identify_statement(events.last()) {
            Some(statement) => rest.push(statement),
            None => rest,
        }
    }
}

/// The events of a batch, in order.
pub open spec fn events_of(batch: Seq<IncomingEventView>) -> Seq<EnrichedEventView> {
    batch.map_values(|m: IncomingEventView| m.event)
}

/// The delete entries for a batch: entry `i` is named `del_i` and carries the
/// receipt handle of message `i`.
pub open spec fn deletes_of(batch: Seq<IncomingEventView>) -> Seq<(Seq<char>, Seq<char>)> {
    Seq::new(batch.len(), |i: int| delete_entry_of(i as nat, batch[i].receipt_handle))
}

/// The dead-letter messages for a batch whose insert failed with `error`: the
/// raw body of every message, where a dead-letter queue is configured.
pub open spec fn dead_letters_of(
    batch: Seq<IncomingEventView>,
    dlq_url: Option<Seq<char>>,
    error: Seq<char>,
) -> Seq<DlqMessageView> {
    match dlq_url {
        Some(url) => Seq::new(
            batch.len(),
            |i: int|
                DlqMessageView {
                    queue_url: url,
                    body: batch[i].raw_body,
                    error_reason: INSERT_FAILURE_PREFIX@ + error,
                },
        ),
        None => Seq::empty(),
    }
}

impl FlushFollowUp {
    /// Whether this is what follows the insert of `batch` that ended as
    /// `insert`. After a success the identity mappings are recorded; after a
    /// failure every message goes to the dead-letter queue. Either way every
    /// message is deleted from the source queue.
    pub open spec fn follows(
        &self,
        batch: Seq<IncomingEventView>,
        insert: Result<(), Seq<char>>,
        dlq_url: Option<Seq<char>>,
    ) -> bool {
        &&& self.deletes.deep_view() == deletes_of(batch)
        &&& match insert {
            Ok(_) => {
                &&& self.identity_statements.deep_view() == identity_statements_of(events_of(batch))
                &&& self.dead_letters.deep_view() == Seq::<DlqMessageView>::empty()
            },
            Err(error) => {
                &&& self.identity_statements.deep_view() == Seq::<Seq<char>>::empty()
                &&& self.dead_letters.deep_view() == dead_letters_of(batch, dlq_url, error)
            },
        }
    }
}

/// The mathematical value of an insert's outcome.
pub open spec fn insert_view(insert: Result<(), String>) -> Result<(), Seq<char>> {
    match insert {
        Ok(_) => Ok(()),
        Err(error) => Err(error@),
    }
}

/// The events of a batch, in order, for the inserter.
pub fn batch_events(batch: &Vec<IncomingEvent>) -> (r: Vec<EnrichedEvent>)
    ensures
        r.deep_view() == events_of(batch.deep_view()),
{
    let mut events: Vec<EnrichedEvent> = Vec::new();
    let mut i: usize = 0;
    while i < batch.len()
        invariant
            i <= batch.len(),
            events@.len() == i,
            forall|j: int| 0 <= j < i ==> (#[trigger] events@[j])@ == batch@[j]@.event,
        decreases batch.len() - i,
    {
        events.push(batch[i].event.clone());
        i += 1;
    }
    assert(events.deep_view() =~= events_of(batch.deep_view()));
    events
}

/// The delete entries for a flushed batch.
pub fn delete_entries(batch: &Vec<IncomingEvent>) -> (r: Vec<(String, String)>)
    ensures
        r.deep_view() == deletes_of(batch.deep_view()),
{
    let mut entries: Vec<(String, String)> = Vec::new();
    let mut i: usize = 0;
    while i < batch.len()
        invariant
            i <= batch.len(),
            entries@.len() == i,
            forall|j: int|
                0 <= j < i ==> (#[trigger] entries@[j]).deep_view() == delete_entry_of(
                    j as nat,
                    batch@[j]@.receipt_handle,
                ),
        decreases batch.len() - i,
    {
        let id = concat2("del_", decimal_string(i as u64).as_str());
        entries.push((id, batch[i].receipt_handle.clone()));
        i += 1;
    }
    assert(entries.deep_view() =~= deletes_of(batch.deep_view()));
    entries
}

/// The identity statements for a stored batch.
fn identity_statements(batch: &Vec<IncomingEvent>) -> (r: Vec<String>)
    ensures
        r.deep_view() == identity_statements_of(events_of(batch.deep_view())),
{
    let ghost events = events_of(batch.deep_view());
    let mut statements: Vec<String> = Vec::new();
    let mut i: usize = 0;
    assert(events.take(0) =~= Seq::<EnrichedEventView>::empty());
    assert(statements.deep_view() =~= identity_statements_of(events.take(0)));
    while i < batch.len()
        invariant
            i <= batch.len(),
            events == events_of(batch.deep_view()),
            statements.deep_view() == identity_statements_of(events.take(i as int)),
        decreases batch.len() - i,
    {
        let ghost before = statements.deep_view();
        assert(events.take(i + 1).drop_last() =~= events.take(i as int));
        assert(events.take(i + 1).last() == batch@[i as int]@.event);
        match process_identify_event(&batch[i].event) {
            Some(statement) => {
                statements.push(statement);
                assert(statements.deep_view() =~= before.push(statement@));
            },
            None => {},
        }
        i += 1;
    }
    assert(events.take(batch.len() as int) =~= events);
    statements
}

/// The dead-letter messages for a batch whose insert failed with `error`.
fn dead_letters(batch: &Vec<IncomingEvent>, dlq_url: &Option<String>, error: &str) -> (r: Vec<
    DlqMessage,
>)
    ensures
        r.deep_view() == dead_letters_of(batch.deep_view(), dlq_url.deep_view(), error@),
{
    let mut letters: Vec<DlqMessage> = Vec::new();
    match dlq_url {
        None => {
            assert(letters.deep_view() =~= Seq::<DlqMessageView>::empty());
        },
        Some(url) => {
            let reason = concat2(INSERT_FAILURE_PREFIX, error);
            let mut i: usize = 0;
            while i < batch.len()
                invariant
                    i <= batch.len(),
                    letters@.len() == i,
                    reason@ == INSERT_FAILURE_PREFIX@ + error@,
                    forall|j: int|
                        0 <= j < i ==> (#[trigger] letters@[j])@ == (DlqMessageView {
                            queue_url: url@,
                            body: batch@[j]@.raw_body,
                            error_reason: INSERT_FAILURE_PREFIX@ + error@,
                        }),
                decreases batch.len() - i,
            {
                letters.push(dlq_message(url.as_str(), batch[i].raw_body.as_str(), reason.as_str()));
                i += 1;
            }
            assert(letters.deep_view() =~= dead_letters_of(
                batch.deep_view(),
                dlq_url.deep_view(),
                error@,
            ));
        },
    }
    letters
}

/// Plans what follows the insert of `batch` that ended as `insert`, the error
/// being the one left when the inserter's own retries were used up.
pub fn plan_follow_up(
    batch: &Vec<IncomingEvent>,
    insert: &Result<(), String>,
    dlq_url: &Option<String>,
) -> (r: FlushFollowUp)
    ensures
        r.follows(batch.deep_view(), insert_view(*insert), dlq_url.deep_view()),
{
    let deletes = delete_entries(batch);
    match insert {
        Ok(_) => {
            let none: Vec<DlqMessage> = Vec::new();
            assert(none.deep_view() =~= Seq::<DlqMessageView>::empty());
            FlushFollowUp {
                identity_statements: identity_statements(batch),
                dead_letters: none,
                deletes,
            }
        },
        Err(error) => {
            let none: Vec<String> = Vec::new();
            assert(none.deep_view() =~= Seq::<Seq<char>>::empty());
            FlushFollowUp {
                identity_statements: none,
                dead_letters: dead_letters(batch, dlq_url, error.as_str()),
                deletes,
            }
        },
    }
}

impl Batcher {
    /// What every batcher made by [`Batcher::new`] and changed only through
    /// its methods satisfies: no more than [`MAX_IN_FLIGHT`] flushes are
    /// under way, and the buffer holds fewer events than make a batch.
    pub closed spec fn wf(&self) -> bool {
        &&& self.in_flight <= MAX_IN_FLIGHT
        &&& (self.buffer@.len() == 0 || self.buffer@.len() < self.batch_size)
    }

    /// The most events that a batch can hold: the batch size, and one where
    /// the batch size is zero, since then every event is a batch of its own.
    pub open spec fn max_batch_len(&self) -> nat {
        if self.spec_batch_size() == 0 {
            1
        } else {
            self.spec_batch_size() as nat
        }
    }

    /// In every state the buffer holds fewer events than make a batch, so no
    /// batch that is handed out is longer than the batch size.
    pub proof fn law_buffer_below_batch_size(&self)
        requires
            self.wf(),
        ensures
            self.buffered().len() < self.max_batch_len(),
    {
    }

    /// In every state at most [`MAX_IN_FLIGHT`] flushes are under way, and a
    /// batcher whose work is over has none.
    pub proof fn law_in_flight_bounded(&self)
        requires
            self.wf(),
        ensures
            self.in_flight() <= MAX_IN_FLIGHT,
            self.finished() ==> self.in_flight() == 0,
    {
    }

    /// The events waiting for the next flush, oldest first.
    pub closed spec fn buffered(&self) -> Seq<IncomingEventView> {
        self.buffer.deep_view()
    }

    /// The number of flushes under way.
    pub closed spec fn in_flight(&self) -> nat {
        self.in_flight as nat
    }

    /// Whether the source of events has closed.
    pub closed spec fn is_closed(&self) -> bool {
        self.closed
    }

    /// The number of buffered events that triggers a flush.
    pub closed spec fn spec_batch_size(&self) -> usize {
        self.batch_size
    }

    /// The flush interval in milliseconds.
    pub closed spec fn spec_batch_timeout_ms(&self) -> u64 {
        self.batch_timeout_ms
    }

    /// Where flushed messages are deleted from.
    pub closed spec fn spec_queue_url(&self) -> Seq<char> {
        self.queue_url@
    }

    /// Where messages that could not be stored go.
    pub closed spec fn spec_dlq_url(&self) -> Option<Seq<char>> {
        self.dlq_url.deep_view()
    }

    /// Whether the batcher's work is over: the source has closed, nothing is
    /// buffered, and no flush is under way.
    pub open spec fn finished(&self) -> bool {
        self.is_closed() && self.buffered().len() == 0 && self.in_flight() == 0
    }

    /// A batcher with nothing buffered and no flush under way. Where a size or
    /// an interval is left out the defaults apply.
    pub fn new(
        queue_url: String,
        dlq_url: Option<String>,
        batch_size: Option<usize>,
        batch_timeout_ms: Option<u64>,
    ) -> (r: Batcher)
        ensures
            r.wf(),
            r.buffered() == Seq::<IncomingEventView>::empty(),
            r.in_flight() == 0,
            !r.is_closed(),
            r.spec_batch_size() == (match batch_size {
                Some(n) => n,
                None => DEFAULT_BATCH_SIZE,
            }),
            r.spec_batch_timeout_ms() == (match batch_timeout_ms {
                Some(ms) => ms,
                None => DEFAULT_BATCH_TIMEOUT_MS,
            }),
            r.spec_queue_url() == queue_url@,
            r.spec_dlq_url() == dlq_url.deep_view(),
    {
        let buffer: Vec<IncomingEvent> = Vec::new();
        assert(buffer.deep_view() =~= Seq::<IncomingEventView>::empty());
        Batcher {
            buffer,
            batch_size: match batch_size {
                Some(n) => n,
                None => DEFAULT_BATCH_SIZE,
            },
            batch_timeout_ms: match batch_timeout_ms {
                Some(ms) => ms,
                None => DEFAULT_BATCH_TIMEOUT_MS,
            },
            in_flight: 0,
            closed: false,
            queue_url,
            dlq_url,
        }
    }

    /// The number of buffered events that triggers a flush.
    pub fn batch_size(&self) -> (r: usize)
        ensures
            r == self.spec_batch_size(),
    {
        self.batch_size
    }

    /// The flush interval in milliseconds.
    pub fn batch_timeout_ms(&self) -> (r: u64)
        ensures
            r == self.spec_batch_timeout_ms(),
    {
        self.batch_timeout_ms
    }

    /// The queue that flushed messages are deleted from.
    pub fn queue_url(&self) -> (r: &String)
        ensures
            r@ == self.spec_queue_url(),
    {
        &self.queue_url
    }

    /// The queue that takes the messages of batches that could not be stored.
    pub fn dlq_url(&self) -> (r: &Option<String>)
        ensures
            r.deep_view() == self.spec_dlq_url(),
    {
        &self.dlq_url
    }

    /// The number of flushes under way.
    pub fn flushes_in_flight(&self) -> (r: usize)
        requires
            self.wf(),
        ensures
            r == self.in_flight(),
            r <= MAX_IN_FLIGHT,
    {
        self.in_flight
    }

    /// Takes everything out of the buffer.
    fn take_buffer(&mut self) -> (batch: Vec<IncomingEvent>)
        requires
            old(self).in_flight <= MAX_IN_FLIGHT,
        ensures
            final(self).wf(),
            batch.deep_view() == old(self).buffered(),
            final(self).buffered() == Seq::<IncomingEventView>::empty(),
            final(self).in_flight() == old(self).in_flight(),
            final(self).is_closed() == old(self).is_closed(),
            final(self).spec_batch_size() == old(self).spec_batch_size(),
            final(self).spec_batch_timeout_ms() == old(self).spec_batch_timeout_ms(),
            final(self).spec_queue_url() == old(self).spec_queue_url(),
            final(self).spec_dlq_url() == old(self).spec_dlq_url(),
    {
        let mut batch: Vec<IncomingEvent> = Vec::new();
        std::mem::swap(&mut self.buffer, &mut batch);
        assert(self.buffer.deep_view() =~= Seq::<IncomingEventView>::empty());
        batch
    }

    /// Takes in an event from a consumer loop. When the buffer thereby reaches
    /// the batch size it is handed out whole for a flush, and the flush timer
    /// starts over so that what follows gets the full interval.
    pub fn offer(&mut self, event: IncomingEvent) -> (r: Option<FlushOrder>)
        requires
            old(self).wf(),
        ensures
            final(self).wf(),
            old(self).buffered().len() + 1 >= old(self).spec_batch_size() ==> {
                &&& r matches Some(order)
                &&& order.batch.deep_view() == old(self).buffered().push(event@)
                &&& order.batch@.len() <= old(self).max_batch_len()
                &&& order.reset_timer
                &&& final(self).buffered() == Seq::<IncomingEventView>::empty()
            },
            old(self).buffered().len() + 1 < old(self).spec_batch_size() ==> {
                &&& r is None
                &&& final(self).buffered() == old(self).buffered().push(event@)
            },
            final(self).in_flight() == old(self).in_flight(),
            final(self).is_closed() == old(self).is_closed(),
            final(self).spec_batch_size() == old(self).spec_batch_size(),
            final(self).spec_batch_timeout_ms() == old(self).spec_batch_timeout_ms(),
            final(self).spec_queue_url() == old(self).spec_queue_url(),
            final(self).spec_dlq_url() == old(self).spec_dlq_url(),
    {
        self.buffer.push(event);
        assert(self.buffer.deep_view() =~= old(self).buffer.deep_view().push(event@));
        if self.buffer.len() >= self.batch_size {
            let batch = self.take_buffer();
            Some(FlushOrder { batch, reset_timer: true })
        } else {
            None
        }
    }

    /// The flush timer fired: whatever is buffered is handed out for a flush.
    /// An empty buffer is left alone.
    pub fn tick(&mut self) -> (r: Option<FlushOrder>)
        requires
            old(self).wf(),
        ensures
            final(self).wf(),
            old(self).buffered().len() > 0 ==> {
                &&& r matches Some(order)
                &&& order.batch.deep_view() == old(self).buffered()
                &&& order.batch@.len() < old(self).max_batch_len()
                &&& !order.reset_timer
            },
            old(self).buffered().len() == 0 ==> r is None,
            final(self).buffered() == Seq::<IncomingEventView>::empty(),
            final(self).in_flight() == old(self).in_flight(),
            final(self).is_closed() == old(self).is_closed(),
            final(self).spec_batch_size() == old(self).spec_batch_size(),
            final(self).spec_batch_timeout_ms() == old(self).spec_batch_timeout_ms(),
            final(self).spec_queue_url() == old(self).spec_queue_url(),
            final(self).spec_dlq_url() == old(self).spec_dlq_url(),
    {
        if self.buffer.len() > 0 {
            let batch = self.take_buffer();
            Some(FlushOrder { batch, reset_timer: false })
        } else {
            assert(self.buffer.deep_view() =~= Seq::<IncomingEventView>::empty());
            None
        }
    }

    /// The source of events closed: what is left in the buffer is handed out
    /// for a last flush.
    pub fn close(&mut self) -> (r: Option<FlushOrder>)
        requires
            old(self).wf(),
        ensures
            final(self).wf(),
            old(self).buffered().len() > 0 ==> {
                &&& r matches Some(order)
                &&& order.batch.deep_view() == old(self).buffered()
                &&& order.batch@.len() < old(self).max_batch_len()
                &&& !order.reset_timer
            },
            old(self).buffered().len() == 0 ==> r is None,
            final(self).buffered() == Seq::<IncomingEventView>::empty(),
            final(self).is_closed(),
            final(self).in_flight() == old(self).in_flight(),
            final(self).spec_batch_size() == old(self).spec_batch_size(),
            final(self).spec_batch_timeout_ms() == old(self).spec_batch_timeout_ms(),
            final(self).spec_queue_url() == old(self).spec_queue_url(),
            final(self).spec_dlq_url() == old(self).spec_dlq_url(),
    {
        self.closed = true;
        if self.buffer.len() > 0 {
            let batch = self.take_buffer();
            Some(FlushOrder { batch, reset_timer: false })
        } else {
            assert(self.buffer.deep_view() =~= Seq::<IncomingEventView>::empty());
            None
        }
    }

    /// Asks for leave to start a flush. Leave is given while fewer than
    /// [`MAX_IN_FLIGHT`] flushes are under way; otherwise the caller waits for
    /// one to finish and asks again.
    pub fn try_begin_flush(&mut self) -> (granted: bool)
        requires
            old(self).wf(),
        ensures
            final(self).wf(),
            granted == (old(self).in_flight() < MAX_IN_FLIGHT),
            final(self).in_flight() == old(self).in_flight() + (if granted {
                1nat
            } else {
                0nat
            }),
            final(self).in_flight() <= MAX_IN_FLIGHT,
            final(self).buffered() == old(self).buffered(),
            final(self).is_closed() == old(self).is_closed(),
            final(self).spec_batch_size() == old(self).spec_batch_size(),
            final(self).spec_batch_timeout_ms() == old(self).spec_batch_timeout_ms(),
            final(self).spec_queue_url() == old(self).spec_queue_url(),
            final(self).spec_dlq_url() == old(self).spec_dlq_url(),
    {
        if self.in_flight < MAX_IN_FLIGHT {
            self.in_flight = self.in_flight + 1;
            true
        } else {
            false
        }
    }

    /// A flush ended, whatever its outcome: its place is free again.
    pub fn finish_flush(&mut self)
        requires
            old(self).wf(),
        ensures
            final(self).wf(),
            final(self).in_flight() == (if old(self).in_flight() > 0 {
                (old(self).in_flight() - 1) as nat
            } else {
                0nat
            }),
            final(self).buffered() == old(self).buffered(),
            final(self).is_closed() == old(self).is_closed(),
            final(self).spec_batch_size() == old(self).spec_batch_size(),
            final(self).spec_batch_timeout_ms() == old(self).spec_batch_timeout_ms(),
            final(self).spec_queue_url() == old(self).spec_queue_url(),
            final(self).spec_dlq_url() == old(self).spec_dlq_url(),
    {
        if self.in_flight > 0 {
            self.in_flight = self.in_flight - 1;
        }
    }

    /// Whether the batcher may return: only once the source has closed, the
    /// buffer is drained and no flush is under way any more.
    pub fn is_finished(&self) -> (r: bool)
        ensures
            r == self.finished(),
            r ==> self.in_flight() == 0,
    {
        self.closed && self.buffer.len() == 0 && self.in_flight == 0
    }
}

} // verus!
