//! The decisions of a consumer loop: when to poll, what to do with each
//! message, and when to stop.

use crate::event::{EnrichedEvent, EnrichedEventView};
use crate::sqs::{
    dlq_message, DlqMessage, DlqMessageView, QueueMessage, ReceiveRequest, LONG_POLL_WAIT_SECS,
};
use crate::text::concat2;
use vstd::prelude::*;
use vstd::string::*;

verus! {

/// Milliseconds a loop rests after a failed receive before it polls again.
pub const RECEIVE_RETRY_DELAY_MS: u64 = 1000;

/// What stands before the parser's complaint in the reason of a poison
/// message.
pub const POISON_REASON_PREFIX: &'static str = "deserialisation error: ";

/// What a loop reports when the batcher is gone.
pub const CHANNEL_CLOSED: &'static str = "batcher channel closed";

/// A message that parsed as an event, with the receipt handle that
/// acknowledges it once the batch is stored and the raw body for the
/// dead-letter queue should storing fail.
#[derive(Debug)]
pub struct IncomingEvent {
    pub event: EnrichedEvent,
    pub receipt_handle: String,
    pub raw_body: String,
}

/// The mathematical value of an [`IncomingEvent`].
pub ghost struct IncomingEventView {
    pub event: EnrichedEventView,
    pub receipt_handle: Seq<char>,
    pub raw_body: Seq<char>,
}

impl View for IncomingEvent {
    type V = IncomingEventView;

    open spec fn view(&self) -> IncomingEventView {
        IncomingEventView {
            event: self.event@,
            receipt_handle: self.receipt_handle@,
            raw_body: self.raw_body@,
        }
    }
}

impl DeepView for IncomingEvent {
    type V = IncomingEventView;

    open spec fn deep_view(&self) -> IncomingEventView {
        self@
    }
}

impl Clone for IncomingEvent {
    fn clone(&self) -> (r: Self)
        ensures
            r@ == self@,
    {
        IncomingEvent {
            event: self.event.clone(),
            receipt_handle: self.receipt_handle.clone(),
            raw_body: self.raw_body.clone(),
        }
    }
}

/// What a loop does with one message.
#[derive(Debug)]
pub enum MessageAction {
    /// The message lacks its body or its receipt handle: it is dropped.
    Skip,
    /// The message parsed: it goes to the batcher.
    Forward(IncomingEvent),
    /// The message did not parse: its body goes to the dead-letter queue,
    /// where one is configured, and the message is deleted from the source
    /// queue by its receipt handle.
    Poison { dead_letter: Option<DlqMessage>, receipt_handle: String },
}

/// The mathematical value of a [`MessageAction`].
pub ghost enum MessageActionView {
    Skip,
    Forward(IncomingEventView),
    Poison { dead_letter: Option<DlqMessageView>, receipt_handle: Seq<char> },
}

impl View for MessageAction {
    type V = MessageActionView;

    open spec fn view(&self) -> MessageActionView {
        match self {
            MessageAction::Skip => MessageActionView::Skip,
            MessageAction::Forward(e) => MessageActionView::Forward(e@),
            MessageAction::Poison { dead_letter, receipt_handle } => MessageActionView::Poison {
                dead_letter: dead_letter.deep_view(),
                receipt_handle: receipt_handle@,
            },
        }
    }
}

/// What a loop does after a receive call.
#[derive(Debug)]
pub enum ReceiveOutcome {
    /// The call failed: rest for the given milliseconds, then poll again.
    RetryAfter(u64),
    /// The call gave these messages, possibly none: handle each in order, then
    /// poll again.
    Handle(Vec<QueueMessage>),
}

/// The mathematical value of what parsing a body gave.
pub open spec fn parse_view(parsed: Result<EnrichedEvent, String>) -> Result<
    EnrichedEventView,
    Seq<char>,
> {
    match parsed {
        Ok(e) => Ok(e@),
        Err(detail) => Err(detail@),
    }
}

/// The dead-letter message for a body that did not parse.
pub open spec fn poison_letter(dlq_url: Option<Seq<char>>, body: Seq<char>, detail: Seq<char>)
    -> Option<DlqMessageView> {
    match dlq_url {
        Some(url) => Some(
            DlqMessageView {
                queue_url: url,
                body,
                error_reason: POISON_REASON_PREFIX@ + detail,
            },
        ),
        None => None,
    }
}

/// What is done with a message of the given parts whose body, where it has
/// one, parsed as `parsed`.
pub open spec fn message_action(
    dlq_url: Option<Seq<char>>,
    body: Option<Seq<char>>,
    receipt_handle: Option<Seq<char>>,
    parsed: Result<EnrichedEventView, Seq<char>>,
) -> MessageActionView {
    match (body, receipt_handle) {
        (Some(b), Some(rh)) => match parsed {
            Ok(event) => MessageActionView::Forward(
                IncomingEventView { event, receipt_handle: rh, raw_body: b },
            ),
            Err(detail) => MessageActionView::Poison {
                dead_letter: poison_letter(dlq_url, b, detail),
                receipt_handle: rh,
            },
        },
        _ => MessageActionView::Skip,
    }
}

/// One of the writer's consumer loops: where it polls, where it sends what it
/// cannot parse, and how many messages it asks for at once.
#[derive(Debug)]
pub struct ConsumerLoop {
    pub queue_url: String,
    pub dlq_url: Option<String>,
    pub receive_batch_size: i32,
}

impl ConsumerLoop {
    /// A loop over `queue_url` that asks for up to `receive_batch_size`
    /// messages per poll and sends poison messages to `dlq_url`.
    pub fn new(queue_url: String, dlq_url: Option<String>, receive_batch_size: i32) -> (r:
        ConsumerLoop)
        ensures
            r.queue_url == queue_url,
            r.dlq_url == dlq_url,
            r.receive_batch_size == receive_batch_size,
    {
        ConsumerLoop { queue_url, dlq_url, receive_batch_size }
    }

    /// The next step at the top of the loop: `None` once shutdown is
    /// signalled, else the long poll to make.
    pub fn next_poll(&self, shutdown: bool) -> (r: Option<ReceiveRequest>)
        ensures
            shutdown ==> r is None,
            !shutdown ==> r == Some(
                ReceiveRequest {
                    max_messages: self.receive_batch_size,
                    wait_seconds: LONG_POLL_WAIT_SECS,
                },
            ),
    {
        if shutdown {
            None
        } else {
            Some(
                ReceiveRequest {
                    max_messages: self.receive_batch_size,
                    wait_seconds: LONG_POLL_WAIT_SECS,
                },
            )
        }
    }

    /// What follows a receive call: a failed call is retried after one
    /// second, a successful one hands over its messages.
    pub fn after_receive(&self, received: Result<Vec<QueueMessage>, String>) -> (r: ReceiveOutcome)
        ensures
            received is Err ==> (r matches ReceiveOutcome::RetryAfter(ms) && ms
                == RECEIVE_RETRY_DELAY_MS),
            received matches Ok(messages) ==> (r matches ReceiveOutcome::Handle(m) && m
                == messages),
    {
        match received {
            Err(_) => ReceiveOutcome::RetryAfter(RECEIVE_RETRY_DELAY_MS),
            Ok(messages) => ReceiveOutcome::Handle(messages),
        }
    }

    /// Decides what is done with `message`. `parsed` is what parsing its body
    /// as an enriched event gave; it is not looked at where the body or the
    /// receipt handle is missing.
    pub fn on_message(&self, message: QueueMessage, parsed: Result<EnrichedEvent, String>) -> (r:
        MessageAction)
        ensures
            r@ == message_action(
                self.dlq_url.deep_view(),
                message.body.deep_view(),
                message.receipt_handle.deep_view(),
                parse_view(parsed),
            ),
    {
        let body = match message.body {
            Some(b) => b,
            None => {
                return MessageAction::Skip;
            },
        };
        let receipt_handle = match message.receipt_handle {
            Some(rh) => rh,
            None => {
                return MessageAction::Skip;
            },
        };
        match parsed {
            Ok(event) => MessageAction::Forward(
                IncomingEvent { event, receipt_handle, raw_body: body },
            ),
            Err(detail) => {
                let dead_letter = match &self.dlq_url {
                    Some(url) => {
                        let reason = concat2(POISON_REASON_PREFIX, detail.as_str());
                        Some(dlq_message(url.as_str(), body.as_str(), reason.as_str()))
                    },
                    None => None,
                };
                MessageAction::Poison { dead_letter, receipt_handle }
            },
        }
    }

    /// What follows an attempt to hand an event to the batcher: a closed
    /// channel ends the loop with an error.
    pub fn after_forward(&self, delivered: bool) -> (r: Result<(), String>)
        ensures
            delivered ==> r is Ok,
            !delivered ==> (r matches Err(e) && e@ == CHANNEL_CLOSED@),
    {
        if delivered {
            Ok(())
        } else {
            Err(String::from_str(CHANNEL_CLOSED))
        }
    }
}

} // verus!
