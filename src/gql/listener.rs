use vstd::prelude::*;

use crate::gql::subscriptions::CreateReviewSubscription;
use crate::gql::Review;

verus! {

/// Seconds to wait after a lost or refused connection before connecting
/// again.
pub const BACKOFF_SECS: u64 = 60;

/// One message of the subscription: an event, errors, or both.
#[derive(Debug)]
pub struct SubscriptionMessage {
    pub data: Option<CreateReviewSubscription>,
    pub errors: Vec<String>,
}

/// What the listener waits for.
#[derive(Clone, Copy, Debug, PartialEq, Eq, Structural)]
pub enum ListenerPhase {
    /// Opening the connection, the protocol's handshake and the subscription.
    Connecting,
    /// Reading the next message.
    Reading,
    /// Handing a message on.
    Handling,
    /// Sleeping before it connects again.
    Waiting,
}

/// What happened since the listener's last action.
#[derive(Debug)]
pub enum ListenerEvent {
    Subscribed,
    ConnectFailed { error: String },
    Received { message: SubscriptionMessage },
    ReadFailed { error: String },
    StreamEnded,
    /// The last message was handed on, or logged and skipped.
    Handled,
    /// The channel that reviews are handed to is closed.
    ForwardFailed { error: String },
    BackoffElapsed,
}

/// What the listener does next.
#[derive(Debug)]
pub enum ListenerAction {
    /// Open the connection, perform the handshake and subscribe.
    Connect,
    ReadNext,
    /// Hand the review on; this waits while the channel is full.
    Forward { review: Review },
    /// Log the message's errors, or that it held no review, and go on.
    Skip { errors: Vec<String> },
    /// Log why the stream was lost (if it failed rather than ended), then
    /// sleep for `secs` seconds.
    Backoff { reason: Option<String>, secs: u64 },
}

/// Whether `event` can follow the action taken in `phase`.
pub open spec fn expects(phase: ListenerPhase, event: ListenerEvent) -> bool {
    match phase {
        ListenerPhase::Connecting => event is Subscribed || event is ConnectFailed,
        ListenerPhase::Reading => event is Received || event is ReadFailed || event is StreamEnded,
        ListenerPhase::Handling => event is Handled || event is ForwardFailed,
        ListenerPhase::Waiting => event is BackoffElapsed,
    }
}

/// The listener's decisions: the phase and the action that follow an event.
pub open spec fn listener_step(phase: ListenerPhase, event: ListenerEvent) -> (
    ListenerPhase,
    ListenerAction,
) {
    match event {
        ListenerEvent::Subscribed => (ListenerPhase::Reading, ListenerAction::ReadNext),
        ListenerEvent::ConnectFailed { error } => (
            ListenerPhase::Waiting,
            ListenerAction::Backoff { reason: Some(error), secs: BACKOFF_SECS },
        ),
        ListenerEvent::Received { message } => match message.data {
            Some(CreateReviewSubscription { review_created: Some(review) }) => (
                ListenerPhase::Handling,
                ListenerAction::Forward { review },
            ),
            _ => (ListenerPhase::Handling, ListenerAction::Skip { errors: message.errors }),
        },
        ListenerEvent::ReadFailed { error } => (
            ListenerPhase::Waiting,
            ListenerAction::Backoff { reason: Some(error), secs: BACKOFF_SECS },
        ),
        ListenerEvent::StreamEnded => (
            ListenerPhase::Waiting,
            ListenerAction::Backoff { reason: None, secs: BACKOFF_SECS },
        ),
        ListenerEvent::Handled => (ListenerPhase::Reading, ListenerAction::ReadNext),
        ListenerEvent::ForwardFailed { error } => (
            ListenerPhase::Waiting,
            ListenerAction::Backoff { reason: Some(error), secs: BACKOFF_SECS },
        ),
        ListenerEvent::BackoffElapsed => (ListenerPhase::Connecting, ListenerAction::Connect),
    }
}

/// The decisions of the subscription listener, which runs for as long as the
/// process does: connect and subscribe, read and hand on each review in
/// order, and after any loss of the stream wait and start over.
#[derive(Debug)]
pub struct ListenerMachine {
    pub phase: ListenerPhase,
}

impl ListenerMachine {
    /// A listener about to connect, and its first action.
    pub fn start() -> (r: (ListenerMachine, ListenerAction))
        ensures
            r.0.phase == ListenerPhase::Connecting,
            r.1 is Connect,
    {
        (ListenerMachine { phase: ListenerPhase::Connecting }, ListenerAction::Connect)
    }

    /// The action that follows `event`.
    pub fn on_event(&mut self, event: ListenerEvent) -> (r: ListenerAction)
        requires
            expects(old(self).phase, event),
        ensures
            (final(self).phase, r) == listener_step(old(self).phase, event),
    {
        let (phase, action) = match event {
            ListenerEvent::Subscribed => (ListenerPhase::Reading, ListenerAction::ReadNext),
            ListenerEvent::ConnectFailed { error } => (
                ListenerPhase::Waiting,
                ListenerAction::Backoff { reason: Some(error), secs: BACKOFF_SECS },
            ),
            ListenerEvent::Received { message } => {
                let SubscriptionMessage { data, errors } = message;
                match data {
                    Some(CreateReviewSubscription { review_created: Some(review) }) => (
                        ListenerPhase::Handling,
                        ListenerAction::Forward { review },
                    ),
                    _ => (ListenerPhase::Handling, ListenerAction::Skip { errors }),
                }
            },
            ListenerEvent::ReadFailed { error } => (
                ListenerPhase::Waiting,
                ListenerAction::Backoff { reason: Some(error), secs: BACKOFF_SECS },
            ),
            ListenerEvent::StreamEnded => (
                ListenerPhase::Waiting,
                ListenerAction::Backoff { reason: None, secs: BACKOFF_SECS },
            ),
            ListenerEvent::Handled => (ListenerPhase::Reading, ListenerAction::ReadNext),
            ListenerEvent::ForwardFailed { error } => (
                ListenerPhase::Waiting,
                ListenerAction::Backoff { reason: Some(error), secs: BACKOFF_SECS },
            ),
            ListenerEvent::BackoffElapsed => (ListenerPhase::Connecting, ListenerAction::Connect),
        };
        self.phase = phase;
        action
    }
}

/// A read that fails mid-stream is logged, followed by exactly one wait of
/// the fixed backoff, and then by exactly one new connection with its
/// handshake and subscription.
pub proof fn lemma_read_failure_reconnects(error: String)
    ensures
        listener_step(ListenerPhase::Reading, ListenerEvent::ReadFailed { error }) == (
            ListenerPhase::Waiting,
            ListenerAction::Backoff { reason: Some(error), secs: BACKOFF_SECS },
        ),
        listener_step(ListenerPhase::Waiting, ListenerEvent::BackoffElapsed) == (
            ListenerPhase::Connecting,
            ListenerAction::Connect,
        ),
{
}

/// Every message that carries a review hands on exactly that review; every
/// other message is skipped and the stream read on.
pub proof fn lemma_message_handling(message: SubscriptionMessage)
    ensures
        listener_step(ListenerPhase::Reading, ListenerEvent::Received { message }).0
            == ListenerPhase::Handling,
        listener_step(ListenerPhase::Handling, ListenerEvent::Handled) == (
            ListenerPhase::Reading,
            ListenerAction::ReadNext,
        ),
        (message.data matches Some(d) && d.review_created is Some) ==> listener_step(
            ListenerPhase::Reading,
            ListenerEvent::Received { message },
        ).1 == (ListenerAction::Forward { review: message.data->Some_0.review_created->Some_0 }),
{
}

} // verus!
