//! The broadcast handle shared by the sampler and every connection.
//!
//! The channel itself is tokio's broadcast channel. It is shared between
//! threads, so nothing here claims what a receive will produce: the functions
//! of this module say how each possible outcome is read.
//!
//! The channel retains the latest `CAPACITY` events. A subscriber that falls
//! further behind is told how many events it skipped and then goes on with
//! the oldest event still retained; the publisher never waits for it.

use vstd::prelude::*;
use crate::event::Event;
use crate::handler::Received;
use tokio::sync::broadcast::error::RecvError;
use tokio::sync::broadcast::error::TryRecvError;
use tokio::sync::broadcast::Receiver;
use tokio::sync::broadcast::Sender;

verus! {

/// The publishing half of tokio's broadcast channel, carried as an opaque value.
#[verifier::external_type_specification]
#[verifier::external_body]
#[verifier::reject_recursive_types(T)]
pub struct ExSender<T>(Sender<T>);

/// The receiving half of tokio's broadcast channel, carried as an opaque value.
#[verifier::external_type_specification]
#[verifier::external_body]
#[verifier::reject_recursive_types(T)]
pub struct ExReceiver<T>(Receiver<T>);

/// tokio's error of a waiting receive: the channel ended, or the receiver lagged.
#[verifier::external_type_specification]
pub struct ExRecvError(RecvError);

/// tokio's error of a receive that does not wait: nothing pending, the
/// channel ended, or the receiver lagged.
#[verifier::external_type_specification]
pub struct ExTryRecvError(TryRecvError);

/// The number of events that the channel retains for a slow subscriber.
pub const CAPACITY: usize = 1;

/// Calls `tokio::sync::broadcast::channel` and keeps the publishing half;
/// the receiving half that comes with it is released at once.
///
/// tokio panics on a capacity of zero or above `usize::MAX / 2`, which the
/// precondition leaves out. Nothing is claimed of the channel that comes back.
#[verifier::external_body]
fn open_channel(capacity: usize) -> (tx: Sender<Event>)
    requires
        0 < capacity <= usize::MAX / 2,
{
    tokio::sync::broadcast::channel::<Event>(capacity).0
}

/// Calls `Sender::send`.
///
/// tokio returns `Ok` with the number of receivers subscribed at that moment,
/// which is then at least one, and returns the value itself inside the error
/// when there is no receiver. The call does not wait.
#[verifier::external_body]
fn send(tx: &Sender<Event>, event: Event) -> (sent: Result<usize, Event>)
    ensures
        sent matches Ok(n) ==> n >= 1,
        sent matches Err(back) ==> back == event,
{
    match tx.send(event) {
        Ok(n) => Ok(n),
        Err(unsent) => Err(unsent.0),
    }
}

/// Calls `Sender::subscribe`. Nothing is claimed of the receiver: what it
/// will see depends on what is published after this call.
///
/// tokio panics once `usize::MAX >> 2` receivers are alive on one channel;
/// that count is the channel's own and no precondition here can speak of it.
#[verifier::external_body]
fn subscribe(tx: &Sender<Event>) -> (rx: Receiver<Event>) {
    tx.subscribe()
}

/// `Sender::clone` hands out another handle to the same channel. Nothing is
/// claimed of the handle.
pub assume_specification<T>[ <Sender<T> as Clone>::clone ](tx: &Sender<T>) -> Sender<T>;

/// Calls `Receiver::try_recv`.
///
/// Which outcome comes depends on what other threads have published, so
/// only this is claimed: tokio reports a lag only when at least one event
/// was skipped.
#[verifier::external_body]
fn try_recv(rx: &mut Receiver<Event>) -> (outcome: Result<Event, TryRecvError>)
    ensures
        outcome matches Err(TryRecvError::Lagged(skipped)) ==> skipped >= 1,
{
    rx.try_recv()
}

/// What became of a published event.
#[derive(Debug, Clone, PartialEq, Eq)]
pub enum Published {
    /// The event was queued for this many subscribers.
    Reached(usize),
    /// Nobody was subscribed; the event is handed back and otherwise discarded.
    Unheard(Event),
}

impl Published {
    /// How `sent`, the outcome of a send, reads.
    pub open spec fn of(sent: Result<usize, Event>) -> Published {
        match sent {
            Ok(n) => Published::Reached(n),
            Err(event) => Published::Unheard(event),
        }
    }

    /// The number of subscribers that `self` stands for.
    pub open spec fn count(self) -> nat {
        match self {
            Published::Reached(n) => n as nat,
            Published::Unheard(_) => 0,
        }
    }

    /// Reads the outcome of a send. Neither outcome is a failure.
    pub fn from_sent(sent: Result<usize, Event>) -> (published: Published)
        ensures
            published == Published::of(sent),
    {
        match sent {
            Ok(n) => Published::Reached(n),
            Err(event) => Published::Unheard(event),
        }
    }

    /// The number of subscribers the event was queued for; zero when nobody
    /// was subscribed.
    pub fn reached(&self) -> (n: usize)
        ensures
            n == self.count(),
    {
        match self {
            Published::Reached(n) => *n,
            Published::Unheard(_) => 0,
        }
    }
}

/// How the outcome of a waiting receive reads for a connection.
pub open spec fn received_of(outcome: Result<Event, RecvError>) -> Received {
    match outcome {
        Ok(event) => Received::Event(event),
        Err(RecvError::Lagged(skipped)) => Received::Lagged(skipped),
        Err(RecvError::Closed) => Received::Ended,
    }
}

/// How the outcome of a receive that does not wait reads for a connection:
/// `None` when nothing is pending.
pub open spec fn polled_of(outcome: Result<Event, TryRecvError>) -> Option<Received> {
    match outcome {
        Ok(event) => Some(Received::Event(event)),
        Err(TryRecvError::Empty) => None,
        Err(TryRecvError::Lagged(skipped)) => Some(Received::Lagged(skipped)),
        Err(TryRecvError::Closed) => Some(Received::Ended),
    }
}

/// Reads the outcome of waiting on a subscription.
pub fn received_from(outcome: Result<Event, RecvError>) -> (received: Received)
    ensures
        received == received_of(outcome),
{
    match outcome {
        Ok(event) => Received::Event(event),
        Err(RecvError::Lagged(skipped)) => Received::Lagged(skipped),
        Err(RecvError::Closed) => Received::Ended,
    }
}

/// Reads the outcome of looking at a subscription without waiting.
pub fn polled_from(outcome: Result<Event, TryRecvError>) -> (polled: Option<Received>)
    ensures
        polled == polled_of(outcome),
{
    match outcome {
        Ok(event) => Some(Received::Event(event)),
        Err(TryRecvError::Empty) => None,
        Err(TryRecvError::Lagged(skipped)) => Some(Received::Lagged(skipped)),
        Err(TryRecvError::Closed) => Some(Received::Ended),
    }
}

/// Takes what is pending on `rx` without waiting: `None` when nothing is.
pub fn poll(rx: &mut Receiver<Event>) -> (polled: Option<Received>)
    ensures
        polled matches Some(Received::Lagged(skipped)) ==> skipped >= 1,
{
    let outcome = try_recv(rx);
    polled_from(outcome)
}

/// The handle that makes the channel reachable from the sampler and from
/// every accepted connection.
#[derive(Clone)]
pub struct AppState {
    tx: Sender<Event>,
}

impl AppState {
    /// Opens the channel. Nobody is subscribed yet.
    pub fn new() -> (state: AppState) {
        AppState { tx: open_channel(CAPACITY) }
    }

    /// Publishes `event` to whoever is subscribed right now.
    ///
    /// Publishing never fails and never waits. With nobody subscribed the
    /// event comes back untouched, and the caller simply drops it.
    pub fn publish(&self, event: Event) -> (published: Published)
        ensures
            published matches Published::Reached(n) ==> n >= 1,
            published matches Published::Unheard(back) ==> back == event,
    {
        Published::from_sent(send(&self.tx, event))
    }

    /// A new subscription, which sees what is published from now on.
    pub fn subscribe(&self) -> (rx: Receiver<Event>) {
        subscribe(&self.tx)
    }
}

} // verus!
