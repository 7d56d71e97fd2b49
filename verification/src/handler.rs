//! The per-connection delivery loop as a state machine.
//!
//! The caller owns the socket and the subscription. It performs the action
//! that the handler asks for and reports what happened; the handler decides
//! what comes next.

use vstd::prelude::*;
use crate::event::readings_are_finite;
use crate::event::Event;

verus! {

/// Where a connection stands.
#[derive(Debug, Clone, Copy, PartialEq, Eq, Structural)]
pub enum Phase {
    /// Snapshots are being forwarded to the client.
    Streaming,
    /// The connection is over; nothing more is received or written.
    Closed,
}

/// What waiting on the subscription produced.
#[derive(Debug, Clone, PartialEq, Eq)]
pub enum Received {
    /// The next published event.
    Event(Event),
    /// The subscriber fell behind and this many events were skipped.
    Lagged(u64),
    /// The publishing side is gone for good.
    Ended,
}

/// What became of an event that was handed over for delivery.
#[derive(Debug, Clone, Copy, PartialEq, Eq, Structural)]
pub enum Delivery {
    /// The message was written to the client.
    Sent,
    /// The event could not be turned into text.
    NotSerialized,
    /// The write failed or the client went away.
    WriteFailed,
}

/// What the caller does next.
#[derive(Debug, Clone, PartialEq, Eq)]
pub enum Action {
    /// Wait on the subscription for the next event.
    Receive,
    /// Serialize this event and write it to the client.
    Deliver(Event),
    /// Leave the loop and release the subscription.
    Stop,
}

/// The phase and the action that follow a receive.
pub open spec fn after_received(phase: Phase, received: Received) -> (Phase, Action) {
    match phase {
        Phase::Closed => (Phase::Closed, Action::Stop),
        Phase::Streaming => match received {
            Received::Event(event) => (Phase::Streaming, Action::Deliver(event)),
            Received::Lagged(_) => (Phase::Streaming, Action::Receive),
            Received::Ended => (Phase::Closed, Action::Stop),
        },
    }
}

/// The phase and the action that follow a delivery attempt.
pub open spec fn after_delivery(phase: Phase, delivery: Delivery) -> (Phase, Action) {
    if phase == Phase::Streaming && delivery == Delivery::Sent {
        (Phase::Streaming, Action::Receive)
    } else {
        (Phase::Closed, Action::Stop)
    }
}

/// The delivery loop of one client connection.
#[derive(Debug, Clone, Copy, PartialEq, Eq, Structural)]
pub struct ConnectionHandler {
    pub phase: Phase,
}

impl ConnectionHandler {
    /// The handler of a freshly accepted connection. It streams, and its
    /// first action is to wait on its subscription.
    pub fn accept() -> (start: (ConnectionHandler, Action))
        ensures
            start.0.phase == Phase::Streaming,
            start.1 == Action::Receive,
    {
        (ConnectionHandler { phase: Phase::Streaming }, Action::Receive)
    }

    /// The phase the connection is in.
    pub fn phase(&self) -> (phase: Phase)
        ensures
            phase == self.phase,
    {
        self.phase
    }

    /// Whether the connection is over.
    pub fn is_closed(&self) -> (closed: bool)
        ensures
            closed == (self.phase == Phase::Closed),
    {
        match self.phase {
            Phase::Closed => true,
            Phase::Streaming => false,
        }
    }

    /// Takes what the subscription produced and says what to do with it.
    ///
    /// An event is handed on for delivery, a lag signal is answered by
    /// waiting again, and the end of the stream closes the connection.
    pub fn on_received(&mut self, received: Received) -> (action: Action)
        ensures
            (final(self).phase, action) == after_received(old(self).phase, received),
    {
        match self.phase {
            Phase::Closed => Action::Stop,
            Phase::Streaming => match received {
                Received::Event(event) => Action::Deliver(event),
                Received::Lagged(_) => Action::Receive,
                Received::Ended => {
                    self.phase = Phase::Closed;
                    Action::Stop
                },
            },
        }
    }

    /// Takes the outcome of a delivery attempt and says what to do next.
    ///
    /// After a successful write the handler waits for the next event; any
    /// failure closes the connection, with no second attempt.
    pub fn on_delivery(&mut self, delivery: Delivery) -> (action: Action)
        ensures
            (final(self).phase, action) == after_delivery(old(self).phase, delivery),
    {
        match (self.phase, delivery) {
            (Phase::Streaming, Delivery::Sent) => Action::Receive,
            _ => {
                self.phase = Phase::Closed;
                Action::Stop
            },
        }
    }
}

/// The events that a handler in `phase` hands on for delivery while the
/// subscription produces `inputs` in turn and every write succeeds.
pub open spec fn forwarded(phase: Phase, inputs: Seq<Received>) -> Seq<Event>
    decreases inputs.len(),
{
    if inputs.len() == 0 {
        Seq::empty()
    } else {
        let (reached, action) = after_received(phase, inputs[0]);
        match action {
            Action::Deliver(event) => seq![event] + forwarded(
                after_delivery(reached, Delivery::Sent).0,
                inputs.skip(1),
            ),
            _ => forwarded(reached, inputs.skip(1)),
        }
    }
}

/// The events among `inputs` that come before the stream ends, in order.
pub open spec fn events_before_end(inputs: Seq<Received>) -> Seq<Event>
    decreases inputs.len(),
{
    if inputs.len() == 0 {
        Seq::empty()
    } else {
        match inputs[0] {
            Received::Event(event) => seq![event] + events_before_end(inputs.skip(1)),
            Received::Lagged(_) => events_before_end(inputs.skip(1)),
            Received::Ended => Seq::empty(),
        }
    }
}

/// `inputs` with the lag signals left out.
pub open spec fn without_lag(inputs: Seq<Received>) -> Seq<Received>
    decreases inputs.len(),
{
    if inputs.len() == 0 {
        Seq::empty()
    } else {
        match inputs[0] {
            Received::Lagged(_) => without_lag(inputs.skip(1)),
            other => seq![other] + without_lag(inputs.skip(1)),
        }
    }
}

/// A closed handler hands nothing on, whatever arrives.
pub proof fn closed_forwards_nothing(inputs: Seq<Received>)
    ensures
        forwarded(Phase::Closed, inputs) == Seq::<Event>::empty(),
    decreases inputs.len(),
{
    if inputs.len() > 0 {
        closed_forwards_nothing(inputs.skip(1));
    }
}

/// A streaming handler hands on every event that arrives before the stream
/// ends, each one unchanged and in the order of arrival, and nothing else.
pub proof fn forwards_every_event_in_order(inputs: Seq<Received>)
    ensures
        forwarded(Phase::Streaming, inputs) == events_before_end(inputs),
    decreases inputs.len(),
{
    if inputs.len() > 0 {
        match inputs[0] {
            Received::Ended => {
                closed_forwards_nothing(inputs.skip(1));
            },
            _ => {
                forwards_every_event_in_order(inputs.skip(1));
            },
        }
    }
}

/// A lag signal costs nothing of what follows it: the handler goes on with
/// the next input as if the signal had not come.
pub proof fn resumes_after_lag(skipped: u64, rest: Seq<Received>)
    ensures
        forwarded(Phase::Streaming, seq![Received::Lagged(skipped)] + rest) == forwarded(
            Phase::Streaming,
            rest,
        ),
{
    let inputs = seq![Received::Lagged(skipped)] + rest;
    assert(inputs.skip(1) =~= rest);
}

/// Leaving the lag signals out of what arrives does not change what is handed on.
pub proof fn lag_signals_carry_no_events(inputs: Seq<Received>)
    ensures
        events_before_end(without_lag(inputs)) == events_before_end(inputs),
    decreases inputs.len(),
{
    if inputs.len() > 0 {
        lag_signals_carry_no_events(inputs.skip(1));
        let rest = without_lag(inputs.skip(1));
        match inputs[0] {
            Received::Lagged(_) => {},
            other => {
                assert((seq![other] + rest).skip(1) =~= rest);
            },
        }
    }
}

/// Two connections whose subscriptions produce the same inputs, lag signals
/// aside, hand on the same events in the same order.
pub proof fn same_stream_same_deliveries(first: Seq<Received>, second: Seq<Received>)
    requires
        without_lag(first) == without_lag(second),
    ensures
        forwarded(Phase::Streaming, first) == forwarded(Phase::Streaming, second),
{
    forwards_every_event_in_order(first);
    forwards_every_event_in_order(second);
    lag_signals_carry_no_events(first);
    lag_signals_carry_no_events(second);
}

/// Every event among `inputs` carries finite readings only.
pub open spec fn arrivals_are_finite(inputs: Seq<Received>) -> bool {
    forall|i: int|
        0 <= i < inputs.len() ==> (#[trigger] inputs[i] matches Received::Event(event)
            ==> readings_are_finite(event@))
}

/// Every event of `events` carries finite readings only.
pub open spec fn events_are_finite(events: Seq<Event>) -> bool {
    forall|j: int| 0 <= j < events.len() ==> readings_are_finite((#[trigger] events[j])@)
}

/// The events that arrive before the stream ends are finite when all
/// arrivals are.
proof fn finite_arrivals_finite_events(inputs: Seq<Received>)
    requires
        arrivals_are_finite(inputs),
    ensures
        events_are_finite(events_before_end(inputs)),
    decreases inputs.len(),
{
    if inputs.len() > 0 {
        let rest = inputs.skip(1);
        assert forall|i: int| 0 <= i < rest.len() implies (#[trigger] rest[i] matches Received::Event(
            event,
        ) ==> readings_are_finite(event@)) by {
            assert(rest[i] == inputs[i + 1]);
        }
        finite_arrivals_finite_events(rest);
        match inputs[0] {
            Received::Event(event) => {
                let tail = events_before_end(rest);
                let all = seq![event] + tail;
                assert forall|j: int| 0 <= j < all.len() implies readings_are_finite(
                    (#[trigger] all[j])@,
                ) by {
                    if j > 0 {
                        assert(all[j] == tail[j - 1]);
                    }
                }
            },
            _ => {},
        }
    }
}

/// A handler adds nothing of its own to what it hands on: when every event
/// that arrives carries finite readings only, so does every event that is
/// handed on for delivery.
pub proof fn finite_in_finite_out(inputs: Seq<Received>)
    requires
        arrivals_are_finite(inputs),
    ensures
        events_are_finite(forwarded(Phase::Streaming, inputs)),
{
    forwards_every_event_in_order(inputs);
    finite_arrivals_finite_events(inputs);
}

/// A closed connection stays closed and only ever asks to stop.
pub proof fn closed_is_terminal(received: Received, delivery: Delivery)
    ensures
        after_received(Phase::Closed, received) == (Phase::Closed, Action::Stop),
        after_delivery(Phase::Closed, delivery) == (Phase::Closed, Action::Stop),
{
}

/// A lag signal never closes a streaming connection: the handler waits again.
pub proof fn lag_keeps_streaming(skipped: u64)
    ensures
        after_received(Phase::Streaming, Received::Lagged(skipped)) == (
            Phase::Streaming,
            Action::Receive,
        ),
{
}

/// Every event that reaches a streaming connection is handed on unchanged.
pub proof fn event_is_forwarded(event: Event)
    ensures
        after_received(Phase::Streaming, Received::Event(event)) == (
            Phase::Streaming,
            Action::Deliver(event),
        ),
{
}

/// A connection closes only on the end of the stream or a failed delivery.
pub proof fn closes_only_on_failure(received: Received, delivery: Delivery)
    ensures
        after_received(Phase::Streaming, received).0 == Phase::Closed <==> received
            == Received::Ended,
        after_delivery(Phase::Streaming, delivery).0 == Phase::Closed <==> delivery
            != Delivery::Sent,
{
}

} // verus!
