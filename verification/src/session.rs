//! One client connection as a state machine: the stage it is in, the event
//! that its driver reports, and the action that the driver owes next.
//!
//! The driver owns the sockets. It performs each action, waits for what the
//! new stage waits for, and reports that as the next event.

use vstd::prelude::*;
use crate::error::S5Error;
use crate::handlers::{
    connect_outcome, handle_connection, handle_handshake, handle_traffic, negotiate,
    parse_request,
};
use crate::wire::{method_selection, reply, reply_bytes, REP_HOST_UNREACHABLE, REP_SUCCEEDED};

verus! {

/// Where a connection stands.
#[derive(Clone, Copy, Debug, PartialEq, Eq, Structural)]
pub enum Stage {
    /// Waiting for the client's greeting.
    Greeting,
    /// Waiting for the client's request.
    Request,
    /// Waiting for the outcome of the connect to the destination.
    Connecting,
    /// Negotiation is over and the two streams are being relayed.
    Relaying,
    /// The connection is given up.
    Closed,
}

/// What the driver reports.
#[derive(Clone, Debug, PartialEq, Eq)]
pub enum Event {
    /// One read from the client brought these bytes; none at end of stream.
    Received(Vec<u8>),
    /// The connect to the destination succeeded.
    Connected,
    /// The connect to the destination failed, for whatever reason.
    ConnectFailed,
    /// A read from or a write to the client failed.
    IoFailed,
    /// The wait for the client or for the connect ran out.
    TimedOut,
}

/// An event, with its bytes by view.
pub enum EventView {
    Received(Seq<u8>),
    Connected,
    ConnectFailed,
    IoFailed,
    TimedOut,
}

impl View for Event {
    type V = EventView;

    open spec fn view(&self) -> EventView {
        match self {
            Event::Received(bytes) => EventView::Received(bytes@),
            Event::Connected => EventView::Connected,
            Event::ConnectFailed => EventView::ConnectFailed,
            Event::IoFailed => EventView::IoFailed,
            Event::TimedOut => EventView::TimedOut,
        }
    }
}

/// What the driver is to do next.
#[derive(Clone, Debug, PartialEq, Eq)]
pub enum Action {
    /// Write these bytes to the client, then read its next message.
    Send(Vec<u8>),
    /// Make one connect to this `host:port` target and report the outcome.
    Connect(String),
    /// Write these bytes to the client, then relay between the two streams.
    Relay(Vec<u8>),
    /// Write the reply to the client, if there is one, and close. The error
    /// says why.
    Close(Option<Vec<u8>>, S5Error),
    /// Nothing: negotiation ended before this event.
    Nothing,
}

/// An action, with its bytes and text by view.
pub enum ActionView {
    Send(Seq<u8>),
    Connect(Seq<char>),
    Relay(Seq<u8>),
    Close(Option<Seq<u8>>, S5Error),
    Nothing,
}

impl View for Action {
    type V = ActionView;

    open spec fn view(&self) -> ActionView {
        match self {
            Action::Send(bytes) => ActionView::Send(bytes@),
            Action::Connect(target) => ActionView::Connect(target@),
            Action::Relay(bytes) => ActionView::Relay(bytes@),
            Action::Close(Some(bytes), error) => ActionView::Close(Some(bytes@), *error),
            Action::Close(None, error) => ActionView::Close(None, *error),
            Action::Nothing => ActionView::Nothing,
        }
    }
}

impl ActionView {
    /// The bytes that this action writes to the client, if it writes any.
    pub open spec fn sent(self) -> Option<Seq<u8>> {
        match self {
            ActionView::Send(bytes) => Some(bytes),
            ActionView::Relay(bytes) => Some(bytes),
            ActionView::Close(bytes, _) => bytes,
            ActionView::Connect(_) => None,
            ActionView::Nothing => None,
        }
    }
}

impl Stage {
    /// Negotiation is over, one way or the other.
    pub open spec fn is_terminal(self) -> bool {
        self == Stage::Relaying || self == Stage::Closed
    }

    /// How many events a connection in this stage has behind it at least;
    /// the terminal stages share the highest rank.
    pub open spec fn rank(self) -> nat {
        match self {
            Stage::Greeting => 0,
            Stage::Request => 1,
            Stage::Connecting => 2,
            Stage::Relaying => 3,
            Stage::Closed => 3,
        }
    }

    /// Whether negotiation is over.
    pub fn terminal(&self) -> (res: bool)
        ensures
            res == self.is_terminal(),
    {
        match self {
            Stage::Relaying => true,
            Stage::Closed => true,
            _ => false,
        }
    }
}

/// Closing on `error`, with the reply that the protocol has for it.
pub open spec fn close_with(error: S5Error) -> (Stage, ActionView) {
    (Stage::Closed, ActionView::Close(error.spec_reply(), error))
}

/// The next stage and the action owed, for each stage and event.
///
/// A failed read or write and a timeout close the connection wherever they
/// come, without a reply; a connect that times out is answered as any failed
/// connect is, with the reply for an unreachable host. An event that the
/// stage does not wait for closes the connection as a protocol violation.
/// Once negotiation is over, every event is answered with nothing.
pub open spec fn spec_step(stage: Stage, event: EventView) -> (Stage, ActionView) {
    match stage {
        Stage::Greeting => match event {
            EventView::Received(bytes) => match negotiate(bytes) {
                Ok(selection) => (Stage::Request, ActionView::Send(selection)),
                Err(error) => close_with(error),
            },
            EventView::IoFailed => close_with(S5Error::IoFailure),
            EventView::TimedOut => close_with(S5Error::Timeout),
            _ => close_with(S5Error::ProtocolViolation),
        },
        Stage::Request => match event {
            EventView::Received(bytes) => match parse_request(bytes) {
                Ok(request) => (Stage::Connecting, ActionView::Connect(request.addr_string())),
                Err(error) => close_with(error),
            },
            EventView::IoFailed => close_with(S5Error::IoFailure),
            EventView::TimedOut => close_with(S5Error::Timeout),
            _ => close_with(S5Error::ProtocolViolation),
        },
        Stage::Connecting => match event {
            EventView::Connected => (Stage::Relaying, ActionView::Relay(reply(REP_SUCCEEDED))),
            EventView::ConnectFailed => close_with(S5Error::UpstreamUnreachable),
            EventView::TimedOut => (
                Stage::Closed,
                ActionView::Close(Some(reply(REP_HOST_UNREACHABLE)), S5Error::Timeout),
            ),
            EventView::IoFailed => close_with(S5Error::IoFailure),
            EventView::Received(_) => close_with(S5Error::ProtocolViolation),
        },
        Stage::Relaying => (Stage::Relaying, ActionView::Nothing),
        Stage::Closed => (Stage::Closed, ActionView::Nothing),
    }
}

/// The stage that a connection reaches from `stage` through `events`, in
/// their order.
pub open spec fn run(stage: Stage, events: Seq<EventView>) -> Stage
    decreases events.len(),
{
    if events.len() == 0 {
        stage
    } else {
        run(spec_step(stage, events[0]).0, events.drop_first())
    }
}

/// Closes the connection on `error`, with the reply owed for it.
fn close(error: S5Error) -> (res: (Stage, Action))
    ensures
        (res.0, res.1@) == close_with(error),
{
    (Stage::Closed, Action::Close(error.reply(), error))
}

/// Answers the outcome of the connect: relay behind the success reply, or
/// close behind the reply for an unreachable host.
fn connect_result(connected: bool) -> (res: (Stage, Action))
    ensures
        (res.0, res.1@) == match connect_outcome(connected) {
            Ok(bytes) => (Stage::Relaying, ActionView::Relay(bytes)),
            Err(error) => close_with(error),
        },
{
    match handle_traffic(connected) {
        Ok(bytes) => (Stage::Relaying, Action::Relay(bytes)),
        Err(error) => close(error),
    }
}

/// Advances a connection by one event.
pub fn step(stage: Stage, event: Event) -> (res: (Stage, Action))
    ensures
        (res.0, res.1@) == spec_step(stage, event@),
{
    match stage {
        Stage::Greeting => match event {
            Event::Received(bytes) => match handle_handshake(bytes.as_slice()) {
                Ok(selection) => (Stage::Request, Action::Send(selection)),
                Err(error) => close(error),
            },
            Event::IoFailed => close(S5Error::IoFailure),
            Event::TimedOut => close(S5Error::Timeout),
            _ => close(S5Error::ProtocolViolation),
        },
        Stage::Request => match event {
            Event::Received(bytes) => match handle_connection(bytes.as_slice()) {
                Ok(request) => (Stage::Connecting, Action::Connect(request.into_addr_string())),
                Err(error) => close(error),
            },
            Event::IoFailed => close(S5Error::IoFailure),
            Event::TimedOut => close(S5Error::Timeout),
            _ => close(S5Error::ProtocolViolation),
        },
        Stage::Connecting => match event {
            Event::Connected => connect_result(true),
            Event::ConnectFailed => connect_result(false),
            Event::TimedOut => (
                Stage::Closed,
                Action::Close(Some(reply_bytes(REP_HOST_UNREACHABLE)), S5Error::Timeout),
            ),
            Event::IoFailed => close(S5Error::IoFailure),
            Event::Received(_) => close(S5Error::ProtocolViolation),
        },
        Stage::Relaying => (Stage::Relaying, Action::Nothing),
        Stage::Closed => (Stage::Closed, Action::Nothing),
    }
}

/// Once negotiation is over, no event moves the connection or asks anything
/// of the driver.
pub proof fn terminal_stage_is_final(stage: Stage, event: EventView)
    requires
        stage.is_terminal(),
    ensures
        spec_step(stage, event) == (stage, ActionView::Nothing),
{
}

/// Every event moves a connection that is still negotiating forward: to the
/// next stage, or to its end. No stage is entered twice, so a client has one
/// attempt.
pub proof fn stage_advances(stage: Stage, event: EventView)
    requires
        !stage.is_terminal(),
    ensures
        spec_step(stage, event).0.rank() == stage.rank() + 1 || spec_step(stage, event).0
            == Stage::Closed,
        spec_step(stage, event).0.rank() > stage.rank(),
        spec_step(stage, event).1 != ActionView::Nothing,
{
}

/// The relay starts only from a connect that succeeded, behind the success
/// reply: no other stage and no other event lead to it.
pub proof fn relay_starts_only_after_connect(stage: Stage, event: EventView)
    requires
        stage != Stage::Relaying,
        spec_step(stage, event).0 == Stage::Relaying,
    ensures
        stage == Stage::Connecting,
        event == EventView::Connected,
        spec_step(stage, event).1 == ActionView::Relay(reply(REP_SUCCEEDED)),
{
}

/// A connect that failed closes the connection behind the reply for an
/// unreachable host, and whatever is reported afterwards, no relay starts.
pub proof fn failed_connect_never_relays(later: Seq<EventView>)
    ensures
        spec_step(Stage::Connecting, EventView::ConnectFailed) == (
            Stage::Closed,
            ActionView::Close(Some(reply(REP_HOST_UNREACHABLE)), S5Error::UpstreamUnreachable),
        ),
        run(Stage::Connecting, seq![EventView::ConnectFailed] + later) == Stage::Closed,
{
    let events = seq![EventView::ConnectFailed] + later;
    assert(events[0] == EventView::ConnectFailed);
    assert(events.drop_first() =~= later);
    closed_stays_closed(later);
}

/// A closed connection stays closed through every sequence of events.
pub proof fn closed_stays_closed(events: Seq<EventView>)
    ensures
        run(Stage::Closed, events) == Stage::Closed,
    decreases events.len(),
{
    if events.len() > 0 {
        closed_stays_closed(events.drop_first());
    }
}

/// A connection that is relaying stays so through every sequence of events.
pub proof fn relaying_stays_relaying(events: Seq<EventView>)
    ensures
        run(Stage::Relaying, events) == Stage::Relaying,
    decreases events.len(),
{
    if events.len() > 0 {
        relaying_stays_relaying(events.drop_first());
    }
}

/// A run from `stage` takes its first step and goes on from there.
proof fn lemma_run_first(stage: Stage, events: Seq<EventView>)
    ensures
        events.len() == 0 ==> run(stage, events) == stage,
        events.len() > 0 ==> run(stage, events) == run(
            spec_step(stage, events[0]).0,
            events.drop_first(),
        ),
{
}

/// A new connection comes to relay only through a full negotiation: a
/// greeting that is accepted, then a request that is accepted, then a
/// connect that succeeds, in this order and with nothing in between.
pub proof fn relay_needs_full_negotiation(events: Seq<EventView>)
    requires
        run(Stage::Greeting, events) == Stage::Relaying,
    ensures
        events.len() >= 3,
        events[0] is Received && negotiate(events[0]->Received_0).is_ok(),
        events[1] is Received && parse_request(events[1]->Received_0).is_ok(),
        events[2] == EventView::Connected,
{
    lemma_run_first(Stage::Greeting, events);
    let first = spec_step(Stage::Greeting, events[0]).0;
    let rest1 = events.drop_first();
    closed_stays_closed(rest1);
    assert(first == Stage::Request);
    lemma_run_first(Stage::Request, rest1);
    let second = spec_step(Stage::Request, rest1[0]).0;
    let rest2 = rest1.drop_first();
    closed_stays_closed(rest2);
    assert(second == Stage::Connecting);
    lemma_run_first(Stage::Connecting, rest2);
    closed_stays_closed(rest2.drop_first());
    assert(rest1[0] == events[1]);
    assert(rest2[0] == events[2]);
}

/// Negotiation is over after three events at the latest.
pub proof fn negotiation_ends_within_three_events(events: Seq<EventView>)
    requires
        events.len() >= 3,
    ensures
        run(Stage::Greeting, events).is_terminal(),
{
    let rest1 = events.drop_first();
    let rest2 = rest1.drop_first();
    let rest3 = rest2.drop_first();
    lemma_run_first(Stage::Greeting, events);
    lemma_run_first(Stage::Request, rest1);
    lemma_run_first(Stage::Connecting, rest2);
    closed_stays_closed(rest1);
    closed_stays_closed(rest2);
    closed_stays_closed(rest3);
    relaying_stays_relaying(rest3);
}

/// Whatever the client is sent is the method selection or one of the four
/// replies, each with a zero bound address and port.
pub proof fn sent_bytes_are_protocol_messages(stage: Stage, event: EventView)
    ensures
        match spec_step(stage, event).1.sent() {
            Some(bytes) => bytes == method_selection() || bytes == reply(REP_SUCCEEDED) || bytes
                == reply(REP_HOST_UNREACHABLE) || bytes == reply(
                crate::wire::REP_COMMAND_NOT_SUPPORTED,
            ) || bytes == reply(crate::wire::REP_ADDRESS_TYPE_NOT_SUPPORTED),
            None => true,
        },
{
}

} // verus!
