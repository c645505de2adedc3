//! The bridge between one subscription and one connection.
//!
//! A bridge is a state machine that performs no work of its own. The task that
//! owns the socket and the stream carries out each [`Action`] the bridge hands
//! out and reports the outcome as an [`Event`]; the bridge answers with the next
//! action. [`transition`] is the whole table; what holds of every run of a bridge
//! is stated and proved in [`crate::runs`].
use vstd::prelude::*;
use crate::record::{decode_record, is_lossy_text_of, lossy_text};

verus! {

/// Where a bridge stands in its life. The order of the variants is the order in time.
#[derive(Clone, Copy, Debug, PartialEq, Eq, Structural)]
pub enum BridgeState {
    /// Waiting for a client handle to the stream backend.
    Connecting,
    /// Waiting for the subscription to open.
    Subscribing,
    /// Forwarding records.
    Pumping,
    /// Done. The subscription is released and the connection is left to close.
    Closed,
}

/// The position in a topic's log at which a subscription begins to read.
#[derive(Clone, Copy, Debug, PartialEq, Eq, Structural)]
pub enum StartOffset {
    /// The record with this absolute offset, which is not negative.
    Absolute(i64),
    /// This many records after the earliest one that the log still holds.
    FromBeginning(u32),
    /// This many records before the end of the log.
    FromEnd(u32),
}

/// What a bridge asks the stream backend for.
#[derive(Debug, PartialEq, Eq)]
pub struct SubscriptionConfig {
    /// The topic to read, exactly as the client named it.
    pub topic: String,
    /// Where reading starts.
    pub start: StartOffset,
}

/// What the owning task reports to the bridge.
#[derive(Debug, PartialEq, Eq)]
pub enum Event {
    /// The backend handed out a client handle.
    Connected,
    /// The backend could not be reached.
    ConnectFailed,
    /// The subscription is open.
    Subscribed,
    /// The subscription could not be configured or opened.
    SubscribeFailed,
    /// The subscription yielded a record with this payload.
    Record(Vec<u8>),
    /// The subscription yielded an error in place of a record.
    UpstreamFailed,
    /// The subscription came to its end.
    UpstreamEnded,
    /// The last message was written to the connection.
    Sent,
    /// Writing the last message failed.
    SendFailed,
    /// The client closed the connection.
    ClientClosed,
}

/// What the bridge asks the owning task to do next.
#[derive(Debug, PartialEq, Eq)]
pub enum Action {
    /// Obtain a client handle to the stream backend.
    Connect,
    /// Open this subscription.
    Subscribe(SubscriptionConfig),
    /// Wait for the next record, or for the client to close the connection.
    AwaitRecord,
    /// Write this text message to the connection.
    Send(String),
    /// Release the subscription and let the connection close.
    Close,
}

/// The mathematical value of a [`SubscriptionConfig`].
pub struct SubscriptionConfigView {
    pub topic: Seq<char>,
    pub start: StartOffset,
}

/// The mathematical value of an [`Event`].
pub enum EventView {
    Connected,
    ConnectFailed,
    Subscribed,
    SubscribeFailed,
    Record(Seq<u8>),
    UpstreamFailed,
    UpstreamEnded,
    Sent,
    SendFailed,
    ClientClosed,
}

/// The mathematical value of an [`Action`].
pub enum ActionView {
    Connect,
    Subscribe(SubscriptionConfigView),
    AwaitRecord,
    Send(Seq<char>),
    Close,
}

impl View for SubscriptionConfig {
    type V = SubscriptionConfigView;

    open spec fn view(&self) -> SubscriptionConfigView {
        SubscriptionConfigView { topic: self.topic@, start: self.start }
    }
}

impl View for Event {
    type V = EventView;

    open spec fn view(&self) -> EventView {
        match *self {
            Event::Connected => EventView::Connected,
            Event::ConnectFailed => EventView::ConnectFailed,
            Event::Subscribed => EventView::Subscribed,
            Event::SubscribeFailed => EventView::SubscribeFailed,
            Event::Record(payload) => EventView::Record(payload@),
            Event::UpstreamFailed => EventView::UpstreamFailed,
            Event::UpstreamEnded => EventView::UpstreamEnded,
            Event::Sent => EventView::Sent,
            Event::SendFailed => EventView::SendFailed,
            Event::ClientClosed => EventView::ClientClosed,
        }
    }
}

impl View for Action {
    type V = ActionView;

    open spec fn view(&self) -> ActionView {
        match *self {
            Action::Connect => ActionView::Connect,
            Action::Subscribe(config) => ActionView::Subscribe(config@),
            Action::AwaitRecord => ActionView::AwaitRecord,
            Action::Send(text) => ActionView::Send(text@),
            Action::Close => ActionView::Close,
        }
    }
}

/// The subscription that a bridge opens for `topic`: the topic as it was named,
/// read from the earliest record.
pub open spec fn subscription_for(topic: Seq<char>) -> SubscriptionConfigView {
    SubscriptionConfigView { topic, start: StartOffset::FromBeginning(0) }
}

/// The step of a bridge in `state` on a record whose payload decodes to `text`.
pub open spec fn record_step(state: BridgeState, text: Seq<char>) -> (BridgeState, ActionView) {
    if state == BridgeState::Pumping {
        (BridgeState::Pumping, ActionView::Send(text))
    } else {
        (BridgeState::Closed, ActionView::Close)
    }
}

/// The step of a bridge for `topic` in `state` on `event`: the state it moves to
/// and the action it asks for.
///
/// An event that the state does not wait for closes the bridge, and a closed
/// bridge answers every event with [`ActionView::Close`].
pub open spec fn transition(topic: Seq<char>, state: BridgeState, event: EventView) -> (
    BridgeState,
    ActionView,
) {
    match (state, event) {
        (BridgeState::Connecting, EventView::Connected) => (
            BridgeState::Subscribing,
            ActionView::Subscribe(subscription_for(topic)),
        ),
        (BridgeState::Subscribing, EventView::Subscribed) => (
            BridgeState::Pumping,
            ActionView::AwaitRecord,
        ),
        (_, EventView::Record(payload)) => record_step(state, lossy_text(payload)),
        (BridgeState::Pumping, EventView::Sent) => (BridgeState::Pumping, ActionView::AwaitRecord),
        _ => (BridgeState::Closed, ActionView::Close),
    }
}

/// One bridge: the topic it serves and where it stands.
#[derive(Debug)]
pub struct Bridge {
    topic: String,
    state: BridgeState,
}

/// The mathematical value of a [`Bridge`].
pub struct BridgeView {
    pub topic: Seq<char>,
    pub state: BridgeState,
}

impl View for Bridge {
    type V = BridgeView;

    closed spec fn view(&self) -> BridgeView {
        BridgeView { topic: self.topic@, state: self.state }
    }
}

impl Bridge {
    /// A bridge for `topic` that has done nothing yet. Its first action is
    /// [`Action::Connect`].
    pub fn new(topic: String) -> (bridge: Bridge)
        ensures
            bridge@ == (BridgeView { topic: topic@, state: BridgeState::Connecting }),
    {
        Bridge { topic, state: BridgeState::Connecting }
    }

    /// Where the bridge stands.
    pub fn state(&self) -> (state: BridgeState)
        ensures
            state == self@.state,
    {
        self.state
    }

    /// The topic the bridge serves.
    pub fn topic(&self) -> (topic: &str)
        ensures
            topic@ == self@.topic,
    {
        self.topic.as_str()
    }

    /// The subscription this bridge opens: its own topic, from the earliest record.
    pub fn subscription(&self) -> (config: SubscriptionConfig)
        ensures
            config@ == subscription_for(self@.topic),
    {
        SubscriptionConfig { topic: self.topic.clone(), start: StartOffset::FromBeginning(0) }
    }

    /// Takes a record whose payload has been decoded to `text`.
    ///
    /// A pumping bridge asks for `text` to be sent and goes on pumping. In any
    /// other state a record is out of place and closes the bridge.
    pub fn forward(&mut self, text: String) -> (action: Action)
        ensures
            final(self)@.topic == old(self)@.topic,
            (final(self)@.state, action@) == record_step(old(self)@.state, text@),
    {
        match self.state {
            BridgeState::Pumping => Action::Send(text),
            _ => {
                self.state = BridgeState::Closed;
                Action::Close
            },
        }
    }

    /// Takes the outcome of the last action and answers with the next one.
    ///
    /// The state and the action are those of [`transition`]. The topic never
    /// changes. The text that a record is sent as is its payload decoded as UTF-8,
    /// with U+FFFD in place of bytes that are not.
    pub fn step(&mut self, event: Event) -> (action: Action)
        ensures
            final(self)@.topic == old(self)@.topic,
            (final(self)@.state, action@) == transition(
                old(self)@.topic,
                old(self)@.state,
                event@,
            ),
            event@ matches EventView::Record(payload) ==> (action@ matches ActionView::Send(text)
                ==> is_lossy_text_of(text, payload)),
    {
        match event {
            Event::Record(payload) => {
                let text = decode_record(payload.as_slice());
                self.forward(text)
            },
            Event::Connected => match self.state {
                BridgeState::Connecting => {
                    self.state = BridgeState::Subscribing;
                    Action::Subscribe(self.subscription())
                },
                _ => self.close(),
            },
            Event::Subscribed => match self.state {
                BridgeState::Subscribing => {
                    self.state = BridgeState::Pumping;
                    Action::AwaitRecord
                },
                _ => self.close(),
            },
            Event::Sent => match self.state {
                BridgeState::Pumping => Action::AwaitRecord,
                _ => self.close(),
            },
            _ => self.close(),
        }
    }

    /// Closes the bridge, whatever its state.
    fn close(&mut self) -> (action: Action)
        ensures
            final(self)@.topic == old(self)@.topic,
            final(self)@.state == BridgeState::Closed,
            action@ == ActionView::Close,
    {
        self.state = BridgeState::Closed;
        Action::Close
    }
}

} // verus!
