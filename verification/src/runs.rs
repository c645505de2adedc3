//! Runs of a bridge: what it answers to a whole sequence of events.
//!
//! The functions here fold [`transition`] over a sequence of events. The proof
//! functions state what holds of every such run, whatever the topic, the payloads
//! and the order in which the events arrive.
use vstd::prelude::*;
use crate::bridge::{transition, subscription_for, ActionView, BridgeState, EventView};
use crate::record::lossy_text;

verus! {

/// The state of a bridge for `topic` that started in `state` and took `events` in order.
pub open spec fn state_after(
    topic: Seq<char>,
    state: BridgeState,
    events: Seq<EventView>,
) -> BridgeState
    decreases events.len(),
{
    if events.len() == 0 {
        state
    } else {
        state_after(topic, transition(topic, state, events[0]).0, events.drop_first())
    }
}

/// The actions that a bridge for `topic` answered with, one for each of `events`.
pub open spec fn actions_of(
    topic: Seq<char>,
    state: BridgeState,
    events: Seq<EventView>,
) -> Seq<ActionView>
    decreases events.len(),
{
    if events.len() == 0 {
        Seq::empty()
    } else {
        let (next, action) = transition(topic, state, events[0]);
        seq![action] + actions_of(topic, next, events.drop_first())
    }
}

/// The texts of the messages among `actions`, in order.
pub open spec fn sent_texts(actions: Seq<ActionView>) -> Seq<Seq<char>>
    decreases actions.len(),
{
    if actions.len() == 0 {
        Seq::empty()
    } else {
        match actions[0] {
            ActionView::Send(text) => seq![text] + sent_texts(actions.drop_first()),
            _ => sent_texts(actions.drop_first()),
        }
    }
}

/// How many subscriptions `actions` ask for.
pub open spec fn subscriptions_opened(actions: Seq<ActionView>) -> nat
    decreases actions.len(),
{
    if actions.len() == 0 {
        0
    } else {
        match actions[0] {
            ActionView::Subscribe(_) => 1 + subscriptions_opened(actions.drop_first()),
            _ => subscriptions_opened(actions.drop_first()),
        }
    }
}

/// The payloads of the records that reach a pumping bridge before the first event
/// that ends the pump.
pub open spec fn payloads_before_close(events: Seq<EventView>) -> Seq<Seq<u8>>
    decreases events.len(),
{
    if events.len() == 0 {
        Seq::empty()
    } else {
        match events[0] {
            EventView::Record(payload) => seq![payload] + payloads_before_close(
                events.drop_first(),
            ),
            EventView::Sent => payloads_before_close(events.drop_first()),
            _ => Seq::empty(),
        }
    }
}

/// The payloads that reach the client of a connection to which `events` happen
/// from its acceptance on: none unless the backend was reached and the
/// subscription opened, and then those of the records that arrived before the
/// pump ended.
pub open spec fn delivered_payloads(events: Seq<EventView>) -> Seq<Seq<u8>> {
    if events.len() >= 2 && events[0] is Connected && events[1] is Subscribed {
        payloads_before_close(events.skip(2))
    } else {
        Seq::empty()
    }
}

/// Whether `event` ends a bridge in whatever state it arrives.
pub open spec fn ends_bridge(event: EventView) -> bool {
    event is ConnectFailed || event is SubscribeFailed || event is UpstreamFailed
        || event is UpstreamEnded || event is SendFailed || event is ClientClosed
}

/// The place of a state in the life of a bridge.
pub open spec fn rank(state: BridgeState) -> nat {
    match state {
        BridgeState::Connecting => 0,
        BridgeState::Subscribing => 1,
        BridgeState::Pumping => 2,
        BridgeState::Closed => 3,
    }
}

/// A run answers each event with exactly one action.
pub proof fn lemma_one_action_per_event(
    topic: Seq<char>,
    state: BridgeState,
    events: Seq<EventView>,
)
    ensures
        actions_of(topic, state, events).len() == events.len(),
    decreases events.len(),
{
    if events.len() > 0 {
        let next = transition(topic, state, events[0]).0;
        lemma_one_action_per_event(topic, next, events.drop_first());
    }
}

/// A run over `first` followed by `second` is the run over `first`, followed by
/// the run over `second` from the state that `first` led to.
pub proof fn lemma_run_splits(
    topic: Seq<char>,
    state: BridgeState,
    first: Seq<EventView>,
    second: Seq<EventView>,
)
    ensures
        state_after(topic, state, first + second) == state_after(
            topic,
            state_after(topic, state, first),
            second,
        ),
        actions_of(topic, state, first + second) == actions_of(topic, state, first) + actions_of(
            topic,
            state_after(topic, state, first),
            second,
        ),
    decreases first.len(),
{
    if first.len() == 0 {
        assert(first + second =~= second);
    } else {
        let next = transition(topic, state, first[0]).0;
        assert((first + second).drop_first() =~= first.drop_first() + second);
        lemma_run_splits(topic, next, first.drop_first(), second);
    }
}

/// No step takes a bridge back to an earlier state, and so no run does.
pub proof fn lemma_state_never_goes_back(
    topic: Seq<char>,
    state: BridgeState,
    events: Seq<EventView>,
)
    ensures
        rank(state) <= rank(state_after(topic, state, events)),
        forall|event: EventView| rank(state) <= rank(#[trigger] transition(topic, state, event).0),
    decreases events.len(),
{
    if events.len() > 0 {
        let next = transition(topic, state, events[0]).0;
        lemma_state_never_goes_back(topic, next, events.drop_first());
    }
}

/// A closed bridge stays closed: it answers every event with `Close`, so it asks
/// for no further write, read or subscription.
pub proof fn lemma_closed_stays_closed(topic: Seq<char>, events: Seq<EventView>)
    ensures
        state_after(topic, BridgeState::Closed, events) == BridgeState::Closed,
        actions_of(topic, BridgeState::Closed, events) == Seq::new(
            events.len(),
            |i: int| ActionView::Close,
        ),
    decreases events.len(),
{
    if events.len() > 0 {
        lemma_closed_stays_closed(topic, events.drop_first());
        lemma_one_action_per_event(topic, BridgeState::Closed, events);
    }
    assert(actions_of(topic, BridgeState::Closed, events) =~= Seq::new(
        events.len(),
        |i: int| ActionView::Close,
    ));
}

/// An event that ends the bridge ends it for good, in whatever state it arrives
/// and whatever follows: the client closing the connection, a failed write, the
/// end or a failure of the stream, a failed connect or subscribe. The bridge
/// answers that event and every later one with `Close`.
pub proof fn lemma_ending_event_stops_the_bridge(
    topic: Seq<char>,
    state: BridgeState,
    before: Seq<EventView>,
    ending: EventView,
    after: Seq<EventView>,
)
    requires
        ends_bridge(ending),
    ensures
        state_after(topic, state, before + seq![ending] + after) == BridgeState::Closed,
        actions_of(topic, state, before + seq![ending] + after) == actions_of(topic, state, before)
            + Seq::new(after.len() + 1, |i: int| ActionView::Close),
{
    let reached = state_after(topic, state, before);
    let tail = seq![ending] + after;
    assert(before + seq![ending] + after =~= before + tail);
    lemma_run_splits(topic, state, before, tail);
    assert(tail.drop_first() =~= after);
    assert(transition(topic, reached, ending) == (BridgeState::Closed, ActionView::Close));
    lemma_closed_stays_closed(topic, after);
    assert(actions_of(topic, reached, tail) =~= Seq::new(
        after.len() + 1,
        |i: int| ActionView::Close,
    ));
}

/// Once a bridge has answered `Close`, every later answer is `Close`.
pub proof fn lemma_nothing_follows_close(
    topic: Seq<char>,
    state: BridgeState,
    events: Seq<EventView>,
    i: int,
    j: int,
)
    requires
        0 <= i <= j < events.len(),
        actions_of(topic, state, events)[i] == ActionView::Close,
    ensures
        actions_of(topic, state, events)[j] == ActionView::Close,
    decreases events.len(),
{
    let (next, action) = transition(topic, state, events[0]);
    let rest = events.drop_first();
    lemma_one_action_per_event(topic, next, rest);
    if i == 0 {
        assert(next == BridgeState::Closed);
        lemma_closed_stays_closed(topic, rest);
    } else {
        lemma_nothing_follows_close(topic, next, rest, i - 1, j - 1);
    }
}

/// Every subscription that a bridge asks for is for its own topic, as the client
/// named it, and starts at the earliest record; a bridge asks for at most one,
/// and a connecting bridge asks for it as soon as the backend is reached.
pub proof fn lemma_subscribes_from_the_beginning(
    topic: Seq<char>,
    state: BridgeState,
    events: Seq<EventView>,
)
    ensures
        transition(topic, BridgeState::Connecting, EventView::Connected).1 == ActionView::Subscribe(
            subscription_for(topic),
        ),
        forall|i: int|
            0 <= i < events.len() && #[trigger] actions_of(topic, state, events)[i] is Subscribe
                ==> actions_of(topic, state, events)[i] == ActionView::Subscribe(
                subscription_for(topic),
            ),
        subscriptions_opened(actions_of(topic, state, events)) <= 1,
        state != BridgeState::Connecting ==> subscriptions_opened(actions_of(topic, state, events))
            == 0,
    decreases events.len(),
{
    if events.len() > 0 {
        let (next, action) = transition(topic, state, events[0]);
        let rest = events.drop_first();
        lemma_subscribes_from_the_beginning(topic, next, rest);
        lemma_one_action_per_event(topic, next, rest);
        let actions = actions_of(topic, state, events);
        assert(actions.drop_first() =~= actions_of(topic, next, rest));
        assert forall|i: int|
            0 <= i < events.len() && #[trigger] actions[i] is Subscribe implies actions[i]
            == ActionView::Subscribe(subscription_for(topic)) by {
            if i > 0 {
                assert(actions[i] == actions_of(topic, next, rest)[i - 1]);
            }
        }
    }
}

/// Decoding never stops the pump: whatever bytes a record holds, well-formed
/// UTF-8 or not, a pumping bridge answers it with a message to send and goes on
/// pumping.
pub proof fn lemma_every_record_is_forwarded(topic: Seq<char>, payload: Seq<u8>)
    ensures
        transition(topic, BridgeState::Pumping, EventView::Record(payload)) == (
            BridgeState::Pumping,
            ActionView::Send(lossy_text(payload)),
        ),
{
}

/// A run of `Close` answers holds no message.
proof fn lemma_no_text_in_closes(n: nat)
    ensures
        sent_texts(Seq::new(n, |i: int| ActionView::Close)) == Seq::<Seq<char>>::empty(),
    decreases n,
{
    let closes = Seq::new(n, |i: int| ActionView::Close);
    if n > 0 {
        assert(closes.drop_first() =~= Seq::new((n - 1) as nat, |i: int| ActionView::Close));
        lemma_no_text_in_closes((n - 1) as nat);
    }
}

/// A pumping bridge forwards the records in the order in which they arrive and
/// drops none: the texts it sends are the decoded payloads of the records that
/// arrived before the pump ended, one message for each, in the same order.
pub proof fn lemma_records_forwarded_in_order(topic: Seq<char>, events: Seq<EventView>)
    ensures
        sent_texts(actions_of(topic, BridgeState::Pumping, events)) == payloads_before_close(
            events,
        ).map_values(|payload: Seq<u8>| lossy_text(payload)),
    decreases events.len(),
{
    let decode = |payload: Seq<u8>| lossy_text(payload);
    let actions = actions_of(topic, BridgeState::Pumping, events);
    if events.len() == 0 {
        assert(sent_texts(actions) =~= payloads_before_close(events).map_values(decode));
    } else {
        let (next, action) = transition(topic, BridgeState::Pumping, events[0]);
        let rest = events.drop_first();
        assert(actions.drop_first() =~= actions_of(topic, next, rest));
        match events[0] {
            EventView::Record(payload) => {
                lemma_records_forwarded_in_order(topic, rest);
                assert(payloads_before_close(events).map_values(decode) =~= seq![
                    lossy_text(payload),
                ] + payloads_before_close(rest).map_values(decode));
            },
            EventView::Sent => {
                lemma_records_forwarded_in_order(topic, rest);
            },
            _ => {
                lemma_closed_stays_closed(topic, rest);
                lemma_no_text_in_closes(rest.len());
                assert(payloads_before_close(events).map_values(decode) =~= Seq::<
                    Seq<char>,
                >::empty());
            },
        }
    }
}

/// A whole connection, whatever happens to it: the client receives the decoded
/// payloads of the records that the subscription delivered, one message for
/// each, in the order of their arrival, and nothing else.
pub proof fn lemma_connection_delivers_in_order(topic: Seq<char>, events: Seq<EventView>)
    ensures
        sent_texts(actions_of(topic, BridgeState::Connecting, events)) == delivered_payloads(
            events,
        ).map_values(|payload: Seq<u8>| lossy_text(payload)),
{
    let decode = |payload: Seq<u8>| lossy_text(payload);
    let actions = actions_of(topic, BridgeState::Connecting, events);
    let nothing = Seq::<Seq<char>>::empty();
    assert(Seq::<Seq<u8>>::empty().map_values(decode) =~= nothing);
    if events.len() > 0 {
        let (second_state, first_action) = transition(topic, BridgeState::Connecting, events[0]);
        let rest = events.drop_first();
        let rest_actions = actions_of(topic, second_state, rest);
        assert(actions.drop_first() =~= rest_actions);
        assert(sent_texts(actions) == sent_texts(rest_actions));
        if !(events[0] is Connected) {
            lemma_closed_stays_closed(topic, rest);
            lemma_no_text_in_closes(rest.len());
        } else if rest.len() > 0 {
            let (third_state, second_action) = transition(topic, second_state, rest[0]);
            let pump = rest.drop_first();
            let pump_actions = actions_of(topic, third_state, pump);
            assert(rest_actions.drop_first() =~= pump_actions);
            assert(sent_texts(rest_actions) == sent_texts(pump_actions));
            assert(pump =~= events.skip(2));
            if rest[0] is Subscribed {
                lemma_records_forwarded_in_order(topic, pump);
            } else {
                lemma_closed_stays_closed(topic, pump);
                lemma_no_text_in_closes(pump.len());
            }
        }
    }
}

/// A connection whose backend cannot be reached is closed at once. A bridge holds
/// nothing but its own topic and state, so the failure touches no other: a bridge
/// for any topic reaches the pump as soon as its own connect and subscribe
/// succeed.
pub proof fn lemma_failed_connect_is_local(failed_topic: Seq<char>, topic: Seq<char>)
    ensures
        transition(failed_topic, BridgeState::Connecting, EventView::ConnectFailed) == (
            BridgeState::Closed,
            ActionView::Close,
        ),
        state_after(
            topic,
            BridgeState::Connecting,
            seq![EventView::Connected, EventView::Subscribed],
        ) == BridgeState::Pumping,
{
    let opening = seq![EventView::Connected, EventView::Subscribed];
    let rest = opening.drop_first();
    assert(rest.drop_first() =~= Seq::<EventView>::empty());
    assert(state_after(topic, BridgeState::Pumping, rest.drop_first()) == BridgeState::Pumping);
    assert(state_after(topic, BridgeState::Subscribing, rest) == BridgeState::Pumping);
}

} // verus!
