use viz2::bridge::{Action, Bridge, BridgeState, Event, StartOffset, SubscriptionConfig};
use viz2::routes::ws::ws;

fn subscription(topic: &str) -> Action {
    Action::Subscribe(SubscriptionConfig {
        topic: topic.to_string(),
        start: StartOffset::FromBeginning(0),
    })
}

fn record(payload: &[u8]) -> Event {
    Event::Record(payload.to_vec())
}

fn every_event() -> Vec<Event> {
    vec![
        Event::Connected,
        Event::ConnectFailed,
        Event::Subscribed,
        Event::SubscribeFailed,
        record(b"payload"),
        Event::UpstreamFailed,
        Event::UpstreamEnded,
        Event::Sent,
        Event::SendFailed,
        Event::ClientClosed,
    ]
}

fn bridge_in(state: BridgeState) -> Bridge {
    let mut bridge = Bridge::new("topic".to_string());
    match state {
        BridgeState::Connecting => {}
        BridgeState::Subscribing => {
            bridge.step(Event::Connected);
        }
        BridgeState::Pumping => {
            bridge.step(Event::Connected);
            bridge.step(Event::Subscribed);
        }
        BridgeState::Closed => {
            bridge.step(Event::ClientClosed);
        }
    }
    assert_eq!(bridge.state(), state);
    bridge
}

fn rank(state: BridgeState) -> u8 {
    match state {
        BridgeState::Connecting => 0,
        BridgeState::Subscribing => 1,
        BridgeState::Pumping => 2,
        BridgeState::Closed => 3,
    }
}

fn every_state() -> Vec<BridgeState> {
    vec![
        BridgeState::Connecting,
        BridgeState::Subscribing,
        BridgeState::Pumping,
        BridgeState::Closed,
    ]
}

#[test]
fn new_bridge_is_connecting() {
    let bridge = Bridge::new("scores".to_string());
    assert_eq!(bridge.state(), BridgeState::Connecting);
    assert_eq!(bridge.topic(), "scores");
}

#[test]
fn accepted_connection_starts_by_connecting() {
    let (bridge, action) = ws("scores".to_string());
    assert_eq!(action, Action::Connect);
    assert_eq!(bridge.state(), BridgeState::Connecting);
    assert_eq!(bridge.topic(), "scores");
}

#[test]
fn scores_are_delivered_in_order_and_the_connection_stays_open() {
    let (mut bridge, action) = ws("scores".to_string());
    assert_eq!(action, Action::Connect);
    assert_eq!(bridge.step(Event::Connected), subscription("scores"));
    assert_eq!(bridge.state(), BridgeState::Subscribing);
    assert_eq!(bridge.step(Event::Subscribed), Action::AwaitRecord);
    assert_eq!(bridge.state(), BridgeState::Pumping);
    assert_eq!(bridge.step(record(b"10")), Action::Send("10".to_string()));
    assert_eq!(bridge.step(Event::Sent), Action::AwaitRecord);
    assert_eq!(bridge.step(record(b"20")), Action::Send("20".to_string()));
    assert_eq!(bridge.step(Event::Sent), Action::AwaitRecord);
    assert_eq!(bridge.state(), BridgeState::Pumping);
}

#[test]
fn empty_topic_log_leaves_the_connection_waiting() {
    let (mut bridge, _) = ws("empty".to_string());
    assert_eq!(bridge.step(Event::Connected), subscription("empty"));
    assert_eq!(bridge.step(Event::Subscribed), Action::AwaitRecord);
    assert_eq!(bridge.state(), BridgeState::Pumping);
    assert_eq!(bridge.step(record(b"late")), Action::Send("late".to_string()));
    assert_eq!(bridge.state(), BridgeState::Pumping);
}

#[test]
fn empty_topic_log_until_the_client_leaves() {
    let (mut bridge, _) = ws("empty".to_string());
    bridge.step(Event::Connected);
    assert_eq!(bridge.step(Event::Subscribed), Action::AwaitRecord);
    assert_eq!(bridge.step(Event::ClientClosed), Action::Close);
    assert_eq!(bridge.state(), BridgeState::Closed);
}

#[test]
fn invalid_utf8_record_is_sent_with_replacement_character() {
    let mut bridge = bridge_in(BridgeState::Pumping);
    let action = bridge.step(record(&[0x66, 0xff, 0x6f]));
    assert_eq!(action, Action::Send("f\u{FFFD}o".to_string()));
    assert_eq!(bridge.state(), BridgeState::Pumping);
    assert_eq!(bridge.step(Event::Sent), Action::AwaitRecord);
}

#[test]
fn subscription_uses_topic_verbatim() {
    let long = "x".repeat(300);
    for topic in ["scores", "Scores", "a b", "a%20b", "..", "caf\u{e9}", ":name", long.as_str()] {
        let (mut bridge, _) = ws(topic.to_string());
        assert_eq!(bridge.step(Event::Connected), subscription(topic));
        assert_eq!(bridge.topic(), topic);
    }
}

#[test]
fn subscription_of_a_bridge_starts_at_the_beginning() {
    let bridge = Bridge::new("scores".to_string());
    let config = bridge.subscription();
    assert_eq!(config.topic, "scores");
    assert_eq!(config.start, StartOffset::FromBeginning(0));
}

#[test]
fn two_connections_to_one_topic_each_read_from_the_beginning() {
    let (mut first, _) = ws("scores".to_string());
    assert_eq!(first.step(Event::Connected), subscription("scores"));
    first.step(Event::Subscribed);
    assert_eq!(first.step(record(b"10")), Action::Send("10".to_string()));
    first.step(Event::Sent);
    assert_eq!(first.step(record(b"20")), Action::Send("20".to_string()));

    let (mut second, action) = ws("scores".to_string());
    assert_eq!(action, Action::Connect);
    assert_eq!(second.step(Event::Connected), subscription("scores"));
    assert_eq!(second.step(Event::Subscribed), Action::AwaitRecord);
    assert_eq!(second.step(record(b"10")), Action::Send("10".to_string()));
    assert_eq!(first.state(), BridgeState::Pumping);
    assert_eq!(second.state(), BridgeState::Pumping);
}

#[test]
fn many_records_keep_their_order() {
    let mut bridge = bridge_in(BridgeState::Pumping);
    let mut sent = Vec::new();
    for i in 0..200u32 {
        match bridge.step(record(i.to_string().as_bytes())) {
            Action::Send(text) => sent.push(text),
            other => panic!("record {} was answered with {:?}", i, other),
        }
        assert_eq!(bridge.step(Event::Sent), Action::AwaitRecord);
    }
    let expected: Vec<String> = (0..200u32).map(|i| i.to_string()).collect();
    assert_eq!(sent, expected);
}

#[test]
fn records_without_acknowledgement_keep_their_order() {
    let mut bridge = bridge_in(BridgeState::Pumping);
    assert_eq!(bridge.step(record(b"a")), Action::Send("a".to_string()));
    assert_eq!(bridge.step(record(b"b")), Action::Send("b".to_string()));
    assert_eq!(bridge.step(record(b"a")), Action::Send("a".to_string()));
    assert_eq!(bridge.state(), BridgeState::Pumping);
}

#[test]
fn failed_connect_closes_the_bridge() {
    let (mut bridge, _) = ws("scores".to_string());
    assert_eq!(bridge.step(Event::ConnectFailed), Action::Close);
    assert_eq!(bridge.state(), BridgeState::Closed);
}

#[test]
fn failed_connect_leaves_later_connections_alone() {
    let (mut failed, _) = ws("scores".to_string());
    assert_eq!(failed.step(Event::ConnectFailed), Action::Close);

    let (mut later, action) = ws("other".to_string());
    assert_eq!(action, Action::Connect);
    assert_eq!(later.step(Event::Connected), subscription("other"));
    assert_eq!(later.step(Event::Subscribed), Action::AwaitRecord);
    assert_eq!(later.step(record(b"1")), Action::Send("1".to_string()));
    assert_eq!(later.state(), BridgeState::Pumping);
    assert_eq!(failed.state(), BridgeState::Closed);
}

#[test]
fn failed_subscribe_closes_the_bridge() {
    let mut bridge = bridge_in(BridgeState::Subscribing);
    assert_eq!(bridge.step(Event::SubscribeFailed), Action::Close);
    assert_eq!(bridge.state(), BridgeState::Closed);
}

#[test]
fn failed_write_stops_the_pump() {
    let mut bridge = bridge_in(BridgeState::Pumping);
    assert_eq!(bridge.step(record(b"10")), Action::Send("10".to_string()));
    assert_eq!(bridge.step(Event::SendFailed), Action::Close);
    assert_eq!(bridge.state(), BridgeState::Closed);
    assert_eq!(bridge.step(record(b"20")), Action::Close);
    assert_eq!(bridge.step(Event::Sent), Action::Close);
    assert_eq!(bridge.state(), BridgeState::Closed);
}

#[test]
fn failure_of_the_stream_stops_the_pump() {
    let mut bridge = bridge_in(BridgeState::Pumping);
    assert_eq!(bridge.step(record(b"10")), Action::Send("10".to_string()));
    assert_eq!(bridge.step(Event::Sent), Action::AwaitRecord);
    assert_eq!(bridge.step(Event::UpstreamFailed), Action::Close);
    assert_eq!(bridge.state(), BridgeState::Closed);
    assert_eq!(bridge.step(record(b"20")), Action::Close);
}

#[test]
fn end_of_stream_stops_the_pump() {
    let mut bridge = bridge_in(BridgeState::Pumping);
    assert_eq!(bridge.step(Event::UpstreamEnded), Action::Close);
    assert_eq!(bridge.state(), BridgeState::Closed);
}

#[test]
fn client_close_ends_the_bridge_in_every_state() {
    for state in every_state() {
        let mut bridge = bridge_in(state);
        assert_eq!(bridge.step(Event::ClientClosed), Action::Close);
        assert_eq!(bridge.state(), BridgeState::Closed);
    }
}

#[test]
fn closed_bridge_answers_every_event_with_close() {
    for event in every_event() {
        let mut bridge = bridge_in(BridgeState::Closed);
        assert_eq!(bridge.step(event), Action::Close);
        assert_eq!(bridge.state(), BridgeState::Closed);
    }
}

#[test]
fn no_write_after_the_client_left() {
    let mut bridge = bridge_in(BridgeState::Pumping);
    assert_eq!(bridge.step(record(b"1")), Action::Send("1".to_string()));
    assert_eq!(bridge.step(Event::ClientClosed), Action::Close);
    for event in every_event() {
        assert_eq!(bridge.step(event), Action::Close);
    }
    assert_eq!(bridge.state(), BridgeState::Closed);
}

#[test]
fn connect_disconnect_cycles_leave_nothing_behind() {
    for cycle in 0..50u32 {
        let (mut bridge, action) = ws(format!("topic-{}", cycle));
        assert_eq!(action, Action::Connect);
        bridge.step(Event::Connected);
        assert_eq!(bridge.step(Event::Subscribed), Action::AwaitRecord);
        assert_eq!(bridge.step(Event::ClientClosed), Action::Close);
        assert_eq!(bridge.state(), BridgeState::Closed);
    }
}

#[test]
fn event_out_of_place_closes_the_bridge() {
    let expected = |state: BridgeState, event: &Event| -> bool {
        matches!(
            (state, event),
            (BridgeState::Connecting, Event::Connected)
                | (BridgeState::Subscribing, Event::Subscribed)
                | (BridgeState::Pumping, Event::Record(_))
                | (BridgeState::Pumping, Event::Sent)
        )
    };
    for state in every_state() {
        for event in every_event() {
            let mut bridge = bridge_in(state);
            let in_place = expected(state, &event);
            let action = bridge.step(event);
            if in_place {
                assert_ne!(action, Action::Close);
                assert_ne!(bridge.state(), BridgeState::Closed);
            } else {
                assert_eq!(action, Action::Close);
                assert_eq!(bridge.state(), BridgeState::Closed);
            }
        }
    }
}

#[test]
fn state_never_goes_back() {
    for state in every_state() {
        for event in every_event() {
            let mut bridge = bridge_in(state);
            bridge.step(event);
            assert!(rank(state) <= rank(bridge.state()));
        }
    }
}

#[test]
fn topic_survives_every_step() {
    for state in every_state() {
        for event in every_event() {
            let mut bridge = bridge_in(state);
            bridge.step(event);
            assert_eq!(bridge.topic(), "topic");
        }
    }
}

#[test]
fn at_most_one_subscription_per_bridge() {
    let mut bridge = Bridge::new("scores".to_string());
    let mut opened = 0;
    let events = vec![
        Event::Connected,
        Event::Subscribed,
        record(b"1"),
        Event::Sent,
        Event::Connected,
        Event::Connected,
        Event::Subscribed,
    ];
    for event in events {
        if let Action::Subscribe(_) = bridge.step(event) {
            opened += 1;
        }
    }
    assert_eq!(opened, 1);
    assert_eq!(bridge.state(), BridgeState::Closed);
}

#[test]
fn forward_sends_while_pumping() {
    let mut bridge = bridge_in(BridgeState::Pumping);
    assert_eq!(bridge.forward("10".to_string()), Action::Send("10".to_string()));
    assert_eq!(bridge.state(), BridgeState::Pumping);
}

#[test]
fn forward_out_of_place_closes_the_bridge() {
    for state in [BridgeState::Connecting, BridgeState::Subscribing, BridgeState::Closed] {
        let mut bridge = bridge_in(state);
        assert_eq!(bridge.forward("10".to_string()), Action::Close);
        assert_eq!(bridge.state(), BridgeState::Closed);
    }
}

#[test]
fn empty_record_is_an_empty_message() {
    let mut bridge = bridge_in(BridgeState::Pumping);
    assert_eq!(bridge.step(record(b"")), Action::Send(String::new()));
    assert_eq!(bridge.state(), BridgeState::Pumping);
}
