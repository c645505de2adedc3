//! The topic socket: `GET /ws/{topic}` upgrades to a message connection that
//! carries the records of `topic`.
use vstd::prelude::*;
use crate::bridge::{Action, ActionView, Bridge, BridgeState, BridgeView};
use crate::routes::{Endpoint, EndpointView, Matching, Route, RouteView};

verus! {

/// The route of the topic socket.
pub open spec fn socket_route() -> RouteView {
    RouteView {
        pattern: "/ws/:name"@,
        matching: Matching::At,
        get_only: true,
        endpoint: EndpointView::TopicSocket,
    }
}

/// The route of the topic socket: `GET /ws/:name`, where the segment is the topic.
pub fn route() -> (route: Route)
    ensures
        route@ == socket_route(),
{
    Route {
        pattern: "/ws/:name".to_owned(),
        matching: Matching::At,
        get_only: true,
        endpoint: Endpoint::TopicSocket,
    }
}

/// Accepts an upgraded connection for the topic `name`.
///
/// Every connection gets a bridge of its own, which takes the topic as it was
/// named and has done nothing yet. The first thing to do for it is to connect to
/// the stream backend.
pub fn ws(name: String) -> (accepted: (Bridge, Action))
    ensures
        accepted.0@ == (BridgeView { topic: name@, state: BridgeState::Connecting }),
        accepted.1@ == ActionView::Connect,
{
    (Bridge::new(name), Action::Connect)
}

} // verus!
