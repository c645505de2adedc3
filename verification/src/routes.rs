//! The endpoints of the relay, as a table.
//!
//! The table says which paths the relay serves and what answers each of them.
//! It holds no handler: the server that owns the sockets builds its router from
//! it and attaches the handlers.
use vstd::prelude::*;

pub mod stat;
pub mod ws;

verus! {

/// What answers the requests that reach a route.
#[derive(Debug, PartialEq, Eq)]
pub enum Endpoint {
    /// The files below a directory. A request for a directory is answered with
    /// the index document inside it.
    StaticFiles { root: String, index_file: String },
    /// One file below the document root, answered by [`stat::file_handler`].
    AssetFile,
    /// The upgrade to a message connection that a bridge then serves.
    TopicSocket,
}

/// How a route takes its share of the requests.
#[derive(Clone, Copy, Debug, PartialEq, Eq, Structural)]
pub enum Matching {
    /// Every path below the pattern. The pattern is cut off the path before the
    /// endpoint sees the request.
    Nest,
    /// The paths that match the whole pattern, in which `:name` stands for one
    /// segment that is not empty.
    At,
}

/// One route: a pattern, how it matches, and what answers.
#[derive(Debug, PartialEq, Eq)]
pub struct Route {
    pub pattern: String,
    pub matching: Matching,
    /// Whether the route answers only `GET`.
    pub get_only: bool,
    pub endpoint: Endpoint,
}

/// A route mounted below a prefix. The prefix stays on the path: the route
/// matches against the whole path of the request.
#[derive(Debug, PartialEq, Eq)]
pub struct Mount {
    pub prefix: String,
    pub route: Route,
}

/// The mathematical value of an [`Endpoint`].
pub enum EndpointView {
    StaticFiles { root: Seq<char>, index_file: Seq<char> },
    AssetFile,
    TopicSocket,
}

/// The mathematical value of a [`Route`].
pub struct RouteView {
    pub pattern: Seq<char>,
    pub matching: Matching,
    pub get_only: bool,
    pub endpoint: EndpointView,
}

/// The mathematical value of a [`Mount`].
pub struct MountView {
    pub prefix: Seq<char>,
    pub route: RouteView,
}

impl View for Endpoint {
    type V = EndpointView;

    open spec fn view(&self) -> EndpointView {
        match *self {
            Endpoint::StaticFiles { root, index_file } => EndpointView::StaticFiles {
                root: root@,
                index_file: index_file@,
            },
            Endpoint::AssetFile => EndpointView::AssetFile,
            Endpoint::TopicSocket => EndpointView::TopicSocket,
        }
    }
}

impl View for Route {
    type V = RouteView;

    open spec fn view(&self) -> RouteView {
        RouteView {
            pattern: self.pattern@,
            matching: self.matching,
            get_only: self.get_only,
            endpoint: self.endpoint@,
        }
    }
}

impl View for Mount {
    type V = MountView;

    open spec fn view(&self) -> MountView {
        MountView { prefix: self.prefix@, route: self.route@ }
    }
}

/// The table of the relay: the static files at the root, the asset files below
/// `/stat`, and the topic sockets below `/ws`.
pub open spec fn app_route_table() -> Seq<MountView> {
    seq![
        MountView { prefix: "/"@, route: stat::index_route() },
        MountView { prefix: "/stat"@, route: stat::asset_route() },
        MountView { prefix: "/ws"@, route: ws::socket_route() },
    ]
}

/// The routes of the relay, in the order in which they are mounted.
pub fn app_routes() -> (mounts: Vec<Mount>)
    ensures
        mounts@.map_values(|mount: Mount| mount@) == app_route_table(),
{
    let mut mounts: Vec<Mount> = Vec::new();
    mounts.push(Mount { prefix: "/".to_owned(), route: stat::index() });
    mounts.push(Mount { prefix: "/stat".to_owned(), route: stat::route() });
    mounts.push(Mount { prefix: "/ws".to_owned(), route: ws::route() });
    assert(mounts@.map_values(|mount: Mount| mount@) =~= app_route_table());
    mounts
}

} // verus!
