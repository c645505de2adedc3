//! A relay from per-topic event streams to browser connections.
//!
//! A client opens a connection that names a topic. The relay subscribes to the
//! topic's log from its earliest record and forwards every record to the
//! client as one text message, in arrival order, until either side ends.
//!
//! The crate holds the decisions of that relay: the bridge that binds one
//! subscription to one connection ([`bridge`]) with the laws of its runs
//! ([`runs`]), the decoding of a record into a text message ([`record`]), and
//! the table of endpoints together with the answers of the asset endpoint
//! ([`routes`]). Sockets, files and the stream backend stay with the caller,
//! which performs each action the bridge asks for and reports back what
//! happened.
pub mod bridge;
pub mod record;
pub mod routes;
pub mod runs;
