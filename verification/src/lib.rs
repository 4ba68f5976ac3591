//! The core of a WebSocket server for jambonz: the routes a server is built
//! from, the classification of inbound frames by the flavor of a route, and
//! the session loop of one connection as a state machine from events to
//! actions, with what holds of it along every sequence of events.
//!
//! The library performs no I/O. Whoever drives a connection reads frames
//! and the clock, hands them to [`session::Connection::step`] and performs
//! the action that comes back.

pub mod classify;
pub mod error;
pub mod frame;
pub mod heartbeat;
pub mod request;
pub mod route;
pub mod server;
pub mod session;
pub mod trace;
pub mod trusted;

pub use classify::{classify, Classified, Ignored};
pub use error::ConstructionError;
pub use frame::{CloseReason, Frame};
pub use heartbeat::{HeartbeatConfig, CLIENT_TIMEOUT, HEARTBEAT_INTERVAL};
pub use request::{HandlerContext, JambonzRequest};
pub use route::{JambonzRoute, JambonzRouteType};
pub use server::{JambonzWebServer, TestData};
pub use session::{Action, Connection, Event, Phase};
