use vstd::prelude::*;

use crate::classify::{Classified, ClassifiedView};
use crate::frame::{clone_reason, reason_view, CloseReason, CloseReasonView};
use crate::heartbeat::{elapsed, HeartbeatConfig};
use crate::request::{HandlerContext, JambonzRequest, RequestView};
use crate::route::JambonzRouteType;
use crate::trusted::fresh_id;
use actix_web::web::Data;
use actix_ws::Session;
use uuid::Uuid;

verus! {

/// Where a connection stands in its life. It only ever moves forward.
#[derive(Debug, PartialEq, Eq)]
pub enum Phase {
    /// Frames and ticks are served.
    Open,
    /// The loop has ended; the transport is still to be closed, with the
    /// reason captured here.
    Closing(Option<CloseReason>),
    /// The transport has been closed. Nothing follows.
    Closed,
}

/// The mathematical value of a [`Phase`].
pub enum PhaseView {
    Open,
    Closing(Option<CloseReasonView>),
    Closed,
}

impl View for Phase {
    type V = PhaseView;

    open spec fn view(&self) -> PhaseView {
        match *self {
            Phase::Open => PhaseView::Open,
            Phase::Closing(reason) => PhaseView::Closing(reason_view(reason)),
            Phase::Closed => PhaseView::Closed,
        }
    }
}

/// What the session loop is woken by.
pub enum Event {
    /// A frame arrived, and was classified for the connection's flavor.
    Frame(Classified),
    /// The inbound stream failed.
    TransportError,
    /// The inbound stream ended.
    StreamEnded,
    /// The heartbeat interval elapsed.
    Tick,
}

/// The mathematical value of an [`Event`].
pub enum EventView {
    Frame(ClassifiedView),
    TransportError,
    StreamEnded,
    Tick,
}

impl View for Event {
    type V = EventView;

    open spec fn view(&self) -> EventView {
        match *self {
            Event::Frame(classified) => EventView::Frame(classified@),
            Event::TransportError => EventView::TransportError,
            Event::StreamEnded => EventView::StreamEnded,
            Event::Tick => EventView::Tick,
        }
    }
}

/// What the session loop has to do after an event.
pub enum Action {
    /// Nothing.
    Idle,
    /// Send a pong that echoes these bytes.
    Pong(Vec<u8>),
    /// Send a ping with an empty payload.
    Ping,
    /// Hand the request to the handler and go on without waiting for it.
    Dispatch(JambonzRequest),
    /// Hand the request to the handler, wait until it has finished, then
    /// leave the loop.
    DispatchAndStop(JambonzRequest),
    /// Leave the loop.
    Stop,
}

/// The mathematical value of an [`Action`].
pub enum ActionView {
    Idle,
    Pong(Seq<u8>),
    Ping,
    Dispatch(RequestView),
    DispatchAndStop(RequestView),
    Stop,
}

impl View for Action {
    type V = ActionView;

    open spec fn view(&self) -> ActionView {
        match *self {
            Action::Idle => ActionView::Idle,
            Action::Pong(bytes) => ActionView::Pong(bytes@),
            Action::Ping => ActionView::Ping,
            Action::Dispatch(request) => ActionView::Dispatch(request@),
            Action::DispatchAndStop(request) => ActionView::DispatchAndStop(request@),
            Action::Stop => ActionView::Stop,
        }
    }
}

/// One accepted connection: its identity, the flavor of the route it came in
/// on, its liveness clock and its phase. Times are nanoseconds on the
/// caller's monotonic clock.
pub struct Connection {
    id: Uuid,
    flavor: JambonzRouteType,
    config: HeartbeatConfig,
    last_heartbeat: u64,
    phase: Phase,
}

/// The mathematical value of a [`Connection`].
pub struct ConnectionView {
    pub id: Uuid,
    pub flavor: JambonzRouteType,
    pub config: HeartbeatConfig,
    pub last_heartbeat: u64,
    pub phase: PhaseView,
}

impl View for Connection {
    type V = ConnectionView;

    closed spec fn view(&self) -> ConnectionView {
        ConnectionView {
            id: self.id,
            flavor: self.flavor,
            config: self.config,
            last_heartbeat: self.last_heartbeat,
            phase: self.phase@,
        }
    }
}

/// Whether the peer has been silent for longer than the timeout.
pub open spec fn timed_out(c: ConnectionView, now: u64) -> bool {
    elapsed(c.last_heartbeat, now) > c.config.spec_timeout()
}

/// The connection after it left the loop, with the reason to close the
/// transport with.
pub open spec fn closing(c: ConnectionView, reason: Option<CloseReasonView>) -> ConnectionView {
    ConnectionView { phase: PhaseView::Closing(reason), ..c }
}

/// The connection after a liveness signal at `now`.
pub open spec fn refreshed(c: ConnectionView, now: u64) -> ConnectionView {
    ConnectionView { last_heartbeat: now, ..c }
}

/// The transition table of the session loop: the connection after an event
/// that is handled at `now`, and what the loop has to do.
///
/// Only an open connection reacts. Only a ping or a pong moves the liveness
/// clock. A close frame, a failed or ended stream and a tick after the
/// timeout end the loop; only the close frame passes a reason on, and only
/// it is announced to the handler.
pub open spec fn transition(c: ConnectionView, event: EventView, now: u64) -> (
    ConnectionView,
    ActionView,
) {
    if !(c.phase is Open) {
        (c, ActionView::Idle)
    } else {
        match event {
            EventView::Frame(ClassifiedView::Request(request)) => (c, ActionView::Dispatch(request)),
            EventView::Frame(ClassifiedView::Ping(bytes)) => (
                refreshed(c, now),
                ActionView::Pong(bytes),
            ),
            EventView::Frame(ClassifiedView::Pong) => (refreshed(c, now), ActionView::Idle),
            EventView::Frame(ClassifiedView::Close(reason)) => (
                closing(c, reason),
                ActionView::DispatchAndStop(RequestView::Close(reason)),
            ),
            EventView::Frame(ClassifiedView::Ignored(_)) => (c, ActionView::Idle),
            EventView::TransportError => (closing(c, None), ActionView::Stop),
            EventView::StreamEnded => (closing(c, None), ActionView::Stop),
            EventView::Tick => if timed_out(c, now) {
                (closing(c, None), ActionView::Stop)
            } else {
                (c, ActionView::Ping)
            },
        }
    }
}

/// The connection after the transport was closed, and the reason that the
/// close carried. Only a connection that has left the loop can be finished.
pub open spec fn finished(c: ConnectionView) -> (ConnectionView, Option<CloseReasonView>) {
    match c.phase {
        PhaseView::Closing(reason) => (ConnectionView { phase: PhaseView::Closed, ..c }, reason),
        _ => (c, None),
    }
}

impl Connection {
    /// A connection that was accepted at `now` under the given identity.
    pub fn with_id(id: Uuid, flavor: JambonzRouteType, config: HeartbeatConfig, now: u64) -> (c:
        Connection)
        ensures
            c@ == (ConnectionView {
                id,
                flavor,
                config,
                last_heartbeat: now,
                phase: PhaseView::Open,
            }),
    {
        Connection { id, flavor, config, last_heartbeat: now, phase: Phase::Open }
    }

    /// A connection that was accepted at `now`, under a random identity.
    pub fn open(flavor: JambonzRouteType, config: HeartbeatConfig, now: u64) -> (c: Connection)
        ensures
            c@.flavor == flavor,
            c@.config == config,
            c@.last_heartbeat == now,
            c@.phase is Open,
    {
        Connection::with_id(fresh_id(), flavor, config, now)
    }

    pub fn id(&self) -> (id: Uuid)
        ensures
            id == self@.id,
    {
        self.id
    }

    pub fn flavor(&self) -> (flavor: JambonzRouteType)
        ensures
            flavor == self@.flavor,
    {
        self.flavor
    }

    pub fn config(&self) -> (config: HeartbeatConfig)
        ensures
            config == self@.config,
    {
        self.config
    }

    /// When the peer last sent a ping or a pong; before the first, when the
    /// connection was accepted.
    pub fn last_heartbeat(&self) -> (at: u64)
        ensures
            at == self@.last_heartbeat,
    {
        self.last_heartbeat
    }

    pub fn phase(&self) -> (phase: &Phase)
        ensures
            phase@ == self@.phase,
    {
        &self.phase
    }

    pub fn is_open(&self) -> (open: bool)
        ensures
            open == (self@.phase is Open),
    {
        match &self.phase {
            Phase::Open => true,
            _ => false,
        }
    }

    /// Handles one event at `now`, as the transition table says, and
    /// returns what the loop has to do.
    pub fn step(&mut self, event: Event, now: u64) -> (action: Action)
        ensures
            (final(self)@, action@) == transition(old(self)@, event@, now),
    {
        if !self.is_open() {
            return Action::Idle;
        }
        match event {
            Event::Frame(Classified::Request(request)) => Action::Dispatch(request),
            Event::Frame(Classified::Ping(bytes)) => {
                self.last_heartbeat = now;
                Action::Pong(bytes)
            },
            Event::Frame(Classified::Pong) => {
                self.last_heartbeat = now;
                Action::Idle
            },
            Event::Frame(Classified::Close(reason)) => {
                self.phase = Phase::Closing(clone_reason(&reason));
                Action::DispatchAndStop(JambonzRequest::Close(reason))
            },
            Event::Frame(Classified::Ignored(_)) => Action::Idle,
            Event::TransportError => {
                self.phase = Phase::Closing(None);
                Action::Stop
            },
            Event::StreamEnded => {
                self.phase = Phase::Closing(None);
                Action::Stop
            },
            Event::Tick => {
                if self.config.expired(self.last_heartbeat, now) {
                    self.phase = Phase::Closing(None);
                    Action::Stop
                } else {
                    Action::Ping
                }
            },
        }
    }

    /// Ends a connection that has left the loop, and returns the reason to
    /// close the transport with. On any other connection nothing changes.
    pub fn finish(&mut self) -> (reason: Option<CloseReason>)
        ensures
            (final(self)@, reason_view(reason)) == finished(old(self)@),
    {
        let reason = match &self.phase {
            Phase::Closing(reason) => clone_reason(reason),
            _ => {
                return None;
            },
        };
        self.phase = Phase::Closed;
        reason
    }

    /// The envelope in which a request of this connection reaches the
    /// handler: the connection's identity, the handle to answer on, the
    /// request and the application state.
    pub fn envelope<T>(&self, session: Session, request: JambonzRequest, state: Data<T>) -> (ctx:
        HandlerContext<T>)
        ensures
            ctx.uuid == self@.id,
            ctx.session == session,
            ctx.request == request,
            ctx.state == state,
    {
        HandlerContext { uuid: self.id, session, request, state }
    }
}

} // verus!
