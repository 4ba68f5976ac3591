use vstd::prelude::*;

use crate::error::ConstructionError;
use crate::heartbeat::{HeartbeatConfig, CLIENT_TIMEOUT, HEARTBEAT_INTERVAL};
use crate::route::JambonzRoute;

verus! {

/// The paths of a list of routes, in order.
pub open spec fn paths<H>(routes: Seq<JambonzRoute<H>>) -> Seq<Seq<char>> {
    Seq::new(routes.len(), |i: int| routes[i].path@)
}

/// Whether no two routes of a list share a path.
pub open spec fn distinct_paths<H>(routes: Seq<JambonzRoute<H>>) -> bool {
    forall|i: int, j: int|
        0 <= i < j < routes.len() ==> (#[trigger] routes[i]).path@ != (#[trigger] routes[j]).path@
}

/// Whether a list of routes holds one with the given path.
pub open spec fn has_path<H>(routes: Seq<JambonzRoute<H>>, path: Seq<char>) -> bool {
    exists|i: int| 0 <= i < routes.len() && (#[trigger] routes[i]).path@ == path
}

/// What a server is built from: where it binds, the application state that
/// every handler receives, the heartbeat settings of its connections, and
/// its routes in the order of their registration. No two routes share a
/// path.
pub struct JambonzWebServer<T, H> {
    bind_ip: String,
    bind_port: u16,
    app_state: T,
    heartbeat: HeartbeatConfig,
    routes: Vec<JambonzRoute<H>>,
}

/// The mathematical value of a [`JambonzWebServer`].
pub struct ServerView<T, H> {
    pub bind_ip: Seq<char>,
    pub bind_port: u16,
    pub app_state: T,
    pub heartbeat: HeartbeatConfig,
    pub routes: Seq<JambonzRoute<H>>,
}

impl<T, H> View for JambonzWebServer<T, H> {
    type V = ServerView<T, H>;

    closed spec fn view(&self) -> ServerView<T, H> {
        ServerView {
            bind_ip: self.bind_ip@,
            bind_port: self.bind_port,
            app_state: self.app_state,
            heartbeat: self.heartbeat,
            routes: self.routes@,
        }
    }
}

impl<T, H> JambonzWebServer<T, H> {
    #[verifier::type_invariant]
    spec fn well_formed(self) -> bool {
        distinct_paths(self.routes@)
    }

    /// A server without routes that binds to every address on port 8080 and
    /// keeps the default heartbeat.
    pub fn new(app_state: T) -> (server: Self)
        ensures
            server@.bind_ip == "0.0.0.0"@,
            server@.bind_port == 8080,
            server@.app_state == app_state,
            server@.heartbeat.spec_interval() == HEARTBEAT_INTERVAL,
            server@.heartbeat.spec_timeout() == CLIENT_TIMEOUT,
            server@.routes == Seq::<JambonzRoute<H>>::empty(),
    {
        JambonzWebServer {
            app_state,
            bind_ip: "0.0.0.0".to_owned(),
            bind_port: 8080,
            heartbeat: HeartbeatConfig::default(),
            routes: Vec::new(),
        }
    }

    /// The same server, bound to another address.
    pub fn with_bind_ip(self, ip: &str) -> (server: Self)
        ensures
            server@ == (ServerView { bind_ip: ip@, ..self@ }),
    {
        proof {
            use_type_invariant(&self);
        }
        JambonzWebServer { bind_ip: ip.to_owned(), ..self }
    }

    /// The same server, bound to another port.
    pub fn with_bind_port(self, port: u16) -> (server: Self)
        ensures
            server@ == (ServerView { bind_port: port, ..self@ }),
    {
        proof {
            use_type_invariant(&self);
        }
        JambonzWebServer { bind_port: port, ..self }
    }

    /// The same server, with other heartbeat settings for its connections.
    pub fn with_heartbeat(self, heartbeat: HeartbeatConfig) -> (server: Self)
        ensures
            server@ == (ServerView { heartbeat, ..self@ }),
    {
        proof {
            use_type_invariant(&self);
        }
        JambonzWebServer { heartbeat, ..self }
    }

    /// Whether a route is registered under the given path.
    pub fn has_route(&self, path: &String) -> (found: bool)
        ensures
            found == has_path(self@.routes, path@),
    {
        let mut i: usize = 0;
        while i < self.routes.len()
            invariant
                i <= self.routes.len(),
                forall|k: int| 0 <= k < i ==> (#[trigger] self.routes@[k]).path@ != path@,
            decreases self.routes.len() - i,
        {
            if self.routes[i].path == *path {
                return true;
            }
            i += 1;
        }
        false
    }

    /// Registers a route behind those that are registered already. A route
    /// whose path is taken is refused, and the error names the path.
    pub fn add_route(self, route: JambonzRoute<H>) -> (added: Result<Self, ConstructionError>)
        ensures
            added is Err <==> has_path(self@.routes, route.path@),
            added matches Ok(server) ==> server@ == (ServerView {
                routes: self@.routes.push(route),
                ..self@
            }),
            added matches Err(e) ==> e matches ConstructionError::DuplicatePath(path) && path@
                == route.path@,
    {
        proof {
            use_type_invariant(&self);
        }
        if self.has_route(&route.path) {
            return Err(ConstructionError::DuplicatePath(route.path));
        }
        let JambonzWebServer { bind_ip, bind_port, app_state, heartbeat, mut routes } = self;
        routes.push(route);
        Ok(JambonzWebServer { bind_ip, bind_port, app_state, heartbeat, routes })
    }

    pub fn bind_ip(&self) -> (ip: &String)
        ensures
            ip@ == self@.bind_ip,
    {
        &self.bind_ip
    }

    pub fn bind_port(&self) -> (port: u16)
        ensures
            port == self@.bind_port,
    {
        self.bind_port
    }

    pub fn app_state(&self) -> (state: &T)
        ensures
            *state == self@.app_state,
    {
        &self.app_state
    }

    pub fn heartbeat(&self) -> (heartbeat: HeartbeatConfig)
        ensures
            heartbeat == self@.heartbeat,
    {
        self.heartbeat
    }

    /// The routes in the order of their registration. No two share a path.
    pub fn routes(&self) -> (routes: &Vec<JambonzRoute<H>>)
        ensures
            routes@ == self@.routes,
            distinct_paths(routes@),
    {
        proof {
            use_type_invariant(self);
        }
        &self.routes
    }
}

/// A sample of application state: one message.
pub struct TestData {
    pub message: String,
}

impl Clone for TestData {
    fn clone(&self) -> (copy: Self)
        ensures
            copy.message@ == self.message@,
    {
        TestData { message: self.message.clone() }
    }
}

} // verus!
