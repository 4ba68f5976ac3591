use vstd::prelude::*;

verus! {

/// The semantic mode of a route: a single-shot JSON hook exchange, or a
/// streaming recording session that mixes JSON control messages with audio.
#[derive(Clone, Copy, Debug, PartialEq, Eq, Structural)]
pub enum JambonzRouteType {
    Hook,
    Recording,
}

impl JambonzRouteType {
    /// The sub-protocol name that the handshake answers with for this flavor.
    pub open spec fn spec_protocol(self) -> Seq<char> {
        match self {
            JambonzRouteType::Hook => "ws.jambonz.org"@,
            JambonzRouteType::Recording => "audio.jambonz.org"@,
        }
    }

    /// The value of the negotiated sub-protocol response header. It depends
    /// on the flavor alone.
    pub fn protocol(&self) -> (name: &'static str)
        ensures
            name@ == self.spec_protocol(),
    {
        match self {
            JambonzRouteType::Hook => "ws.jambonz.org",
            JambonzRouteType::Recording => "audio.jambonz.org",
        }
    }
}

/// A registered endpoint: the path it answers on, its flavor, and the
/// handler that serves its requests. It does not change once registered.
pub struct JambonzRoute<H> {
    pub path: String,
    pub ws_type: JambonzRouteType,
    pub handler: H,
}

impl<H: Clone> Clone for JambonzRoute<H> {
    /// A route with the same path and flavor, and a clone of the handler.
    fn clone(&self) -> (copy: Self)
        ensures
            copy.path@ == self.path@,
            copy.ws_type == self.ws_type,
            cloned(self.handler, copy.handler),
    {
        JambonzRoute {
            path: self.path.clone(),
            ws_type: self.ws_type,
            handler: self.handler.clone(),
        }
    }
}

} // verus!
