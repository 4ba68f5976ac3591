use vstd::prelude::*;

use crate::frame::{reason_view, CloseReason, CloseReasonView};
use actix_web::web::Data;
use actix_ws::Session;
use cal_jambonz::ws::{SessionRecording, WebsocketRequest};
use uuid::Uuid;

verus! {

/// What a handler is asked to serve.
pub enum JambonzRequest {
    /// A decoded control message of a hook session.
    Hook(WebsocketRequest),
    /// The decoded message that opens a recording session.
    RecordingNew(SessionRecording),
    /// A chunk of a recording, as it arrived.
    Binary(Vec<u8>),
    /// The peer is closing, with the reason it gave, if any.
    Close(Option<CloseReason>),
}

/// The mathematical value of a [`JambonzRequest`].
pub enum RequestView {
    Hook(WebsocketRequest),
    RecordingNew(SessionRecording),
    Binary(Seq<u8>),
    Close(Option<CloseReasonView>),
}

impl View for JambonzRequest {
    type V = RequestView;

    open spec fn view(&self) -> RequestView {
        match *self {
            JambonzRequest::Hook(payload) => RequestView::Hook(payload),
            JambonzRequest::RecordingNew(payload) => RequestView::RecordingNew(payload),
            JambonzRequest::Binary(bytes) => RequestView::Binary(bytes@),
            JambonzRequest::Close(reason) => RequestView::Close(reason_view(reason)),
        }
    }
}

/// The envelope that a handler receives, made anew for each request.
#[verifier::reject_recursive_types(T)]
pub struct HandlerContext<T> {
    /// The identity of the connection that the request arrived on.
    pub uuid: Uuid,
    /// The handle on which to answer the peer.
    pub session: Session,
    pub request: JambonzRequest,
    /// The application state that the server was built with.
    pub state: Data<T>,
}

} // verus!
