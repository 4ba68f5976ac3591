use vstd::prelude::*;

use crate::frame::{reason_view, CloseReason, CloseReasonView, Frame, FrameView};
use crate::trusted::{decode_hook, decode_recording, hook_text_decodes, recording_text_decodes};
use crate::request::{JambonzRequest, RequestView};
use crate::route::JambonzRouteType;
use cal_jambonz::ws::{SessionRecording, WebsocketRequest};

verus! {

/// Why a frame yields neither a request nor a liveness signal.
#[derive(Clone, Copy, Debug, PartialEq, Eq, Structural)]
pub enum Ignored {
    /// A text frame that does not decode into the flavor's payload.
    Malformed,
    /// A binary frame on a hook route.
    UnexpectedBinary,
    /// A continuation frame: fragments are not supported.
    Continuation,
    /// A no-op frame.
    Nop,
}

/// What a frame means on a route of a given flavor.
pub enum Classified {
    /// Content for the handler.
    Request(JambonzRequest),
    /// A probe by the peer, with the bytes to echo.
    Ping(Vec<u8>),
    /// The peer answered a probe.
    Pong,
    /// The peer closes.
    Close(Option<CloseReason>),
    /// Nothing to act on.
    Ignored(Ignored),
}

/// The mathematical value of a [`Classified`].
pub enum ClassifiedView {
    Request(RequestView),
    Ping(Seq<u8>),
    Pong,
    Close(Option<CloseReasonView>),
    Ignored(Ignored),
}

impl View for Classified {
    type V = ClassifiedView;

    open spec fn view(&self) -> ClassifiedView {
        match *self {
            Classified::Request(request) => ClassifiedView::Request(request@),
            Classified::Ping(bytes) => ClassifiedView::Ping(bytes@),
            Classified::Pong => ClassifiedView::Pong,
            Classified::Close(reason) => ClassifiedView::Close(reason_view(reason)),
            Classified::Ignored(why) => ClassifiedView::Ignored(why),
        }
    }
}

/// The classification rule. Every frame but a text frame that decodes has
/// exactly one classification; a text frame that decodes is a request of
/// the flavor's kind, whose payload is whatever the decoder produced.
pub open spec fn classifies(flavor: JambonzRouteType, frame: FrameView, out: ClassifiedView) -> bool {
    match frame {
        FrameView::Text(text) => match flavor {
            JambonzRouteType::Hook => if hook_text_decodes(text) {
                out matches ClassifiedView::Request(request) && request is Hook
            } else {
                out == ClassifiedView::Ignored(Ignored::Malformed)
            },
            JambonzRouteType::Recording => if recording_text_decodes(text) {
                out matches ClassifiedView::Request(request) && request is RecordingNew
            } else {
                out == ClassifiedView::Ignored(Ignored::Malformed)
            },
        },
        FrameView::Binary(bytes) => match flavor {
            JambonzRouteType::Hook => out == ClassifiedView::Ignored(Ignored::UnexpectedBinary),
            JambonzRouteType::Recording => out == ClassifiedView::Request(
                RequestView::Binary(bytes),
            ),
        },
        FrameView::Ping(bytes) => out == ClassifiedView::Ping(bytes),
        FrameView::Pong(_) => out == ClassifiedView::Pong,
        FrameView::Close(reason) => out == ClassifiedView::Close(reason),
        FrameView::Continuation => out == ClassifiedView::Ignored(Ignored::Continuation),
        FrameView::Nop => out == ClassifiedView::Ignored(Ignored::Nop),
    }
}

/// Classifies a text frame of a hook route from what its decoder returned:
/// the decoded message becomes a request, a failure drops the frame.
pub fn hook_text(decoded: Result<WebsocketRequest, serde_json::Error>) -> (out: Classified)
    ensures
        out@ == match decoded {
            Ok(payload) => ClassifiedView::Request(RequestView::Hook(payload)),
            Err(_) => ClassifiedView::Ignored(Ignored::Malformed),
        },
{
    match decoded {
        Ok(payload) => Classified::Request(JambonzRequest::Hook(payload)),
        Err(_) => Classified::Ignored(Ignored::Malformed),
    }
}

/// Classifies a text frame of a recording route from what its decoder
/// returned: the decoded message becomes a request, a failure drops the
/// frame.
pub fn recording_text(decoded: Result<SessionRecording, serde_json::Error>) -> (out: Classified)
    ensures
        out@ == match decoded {
            Ok(payload) => ClassifiedView::Request(RequestView::RecordingNew(payload)),
            Err(_) => ClassifiedView::Ignored(Ignored::Malformed),
        },
{
    match decoded {
        Ok(payload) => Classified::Request(JambonzRequest::RecordingNew(payload)),
        Err(_) => Classified::Ignored(Ignored::Malformed),
    }
}

/// Classifies one inbound frame on a route of the given flavor.
///
/// Text is decoded as the flavor's JSON payload. Binary is a request on a
/// recording route and nothing on a hook route. Ping, pong and close keep
/// their meaning on both; continuation and no-op frames are ignored.
pub fn classify(flavor: JambonzRouteType, frame: Frame) -> (out: Classified)
    ensures
        classifies(flavor, frame@, out@),
{
    match frame {
        Frame::Text(text) => match flavor {
            JambonzRouteType::Hook => hook_text(decode_hook(text.as_str())),
            JambonzRouteType::Recording => recording_text(decode_recording(text.as_str())),
        },
        Frame::Binary(bytes) => match flavor {
            JambonzRouteType::Hook => Classified::Ignored(Ignored::UnexpectedBinary),
            JambonzRouteType::Recording => Classified::Request(JambonzRequest::Binary(bytes)),
        },
        Frame::Ping(bytes) => Classified::Ping(bytes),
        Frame::Pong(_) => Classified::Pong,
        Frame::Close(reason) => Classified::Close(reason),
        Frame::Continuation => Classified::Ignored(Ignored::Continuation),
        Frame::Nop => Classified::Ignored(Ignored::Nop),
    }
}

} // verus!
