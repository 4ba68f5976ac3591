use vstd::prelude::*;

verus! {

/// Why the peer closed the transport: a close code and an optional text.
#[derive(Debug, PartialEq, Eq)]
pub struct CloseReason {
    pub code: u16,
    pub description: Option<String>,
}

/// The mathematical value of a [`CloseReason`].
pub struct CloseReasonView {
    pub code: u16,
    pub description: Option<Seq<char>>,
}

impl View for CloseReason {
    type V = CloseReasonView;

    open spec fn view(&self) -> CloseReasonView {
        CloseReasonView {
            code: self.code,
            description: match self.description {
                Some(text) => Some(text@),
                None => None,
            },
        }
    }
}

impl Clone for CloseReason {
    fn clone(&self) -> (copy: Self)
        ensures
            copy@ == self@,
    {
        let description = match &self.description {
            Some(text) => Some(text.clone()),
            None => None,
        };
        CloseReason { code: self.code, description }
    }
}

/// The value of an optional close reason.
pub open spec fn reason_view(reason: Option<CloseReason>) -> Option<CloseReasonView> {
    match reason {
        Some(r) => Some(r@),
        None => None,
    }
}

/// Copies an optional close reason.
pub fn clone_reason(reason: &Option<CloseReason>) -> (copy: Option<CloseReason>)
    ensures
        reason_view(copy) == reason_view(*reason),
{
    match reason {
        Some(r) => Some(r.clone()),
        None => None,
    }
}

/// One discrete unit of the inbound message stream.
#[derive(Debug, PartialEq, Eq)]
pub enum Frame {
    /// UTF-8 text; on both flavors it is expected to hold JSON.
    Text(String),
    /// An opaque byte payload.
    Binary(Vec<u8>),
    /// A liveness probe by the peer, to be answered with the same bytes.
    Ping(Vec<u8>),
    /// The peer's answer to a probe.
    Pong(Vec<u8>),
    /// The peer closes, with or without a reason.
    Close(Option<CloseReason>),
    /// A fragment of a larger message.
    Continuation,
    /// Nothing.
    Nop,
}

/// The mathematical value of a [`Frame`].
pub enum FrameView {
    Text(Seq<char>),
    Binary(Seq<u8>),
    Ping(Seq<u8>),
    Pong(Seq<u8>),
    Close(Option<CloseReasonView>),
    Continuation,
    Nop,
}

impl View for Frame {
    type V = FrameView;

    open spec fn view(&self) -> FrameView {
        match *self {
            Frame::Text(text) => FrameView::Text(text@),
            Frame::Binary(bytes) => FrameView::Binary(bytes@),
            Frame::Ping(bytes) => FrameView::Ping(bytes@),
            Frame::Pong(bytes) => FrameView::Pong(bytes@),
            Frame::Close(reason) => FrameView::Close(reason_view(reason)),
            Frame::Continuation => FrameView::Continuation,
            Frame::Nop => FrameView::Nop,
        }
    }
}

} // verus!
