use vstd::prelude::*;

use cal_jambonz::ws::{SessionRecording, WebsocketRequest};

verus! {

/// `cal_jambonz::ws::WebsocketRequest`, the control message of a hook
/// session. Nothing is assumed of its contents: the library only carries it
/// from the decoder to the handler.
#[verifier::external_type_specification]
#[verifier::external_body]
pub struct ExWebsocketRequest(cal_jambonz::ws::WebsocketRequest);

/// `cal_jambonz::ws::SessionRecording`, the message that opens a recording
/// session. Nothing is assumed of its contents.
#[verifier::external_type_specification]
#[verifier::external_body]
pub struct ExSessionRecording(cal_jambonz::ws::SessionRecording);

/// `serde_json::Error`. Nothing is assumed of its contents.
#[verifier::external_type_specification]
#[verifier::external_body]
pub struct ExJsonError(serde_json::Error);

/// `uuid::Uuid`, the identity of a connection. Nothing is assumed of its
/// contents.
#[verifier::external_type_specification]
#[verifier::external_body]
pub struct ExUuid(uuid::Uuid);

/// `actix_ws::Session`, the handle on which a handler answers the peer.
/// Nothing is assumed of its contents.
#[verifier::external_type_specification]
#[verifier::external_body]
pub struct ExSession(actix_ws::Session);

/// `actix_web::web::Data`, the shared application state. Nothing is assumed
/// of its contents.
#[verifier::external_type_specification]
#[verifier::external_body]
#[verifier::reject_recursive_types(T)]
pub struct ExData<T: ?Sized>(actix_web::web::Data<T>);

/// Whether `serde_json::from_str` accepts `text` as a
/// `cal_jambonz::ws::WebsocketRequest`.
pub uninterp spec fn hook_text_decodes(text: Seq<char>) -> bool;

/// Whether `serde_json::from_str` accepts `text` as a
/// `cal_jambonz::ws::SessionRecording`.
pub uninterp spec fn recording_text_decodes(text: Seq<char>) -> bool;

/// `serde_json::from_str` at `cal_jambonz::ws::WebsocketRequest`.
///
/// Assumed: whether the call succeeds depends on the text alone. What a
/// successful call returns is left open.
#[verifier::external_body]
pub(crate) fn decode_hook(text: &str) -> (decoded: Result<WebsocketRequest, serde_json::Error>)
    ensures
        (decoded is Ok) == hook_text_decodes(text@),
{
    serde_json::from_str(text)
}

/// `serde_json::from_str` at `cal_jambonz::ws::SessionRecording`.
///
/// Assumed: whether the call succeeds depends on the text alone. What a
/// successful call returns is left open.
#[verifier::external_body]
pub(crate) fn decode_recording(text: &str) -> (decoded: Result<
    SessionRecording,
    serde_json::Error,
>)
    ensures
        (decoded is Ok) == recording_text_decodes(text@),
{
    serde_json::from_str(text)
}

/// `uuid::Uuid::new_v4`: a random identifier. Nothing is assumed of it, so
/// two calls may or may not agree. The call takes no input; it fails only
/// where the operating system has no random bytes to give.
#[verifier::external_body]
pub(crate) fn fresh_id() -> uuid::Uuid {
    uuid::Uuid::new_v4()
}

} // verus!
