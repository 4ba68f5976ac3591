use cal_jambonz::ws::{SessionRecording, WebsocketRequest};
use jambonz_ws::classify::{classify, hook_text, recording_text, Classified, Ignored};
use jambonz_ws::frame::{CloseReason, Frame};
use jambonz_ws::request::JambonzRequest;
use jambonz_ws::route::JambonzRouteType;

const RECORDING_NEW: &str = "{\"callSid\":\"c-1\",\"accountSid\":\"a-1\",\"applicationSid\":\"app-1\",\
\"from\":\"+15550001\",\"to\":\"+15550002\",\"callerId\":\"alice\",\"callId\":\"id-1\",\
\"callStatus\":\"Trying\",\"sipStatus\":100,\"sipReason\":\"Trying\",\
\"localSipAddress\":\"10.0.0.1:5060\",\"publicIp\":\"192.0.2.1\",\"sbcCallid\":\"sbc-1\",\
\"mixType\":\"stereo\",\"sampleRate\":8000,\"extra\":\"kept\"}";

#[test]
fn protocol_of_hook_is_ws() {
    assert_eq!(JambonzRouteType::Hook.protocol(), "ws.jambonz.org");
}

#[test]
fn protocol_of_recording_is_audio() {
    assert_eq!(JambonzRouteType::Recording.protocol(), "audio.jambonz.org");
}

#[test]
fn hook_text_that_decodes_is_a_hook_request() {
    let out = classify(JambonzRouteType::Hook, Frame::Text("{\"type\":\"Close\"}".to_string()));
    match out {
        Classified::Request(JambonzRequest::Hook(payload)) => {
            assert!(matches!(payload, WebsocketRequest::Close));
        }
        _ => panic!("expected a hook request"),
    }
}

#[test]
fn hook_text_that_is_no_json_is_malformed() {
    let out = classify(JambonzRouteType::Hook, Frame::Text("{not json".to_string()));
    assert!(matches!(out, Classified::Ignored(Ignored::Malformed)));
}

#[test]
fn hook_text_of_unknown_type_is_malformed() {
    let out = classify(JambonzRouteType::Hook, Frame::Text("{\"type\":\"new\"}".to_string()));
    assert!(matches!(out, Classified::Ignored(Ignored::Malformed)));
}

#[test]
fn hook_text_that_is_empty_is_malformed() {
    let out = classify(JambonzRouteType::Hook, Frame::Text(String::new()));
    assert!(matches!(out, Classified::Ignored(Ignored::Malformed)));
}

#[test]
fn recording_text_that_decodes_opens_a_recording() {
    let out = classify(JambonzRouteType::Recording, Frame::Text(RECORDING_NEW.to_string()));
    match out {
        Classified::Request(JambonzRequest::RecordingNew(payload)) => {
            assert_eq!(payload.call_sid, "c-1");
            assert_eq!(payload.sample_rate, 8000);
            assert_eq!(payload.mix_type, "stereo");
            assert!(payload.parent_call_sid.is_none());
            assert_eq!(payload.metadata.get("extra").and_then(|v| v.as_str()), Some("kept"));
        }
        _ => panic!("expected the opening of a recording"),
    }
}

#[test]
fn recording_text_with_missing_fields_is_malformed() {
    let out = classify(JambonzRouteType::Recording, Frame::Text("{\"type\":\"new\"}".to_string()));
    assert!(matches!(out, Classified::Ignored(Ignored::Malformed)));
}

#[test]
fn a_hook_message_is_no_recording_message() {
    let out = classify(JambonzRouteType::Recording, Frame::Text("{\"type\":\"Close\"}".to_string()));
    assert!(matches!(out, Classified::Ignored(Ignored::Malformed)));
}

#[test]
fn a_recording_message_is_no_hook_message() {
    let out = classify(JambonzRouteType::Hook, Frame::Text(RECORDING_NEW.to_string()));
    assert!(matches!(out, Classified::Ignored(Ignored::Malformed)));
}

#[test]
fn binary_on_a_hook_route_is_ignored() {
    let out = classify(JambonzRouteType::Hook, Frame::Binary(vec![1, 2, 3]));
    assert!(matches!(out, Classified::Ignored(Ignored::UnexpectedBinary)));
}

#[test]
fn binary_on_a_recording_route_is_a_request_with_the_same_bytes() {
    let out = classify(JambonzRouteType::Recording, Frame::Binary(vec![0, 255, 7, 7]));
    match out {
        Classified::Request(JambonzRequest::Binary(bytes)) => assert_eq!(bytes, vec![0, 255, 7, 7]),
        _ => panic!("expected a binary request"),
    }
}

#[test]
fn empty_binary_on_a_recording_route_is_still_a_request() {
    let out = classify(JambonzRouteType::Recording, Frame::Binary(Vec::new()));
    match out {
        Classified::Request(JambonzRequest::Binary(bytes)) => assert!(bytes.is_empty()),
        _ => panic!("expected a binary request"),
    }
}

#[test]
fn ping_keeps_its_bytes_on_both_flavors() {
    for flavor in [JambonzRouteType::Hook, JambonzRouteType::Recording] {
        match classify(flavor, Frame::Ping(vec![9, 8])) {
            Classified::Ping(bytes) => assert_eq!(bytes, vec![9, 8]),
            _ => panic!("expected a ping"),
        }
    }
}

#[test]
fn pong_is_a_pong_on_both_flavors() {
    for flavor in [JambonzRouteType::Hook, JambonzRouteType::Recording] {
        assert!(matches!(classify(flavor, Frame::Pong(vec![1])), Classified::Pong));
    }
}

#[test]
fn close_keeps_its_reason_on_both_flavors() {
    for flavor in [JambonzRouteType::Hook, JambonzRouteType::Recording] {
        let reason = CloseReason { code: 1001, description: Some("going away".to_string()) };
        match classify(flavor, Frame::Close(Some(reason))) {
            Classified::Close(Some(reason)) => {
                assert_eq!(reason.code, 1001);
                assert_eq!(reason.description.as_deref(), Some("going away"));
            }
            _ => panic!("expected a close with its reason"),
        }
        assert!(matches!(classify(flavor, Frame::Close(None)), Classified::Close(None)));
    }
}

#[test]
fn continuation_and_nop_are_ignored_on_both_flavors() {
    for flavor in [JambonzRouteType::Hook, JambonzRouteType::Recording] {
        assert!(matches!(
            classify(flavor, Frame::Continuation),
            Classified::Ignored(Ignored::Continuation)
        ));
        assert!(matches!(classify(flavor, Frame::Nop), Classified::Ignored(Ignored::Nop)));
    }
}

#[test]
fn a_decoded_hook_message_becomes_a_request() {
    let out = hook_text(Ok(WebsocketRequest::Close));
    assert!(matches!(out, Classified::Request(JambonzRequest::Hook(WebsocketRequest::Close))));
}

#[test]
fn a_failed_hook_decoding_drops_the_frame() {
    let failure = serde_json::from_str::<WebsocketRequest>("[").err().unwrap();
    assert!(matches!(hook_text(Err(failure)), Classified::Ignored(Ignored::Malformed)));
}

#[test]
fn a_decoded_recording_message_becomes_a_request() {
    let payload = serde_json::from_str::<SessionRecording>(RECORDING_NEW).unwrap();
    match recording_text(Ok(payload)) {
        Classified::Request(JambonzRequest::RecordingNew(payload)) => {
            assert_eq!(payload.account_sid, "a-1")
        }
        _ => panic!("expected the opening of a recording"),
    }
}

#[test]
fn a_failed_recording_decoding_drops_the_frame() {
    let failure = serde_json::from_str::<SessionRecording>("{}").err().unwrap();
    assert!(matches!(recording_text(Err(failure)), Classified::Ignored(Ignored::Malformed)));
}

#[test]
fn a_close_reason_is_cloned_field_by_field() {
    let reason = CloseReason { code: 4000, description: Some("custom".to_string()) };
    assert_eq!(reason.clone(), reason);
    let bare = CloseReason { code: 1000, description: None };
    assert_eq!(bare.clone(), bare);
}
