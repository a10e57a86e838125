use messaging_app_backend::chat_session::{
    frame_response, heartbeat_expired, token_from_query, FrameError, FrameResponse, IncomingFrame,
    Session, UpdateUserStatus,
};
use messaging_app_backend::signaling::{
    call_notice, group_call_notice, relay_targets, route_signal, socket_action, SignalRoute,
    SocketAction,
};

const USER: &str = "11111111-1111-1111-1111-111111111111";
const PEER: &str = "22222222-2222-2222-2222-222222222222";

#[test]
fn call_offers_are_relayed_with_the_caller() {
    let text = format!(r#"{{"type":"call-offer","to":"{PEER}","sdp":"x"}}"#);
    match socket_action(USER, &text) {
        SocketAction::RelayCall { to, relay, notify } => {
            assert_eq!(to, PEER);
            assert!(notify);
            let v: serde_json::Value = serde_json::from_str(&relay.unwrap()).unwrap();
            assert_eq!(v["from"], USER);
            assert_eq!(v["sdp"], "x");
        }
        other => panic!("unexpected {other:?}"),
    }
    match socket_action(USER, r#"{"type":"call-offer","to":"bob"}"#) {
        SocketAction::RelayCall { to, notify, .. } => {
            assert_eq!(to, "bob");
            assert!(!notify);
        }
        other => panic!("unexpected {other:?}"),
    }
    match socket_action(USER, r#"{"type":"call-offer","to":5}"#) {
        SocketAction::RelayCall { to, .. } => assert_eq!(to, ""),
        other => panic!("unexpected {other:?}"),
    }
}

#[test]
fn group_signals_and_chat_fallback() {
    let offer = format!(r#"{{"type":"group-call-offer","to":"{PEER}","from":"{USER}"}}"#);
    match socket_action(USER, &offer) {
        SocketAction::RelayGroup { to, from, notify } => {
            assert_eq!(to, PEER);
            assert_eq!(from, USER);
            assert!(notify);
        }
        other => panic!("unexpected {other:?}"),
    }
    match socket_action(USER, r#"{"type":"group-ice-candidate","to":"","from":"a"}"#) {
        SocketAction::RelayGroup { to, from, notify } => {
            assert_eq!(to, "");
            assert_eq!(from, "a");
            assert!(!notify);
        }
        other => panic!("unexpected {other:?}"),
    }
    assert!(matches!(socket_action(USER, r#"{"type":"group-call-answer","to":"a"}"#), SocketAction::Skip));
    assert!(matches!(socket_action(USER, r#"{"type":"call-offer"}"#), SocketAction::Chat));
    assert!(matches!(socket_action(USER, r#"{"content":"hi"}"#), SocketAction::Chat));
    assert!(matches!(socket_action(USER, "not json"), SocketAction::Chat));
    assert!(matches!(socket_action(USER, r#"{"type":"message"}"#), SocketAction::Chat));
}

#[test]
fn routes_from_field_lookups() {
    let s = |x: &str| Some(Some(Some(x.to_string())));
    assert!(matches!(route_signal(None, None, None), SignalRoute::Chat));
    assert!(matches!(route_signal(s("call-offer"), Some(None), None), SignalRoute::Chat));
    match route_signal(s("call-offer"), Some(Some(None)), None) {
        SignalRoute::Call { to } => assert_eq!(to, ""),
        other => panic!("unexpected {other:?}"),
    }
    assert!(matches!(route_signal(s("group-call-offer"), s("g"), Some(None)), SignalRoute::Skip));
}

#[test]
fn relays_never_reach_the_sender() {
    let connected: Vec<String> = ["a", "b", "c"].iter().map(|x| x.to_string()).collect();
    assert_eq!(relay_targets(&connected, "", "a"), vec!["b".to_string(), "c".to_string()]);
    assert_eq!(relay_targets(&connected, "c", "a"), vec!["c".to_string()]);
    assert_eq!(relay_targets(&connected, "a", "a"), Vec::<String>::new());
    assert_eq!(relay_targets(&connected, "z", "a"), Vec::<String>::new());
}

#[test]
fn notices() {
    let n = call_notice();
    assert_eq!(n.title, "Incoming Call");
    assert_eq!(n.data, vec![("type".to_string(), "call-offer".to_string())]);
    let g = group_call_notice("g1");
    assert_eq!(g.body, "You have an incoming group call!");
    assert_eq!(g.data[1], ("group_id".to_string(), "g1".to_string()));
}

#[test]
fn query_tokens() {
    assert_eq!(token_from_query("token=abc"), Some("abc".to_string()));
    assert_eq!(token_from_query("a=1&token=xyz&b=2"), Some("xyz".to_string()));
    assert_eq!(token_from_query("token=a=b"), Some("a".to_string()));
    assert_eq!(token_from_query("token="), Some(String::new()));
    assert_eq!(token_from_query("tok=1"), None);
    assert_eq!(token_from_query(""), None);
}

#[test]
fn session_frames() {
    let s = Session::new("u1".to_string());
    assert_eq!(s.id.len(), 36);
    assert_eq!(s.handle_message(r#"{"type":"message","content":"hi","chat_id":"c"}"#), Ok(()));
    assert_eq!(s.handle_message(r#"{"type":"message","chat_id":"c"}"#), Err(FrameError::MissingContent));
    assert_eq!(s.handle_message(r#"{"type":"message","content":"hi"}"#), Err(FrameError::MissingChatId));
    assert_eq!(s.handle_message(r#"{"type":"status"}"#), Ok(()));
    assert_eq!(s.handle_message(r#"{"type":"typing"}"#), Err(FrameError::InvalidType));
    assert_eq!(s.handle_message(r#"[1,2]"#), Err(FrameError::InvalidType));
    assert_eq!(s.handle_message("{"), Err(FrameError::Malformed));
    assert_eq!(FrameError::MissingChatId.status_and_message(), (400, Some("Missing chat_id")));
    assert!(s.forwards_broadcast("c", "c"));
    assert!(!s.forwards_broadcast("c", "d"));
    let mine = UpdateUserStatus { user_id: "u1".to_string(), status: "online".to_string() };
    let other = UpdateUserStatus { user_id: "u2".to_string(), status: "online".to_string() };
    assert!(s.forwards_status(&mine));
    assert!(!s.forwards_status(&other));
}

#[test]
fn heartbeat_and_frames() {
    assert!(!heartbeat_expired(30_000_000_000));
    assert!(heartbeat_expired(30_000_000_001));
    assert_eq!(frame_response(IncomingFrame::Ping), FrameResponse::RefreshAndPong);
    assert_eq!(frame_response(IncomingFrame::Close), FrameResponse::CloseAndStop);
    assert_eq!(frame_response(IncomingFrame::Other), FrameResponse::Stop);
}
