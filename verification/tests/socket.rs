use slack_zc::directory::{UserCache, UserDirectory};
use slack_zc::json::Json;
use slack_zc::socket::{
    ack_frame, FrameAction, handle_frame, handle_message, needs_refresh, parse_event, parse_message,
    redact_socket_url, SessionAction, SessionEnd, SessionInput, SessionPhase, SlackEvent,
    SocketModeClient, IDLE_TIMEOUT_MS, INITIAL_BACKOFF_MS, MAX_RECONNECT_BACKOFF_MS,
};
use slack_zc::types::{Message, User};

fn parse(text: &str) -> Json {
    Json::parse(text).expect("valid JSON")
}

fn directory() -> UserDirectory {
    UserDirectory::from_users(vec![User {
        id: "U123".to_string(),
        name: "tester".to_string(),
        display_name: "Tester".to_string(),
        real_name: String::new(),
        email: None,
    }])
}

fn client() -> SocketModeClient {
    SocketModeClient::new("xapp-test".to_string(), "xoxp-test".to_string())
}

#[test]
fn test_redact_socket_url_removes_query_params() {
    let url = "wss://example.com?token=abc123&team=T123";
    let redacted = redact_socket_url(url);
    assert!(!redacted.contains("token"));
    assert!(!redacted.contains("abc123"));
}

#[test]
fn redact_socket_url_keeps_the_part_before_the_query() {
    assert_eq!(redact_socket_url("wss://example.com/link?ticket=1&x=2"), "wss://example.com/link");
    assert_eq!(redact_socket_url("wss://example.com"), "wss://example.com");
    assert_eq!(redact_socket_url("?a=b"), "");
    assert_eq!(redact_socket_url("a?b?c"), "a");
    assert_eq!(redact_socket_url(""), "");
}

#[test]
fn test_slack_event_enum_variants() {
    let _event1 = SlackEvent::Connected;
    let _event2 = SlackEvent::Disconnected;
    let _event3 = SlackEvent::Message {
        channel: "C123".to_string(),
        message: Message {
            ts: "123.456".to_string(),
            user_id: "U123".to_string(),
            username: "test".to_string(),
            text: "Hello".to_string(),
            thread_ts: None,
            timestamp: 123,
            is_agent: false,
            reactions: Vec::new(),
            is_edited: false,
            is_deleted: false,
            files: Vec::new(),
            reply_count: None,
            last_read: None,
        },
    };
}

#[test]
fn test_channel_event_variants() {
    let _client = client();
    let event = SlackEvent::ChannelJoined { channel: "C123".to_string() };
    match event {
        SlackEvent::ChannelJoined { .. } => {}
        _ => panic!("Expected ChannelJoined variant"),
    }
}

#[test]
fn message_frames_become_message_events() {
    let frame = r#"{"envelope_id":"E1","type":"events_api","payload":{"event":
        {"type":"message","channel":"C_ONE","user":"U123","text":"hello","ts":"1730000000.100000","thread_ts":"1000.1"}}}"#;
    let outcome = handle_message(frame, &directory());
    assert_eq!(outcome.ack.as_deref(), Some("E1"));
    assert!(!outcome.disconnect);
    match outcome.event {
        Some(SlackEvent::Message { channel, message }) => {
            assert_eq!(channel, "C_ONE");
            assert_eq!(message.username, "Tester");
            assert_eq!(message.user_id, "U123");
            assert_eq!(message.text, "hello");
            assert_eq!(message.ts, "1730000000.100000");
            assert_eq!(message.timestamp, 1_730_000_000);
            assert_eq!(message.thread_ts.as_deref(), Some("1000.1"));
            assert!(message.reactions.is_empty() && message.files.is_empty());
            assert!(!message.is_edited && !message.is_deleted && !message.is_agent);
            assert_eq!(message.reply_count, None);
        }
        other => panic!("unexpected event {:?}", other),
    }
}

#[test]
fn other_frames_translate_or_are_ignored() {
    let users = directory();
    let event = |text: &str| parse_event(&parse(text), &users);
    assert!(matches!(
        event(r#"{"type":"user_typing","channel":"C1","user":"U1"}"#),
        Some(SlackEvent::UserTyping { channel, user }) if channel == "C1" && user == "U1"
    ));
    assert!(event(r#"{"type":"user_typing","channel":"C1"}"#).is_none());
    assert!(matches!(
        event(r#"{"type":"member_joined_channel","channel":"C1"}"#),
        Some(SlackEvent::ChannelJoined { channel }) if channel == "C1"
    ));
    assert!(matches!(
        event(r#"{"type":"member_left_channel","channel":"C1"}"#),
        Some(SlackEvent::ChannelLeft { channel }) if channel == "C1"
    ));
    assert!(event(r#"{"type":"member_left_channel"}"#).is_none());
    assert!(event(r#"{"type":"reaction_added","channel":"C1"}"#).is_none());
    assert!(event(r#"{"channel":"C1"}"#).is_none());
    assert!(event(
        r#"{"type":"message","subtype":"bot_message","channel":"C1","user":"U1","text":"x","ts":"1.0"}"#
    )
    .is_none());
    assert!(event(r#"{"type":"message","channel":"C1","user":"U1","text":"x"}"#).is_none());
    assert!(parse_message(&parse(r#"{"channel":"C1","user":"U1","text":"x","ts":"x.0"}"#), &users).is_none());
    let (channel, message) =
        parse_message(&parse(r#"{"channel":"C1","user":"U404","text":"x","ts":"5.0"}"#), &users).unwrap();
    assert_eq!(channel, "C1");
    assert_eq!(message.username, "U404");
}

#[test]
fn hello_disconnect_and_garbage_frames() {
    let users = directory();
    let hello = handle_message(r#"{"type":"hello","envelope_id":"E0"}"#, &users);
    assert_eq!(hello.ack.as_deref(), Some("E0"));
    assert!(hello.event.is_none() && !hello.disconnect);
    let bye = handle_message(
        r#"{"type":"disconnect","payload":{"event":{"type":"member_joined_channel","channel":"C"}}}"#,
        &users,
    );
    assert!(bye.disconnect);
    assert!(bye.event.is_none() && bye.ack.is_none());
    let garbage = handle_message("not json", &users);
    assert!(garbage.ack.is_none() && garbage.event.is_none() && !garbage.disconnect);
    let bare = handle_frame(Some(&parse(r#"{"payload":{}}"#)), &users);
    assert!(bare.ack.is_none() && bare.event.is_none() && !bare.disconnect);
    let none = handle_frame(None, &users);
    assert!(none.ack.is_none() && none.event.is_none() && !none.disconnect);
}

#[test]
fn acknowledgment_comes_before_the_event() {
    let frame = r#"{"envelope_id":"E7","payload":{"event":{"type":"member_joined_channel","channel":"C1"}}}"#;
    let steps = handle_message(frame, &directory()).actions();
    assert_eq!(steps.len(), 2);
    assert!(matches!(&steps[0], FrameAction::Acknowledge(text) if text == r#"{"envelope_id":"E7"}"#));
    assert!(matches!(&steps[1], FrameAction::Deliver(SlackEvent::ChannelJoined { channel }) if channel == "C1"));
    let hello = handle_message(r#"{"type":"hello"}"#, &directory()).actions();
    assert!(hello.is_empty());
    let bare = handle_message(r#"{"envelope_id":"E8"}"#, &directory()).actions();
    assert_eq!(bare.len(), 1);
    assert!(matches!(&bare[0], FrameAction::Acknowledge(_)));
}

#[test]
fn ack_frame_echoes_the_envelope_id() {
    assert_eq!(ack_frame("E-1"), r#"{"envelope_id":"E-1"}"#);
    assert_eq!(ack_frame("a\"b"), r#"{"envelope_id":"a\"b"}"#);
}

#[test]
fn unknown_authors_ask_for_a_refresh_of_a_stale_cache() {
    let frame = parse(r#"{"payload":{"event":{"type":"message","user":"U9","channel":"C","text":"x","ts":"1.0"}}}"#);
    let mut cache = UserCache::new();
    assert!(needs_refresh(&frame, &cache, 0));
    cache.refresh(Some(Vec::new()), 0);
    assert!(!needs_refresh(&frame, &cache, 1));
    assert!(needs_refresh(&frame, &cache, 600_000));
    let typing = parse(r#"{"payload":{"event":{"type":"user_typing","user":"U9","channel":"C"}}}"#);
    assert!(!needs_refresh(&typing, &UserCache::new(), 0));
}

#[test]
fn reconnect_backoff_doubles_up_to_the_ceiling_and_resets() {
    assert_eq!(INITIAL_BACKOFF_MS, 1000);
    assert_eq!(MAX_RECONNECT_BACKOFF_MS, 30_000);
    assert_eq!(IDLE_TIMEOUT_MS, 60_000);
    let mut c = client();
    let waits: Vec<u64> = (0..8).map(|_| c.run(SessionEnd::Failed)).collect();
    assert_eq!(waits, vec![1000, 2000, 4000, 8000, 16000, 30000, 30000, 30000]);
    assert_eq!(c.run(SessionEnd::Graceful), 0);
    assert_eq!(c.backoff_ms, 1000);
    assert_eq!(c.run(SessionEnd::Failed), 1000);
    assert_eq!(c.xapp_token, "xapp-test");
    assert_eq!(c.xoxp_token, "xoxp-test");
}

#[test]
fn session_moves_through_its_phases() {
    let mut c = client();
    assert_eq!(c.phase, SessionPhase::Disconnected);
    assert_eq!(c.connect_and_listen(SessionInput::Idle), SessionAction::Nothing);
    assert_eq!(c.connect_and_listen(SessionInput::Start), SessionAction::Connect);
    assert_eq!(c.phase, SessionPhase::Connecting);
    assert_eq!(c.connect_and_listen(SessionInput::Opened), SessionAction::AnnounceAndRead);
    assert_eq!(c.phase, SessionPhase::Handshaking);
    assert_eq!(c.connect_and_listen(SessionInput::Idle), SessionAction::Read);
    assert_eq!(c.phase, SessionPhase::Handshaking);
    assert_eq!(
        c.connect_and_listen(SessionInput::Frame { disconnect: false }),
        SessionAction::ProcessAndRead
    );
    assert_eq!(c.phase, SessionPhase::Live);
    assert_eq!(c.connect_and_listen(SessionInput::Other), SessionAction::Read);
    assert_eq!(c.connect_and_listen(SessionInput::Idle), SessionAction::Read);
    assert_eq!(c.phase, SessionPhase::Live);
    assert_eq!(
        c.connect_and_listen(SessionInput::Closed),
        SessionAction::End(SessionEnd::Graceful)
    );
    assert_eq!(c.phase, SessionPhase::Disconnected);
}

#[test]
fn session_ends_on_disconnect_and_failure() {
    let mut c = client();
    c.connect_and_listen(SessionInput::Start);
    assert_eq!(
        c.connect_and_listen(SessionInput::Failed),
        SessionAction::End(SessionEnd::Failed)
    );
    assert_eq!(c.phase, SessionPhase::Disconnected);
    c.connect_and_listen(SessionInput::Start);
    c.connect_and_listen(SessionInput::Opened);
    assert_eq!(
        c.connect_and_listen(SessionInput::Frame { disconnect: true }),
        SessionAction::End(SessionEnd::Graceful)
    );
    assert_eq!(c.phase, SessionPhase::Disconnected);
    c.connect_and_listen(SessionInput::Start);
    c.connect_and_listen(SessionInput::Opened);
    c.connect_and_listen(SessionInput::Frame { disconnect: false });
    assert_eq!(
        c.connect_and_listen(SessionInput::Failed),
        SessionAction::End(SessionEnd::Failed)
    );
    assert_eq!(c.connect_and_listen(SessionInput::Start), SessionAction::Connect);
    assert_eq!(c.connect_and_listen(SessionInput::Start), SessionAction::Nothing);
}
