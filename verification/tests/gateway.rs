use nexus_gateway::channels::gateway::{
    heartbeat, identify, ConnectionState, Frame, GatewayAction, GatewayError, GatewayEvent,
    GatewayPayload, GatewaySession, GatewayUser, HelloData, MentionUser, MessageCreateAuthor,
    MessageCreateData, PayloadData, ReadyData, Sent, GATEWAY_URL,
};
use nexus_gateway::messages::{InboundMessage, Timestamp};
use serde_json::Value;

const NOW: Timestamp = Timestamp { secs: 1700000000, nanos: 5 };

fn session() -> GatewaySession {
    GatewaySession::new("secret".to_string(), "chan".to_string())
}

fn no_data() -> PayloadData {
    PayloadData { hello: None, ready: None, message: None }
}

fn payload(op: u8, sequence: Option<u64>, event_type: Option<&str>, data: Option<PayloadData>) -> GatewayEvent {
    GatewayEvent::Received {
        frame: Frame::Text {
            payload: Some(GatewayPayload {
                op,
                data,
                sequence,
                event_type: event_type.map(|t| t.to_string()),
            }),
        },
    }
}

fn hello(interval: u64) -> GatewayEvent {
    let data = PayloadData { hello: Some(HelloData { heartbeat_interval: interval }), ..no_data() };
    payload(10, None, None, Some(data))
}

fn ready() -> GatewayEvent {
    let user = GatewayUser { id: "42".to_string(), username: "Nexus".to_string() };
    let data = PayloadData { ready: Some(ReadyData { user }), ..no_data() };
    payload(0, Some(1), Some("READY"), Some(data))
}

fn written(content: &str, channel: &str, bot: bool, mentions: &[&str]) -> MessageCreateData {
    MessageCreateData {
        id: "m1".to_string(),
        content: content.to_string(),
        channel_id: channel.to_string(),
        author: MessageCreateAuthor {
            id: "u1".to_string(),
            username: "Ann".to_string(),
            bot,
        },
        mentions: mentions.iter().map(|id| MentionUser { id: id.to_string() }).collect(),
    }
}

fn create(message: MessageCreateData) -> GatewayEvent {
    let data = PayloadData { message: Some(message), ..no_data() };
    payload(0, Some(2), Some("MESSAGE_CREATE"), Some(data))
}

fn sent(sent: Sent) -> GatewayEvent {
    GatewayEvent::SendDone { sent, failure: None }
}

fn failed(sent: Sent) -> GatewayEvent {
    GatewayEvent::SendDone { sent, failure: Some("broken pipe".to_string()) }
}

fn connected() -> GatewaySession {
    let mut s = session();
    s.step(hello(45000), NOW);
    s.step(sent(Sent::Identify), NOW);
    s.step(ready(), NOW);
    assert_eq!(s.state(), ConnectionState::Connected);
    s
}

fn delivered(text: &str) -> GatewayAction {
    GatewayAction::Deliver {
        message: InboundMessage {
            message_id: "m1".to_string(),
            channel_id: "discord".to_string(),
            user_id: "u1".to_string(),
            conversation_id: "chan".to_string(),
            text: text.to_string(),
            timestamp: NOW,
            metadata: Value::Null,
        },
    }
}

fn stop(error: GatewayError) -> GatewayAction {
    GatewayAction::Stop { failure: Some(error) }
}

#[test]
fn heartbeat_is_compact_json() {
    assert_eq!(heartbeat(None).to_string(), r#"{"d":null,"op":1}"#);
    assert_eq!(heartbeat(Some(0)).to_string(), r#"{"d":0,"op":1}"#);
    assert_eq!(heartbeat(Some(u64::MAX)).to_string(), r#"{"d":18446744073709551615,"op":1}"#);
}

#[test]
fn identify_names_token_intents_and_properties() {
    let expected: Value = serde_json::from_str(
        r#"{"op":2,"d":{"token":"se\"cret","intents":33280,
            "properties":{"os":"linux","browser":"nexus-gateway","device":"nexus-gateway"}}}"#,
    )
    .unwrap();
    assert_eq!(identify("se\"cret"), expected);
}

#[test]
fn gateway_speaks_version_ten() {
    assert_eq!(GATEWAY_URL, "wss://gateway.discord.gg/?v=10&encoding=json");
}

#[test]
fn new_session_waits_for_hello() {
    let mut s = session();
    assert_eq!(s.heartbeat_interval(), 41250);
    assert_eq!(s.state(), ConnectionState::WaitingForHello);
    assert_eq!(s.step(GatewayEvent::HeartbeatDue, NOW), GatewayAction::Wait);
}

#[test]
fn hello_is_answered_with_identify() {
    let mut s = session();
    let text = identify("secret").to_string();
    assert_eq!(
        s.step(hello(45000), NOW),
        GatewayAction::Identify { heartbeat_in_ms: 5000, text }
    );
    assert_eq!(s.heartbeat_interval(), 45000);
    assert_eq!(s.state(), ConnectionState::WaitingForHello);
    assert_eq!(s.step(sent(Sent::Identify), NOW), GatewayAction::Wait);
    assert_eq!(s.state(), ConnectionState::WaitingForReady);
    let mut quick = session();
    match quick.step(hello(300), NOW) {
        GatewayAction::Identify { heartbeat_in_ms, .. } => assert_eq!(heartbeat_in_ms, 300),
        other => panic!("{:?}", other),
    }
}

#[test]
fn unreadable_hello_is_ignored() {
    let mut s = session();
    assert_eq!(s.step(payload(10, None, None, Some(no_data())), NOW), GatewayAction::Wait);
    assert_eq!(s.step(payload(10, None, None, None), NOW), GatewayAction::Wait);
    assert_eq!(s.heartbeat_interval(), 41250);
}

#[test]
fn failed_identify_ends_the_session() {
    let mut s = session();
    s.step(hello(45000), NOW);
    let error = GatewayError::IdentifyFailed { detail: "broken pipe".to_string() };
    assert_eq!(error.message(), "broken pipe");
    assert_eq!(s.step(failed(Sent::Identify), NOW), stop(error));
}

#[test]
fn due_heartbeat_carries_the_last_number() {
    let mut s = connected();
    assert_eq!(
        s.step(GatewayEvent::HeartbeatDue, NOW),
        GatewayAction::SendHeartbeat {
            text: r#"{"d":1,"op":1}"#.to_string(),
            sent: Sent::DueHeartbeat,
        }
    );
    assert_eq!(s.step(sent(Sent::DueHeartbeat), NOW), GatewayAction::HeartbeatIn { ms: 45000 });
    assert_eq!(s.step(payload(11, Some(9), None, None), NOW), GatewayAction::Wait);
    assert_eq!(s.step(payload(11, None, None, None), NOW), GatewayAction::Wait);
    assert_eq!(
        s.step(GatewayEvent::HeartbeatDue, NOW),
        GatewayAction::SendHeartbeat {
            text: r#"{"d":9,"op":1}"#.to_string(),
            sent: Sent::DueHeartbeat,
        }
    );
}

#[test]
fn requested_heartbeat_is_sent_at_once() {
    let mut s = session();
    assert_eq!(
        s.step(payload(1, Some(3), None, None), NOW),
        GatewayAction::SendHeartbeat {
            text: r#"{"d":3,"op":1}"#.to_string(),
            sent: Sent::RequestedHeartbeat,
        }
    );
    assert_eq!(s.step(failed(Sent::RequestedHeartbeat), NOW), GatewayAction::Wait);
    assert_eq!(
        s.step(sent(Sent::RequestedHeartbeat), NOW),
        GatewayAction::HeartbeatIn { ms: 41250 }
    );
}

#[test]
fn failed_due_heartbeat_ends_the_session() {
    let error = GatewayError::HeartbeatFailed { detail: "broken pipe".to_string() };
    assert_eq!(error.message(), "Failed to send heartbeat: broken pipe");
    assert_eq!(connected().step(failed(Sent::DueHeartbeat), NOW), stop(error));
}

#[test]
fn call_by_name_is_delivered_without_the_name() {
    let mut s = connected();
    assert_eq!(
        s.step(create(written("nexus pause T-1 ", "chan", false, &[])), NOW),
        delivered("pause T-1")
    );
    assert_eq!(
        s.step(create(written("NEXUS <@42> hi", "chan", false, &["42"])), NOW),
        delivered("<@42> hi")
    );
    assert_eq!(
        s.step(create(written("nexusx hi", "chan", false, &[])), NOW),
        GatewayAction::Wait
    );
}

#[test]
fn mention_is_delivered_without_the_mention() {
    let mut s = connected();
    assert_eq!(
        s.step(create(written("hey <@!42> status", "chan", false, &["7", "42"])), NOW),
        delivered("hey  status")
    );
}

#[test]
fn messages_not_for_the_bot_are_not_delivered() {
    let mut s = connected();
    for message in [
        written("nexus hi", "elsewhere", false, &["42"]),
        written("nexus hi", "chan", true, &["42"]),
        written("hi <@42>", "chan", false, &[]),
        written("hi", "chan", false, &["7"]),
    ] {
        assert_eq!(s.step(create(message), NOW), GatewayAction::Wait);
    }
}

#[test]
fn nothing_is_delivered_before_ready() {
    let mut s = session();
    assert_eq!(
        s.step(create(written("nexus <@42> hi", "chan", false, &["42"])), NOW),
        GatewayAction::Wait
    );
}

#[test]
fn unknown_events_and_opcodes_are_ignored() {
    let mut s = connected();
    assert_eq!(s.step(payload(0, None, Some("TYPING_START"), Some(no_data())), NOW), GatewayAction::Wait);
    assert_eq!(s.step(payload(0, None, Some("READY"), None), NOW), GatewayAction::Wait);
    assert_eq!(s.step(payload(0, None, Some("READY"), Some(no_data())), NOW), GatewayAction::Wait);
    assert_eq!(s.step(payload(0, None, Some("MESSAGE_CREATE"), Some(no_data())), NOW), GatewayAction::Wait);
    assert_eq!(s.step(payload(0, None, None, Some(no_data())), NOW), GatewayAction::Wait);
    assert_eq!(s.step(payload(99, None, None, None), NOW), GatewayAction::Wait);
    for frame in [Frame::Text { payload: None }, Frame::Pong, Frame::Other] {
        assert_eq!(s.step(GatewayEvent::Received { frame }, NOW), GatewayAction::Wait);
    }
    assert_eq!(s.state(), ConnectionState::Connected);
}

#[test]
fn ping_is_answered() {
    let frame = Frame::Ping { data: vec![1, 2, 3] };
    assert_eq!(
        session().step(GatewayEvent::Received { frame }, NOW),
        GatewayAction::SendPong { data: vec![1, 2, 3] }
    );
}

#[test]
fn server_ends_the_session() {
    assert_eq!(
        session().step(payload(9, None, None, None), NOW),
        stop(GatewayError::SessionInvalidated)
    );
    assert_eq!(
        session().step(payload(7, None, None, None), NOW),
        stop(GatewayError::ReconnectRequested)
    );
    assert_eq!(GatewayError::SessionInvalidated.message(), "Discord session invalidated");
    assert_eq!(GatewayError::ReconnectRequested.message(), "Discord requested reconnect");
    assert_eq!(
        session().step(GatewayEvent::Received { frame: Frame::Close }, NOW),
        GatewayAction::Stop { failure: None }
    );
}

#[test]
fn broken_stream_ends_the_session() {
    let error = GatewayError::WebSocket { detail: "reset".to_string() };
    assert_eq!(error.message(), "WebSocket error: reset");
    assert_eq!(
        session().step(
            GatewayEvent::Received { frame: Frame::Failed { detail: "reset".to_string() } },
            NOW
        ),
        stop(error)
    );
    assert_eq!(GatewayError::StreamEnded.message(), "WebSocket stream ended");
    assert_eq!(
        session().step(GatewayEvent::Received { frame: Frame::Ended }, NOW),
        stop(GatewayError::StreamEnded)
    );
}

#[test]
fn shutdown_closes_the_socket() {
    assert_eq!(connected().step(GatewayEvent::Shutdown, NOW), GatewayAction::Close);
}

#[test]
fn frames_without_meaning_make_no_difference() {
    let noise = || {
        vec![
            GatewayEvent::Received { frame: Frame::Text { payload: None } },
            GatewayEvent::Received { frame: Frame::Pong },
            GatewayEvent::Received { frame: Frame::Other },
            payload(99, None, None, None),
            payload(11, None, None, None),
        ]
    };
    let story = || {
        vec![
            hello(45000),
            sent(Sent::Identify),
            ready(),
            create(written("nexus hi", "chan", false, &[])),
            GatewayEvent::HeartbeatDue,
            sent(Sent::DueHeartbeat),
            GatewayEvent::Shutdown,
        ]
    };
    let mut quiet = session();
    let expected: Vec<GatewayAction> = story().into_iter().map(|e| quiet.step(e, NOW)).collect();
    let mut noisy = session();
    for (event, answer) in story().into_iter().zip(expected) {
        for idle in noise() {
            assert_eq!(noisy.step(idle, NOW), GatewayAction::Wait);
        }
        assert_eq!(noisy.step(event, NOW), answer);
    }
    assert_eq!(noisy.state(), quiet.state());
}
