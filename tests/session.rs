use ws_chat::codec::{ChatPacket, ChatPacketType};
use ws_chat::registry::{Registry, RegistryError};
use ws_chat::session::{HeartbeatAction, SessionAction, SessionState, WsSession, CLIENT_TIMEOUT_MS};
use ws_chat::text::decimal_text;
use ws_chat::transport::Frame;

const T: &str = "2024-01-02 03:04:05";

fn active(id: u64, now: u64) -> WsSession {
    let mut s = WsSession::new(now);
    s.registered(Ok(id));
    s
}

fn binary(t: ChatPacketType, m: &str) -> Frame {
    Frame::Binary(ChatPacket::new(t, m.to_string()).serialize())
}

fn broadcast_of(a: SessionAction) -> ChatPacket {
    match a {
        SessionAction::Broadcast(p) => p,
        other => panic!("expected a broadcast, got {:?}", other),
    }
}

#[test]
fn decimal_ids() {
    assert_eq!(decimal_text(0), "0");
    assert_eq!(decimal_text(7), "7");
    assert_eq!(decimal_text(10), "10");
    assert_eq!(decimal_text(18446744073709551615), "18446744073709551615");
}

#[test]
fn login_sets_name_and_broadcasts_audit_line() {
    let mut s = active(4, 0);
    let p = broadcast_of(s.handle(binary(ChatPacketType::Login, "Alice"), 10, T));
    assert_eq!(p.packet_type, ChatPacketType::Login);
    assert_eq!(p.packet_message, "[2024-01-02 03:04:05] ID_4 set name to Alice");
    assert_eq!(s.name.as_deref(), Some("Alice"));
    assert_eq!(s.heartbeat, 10);
}

#[test]
fn second_login_reports_change() {
    let mut s = active(12, 0);
    s.handle(binary(ChatPacketType::Login, "Alice"), 1, T);
    let p = broadcast_of(s.handle(binary(ChatPacketType::Login, "Bob"), 2, T));
    assert_eq!(p.packet_message, "[2024-01-02 03:04:05] ID_12 changed name from Alice to Bob");
    assert_eq!(s.name.as_deref(), Some("Bob"));
}

#[test]
fn chat_is_prefixed_with_time_and_name() {
    let mut s = active(1, 0);
    s.handle(binary(ChatPacketType::Login, "Alice"), 1, T);
    let p = broadcast_of(s.handle(binary(ChatPacketType::Chat, "hello"), 2, T));
    assert_eq!(p.packet_type, ChatPacketType::Chat);
    assert_eq!(p.packet_message, "[2024-01-02 03:04:05] Alice: hello");
}

#[test]
fn chat_without_name_uses_id() {
    let mut s = active(3, 0);
    let p = broadcast_of(s.handle(binary(ChatPacketType::Chat, "hey"), 2, T));
    assert_eq!(p.packet_message, "[2024-01-02 03:04:05] ID_3: hey");
}

#[test]
fn unknown_type_closes_only_that_session() {
    let mut reg: Registry<u8> = Registry::new(8);
    let mut a = WsSession::new(0);
    a.registered(reg.connect(1));
    let mut b = WsSession::new(0);
    b.registered(reg.connect(2));
    let action = a.handle(Frame::Binary(vec![7, b'x']), 5, T);
    assert!(matches!(action, SessionAction::Close));
    assert_eq!(a.state, SessionState::Closing);
    if let Some(id) = a.stopping() {
        reg.disconnect(id);
    }
    assert_eq!(a.state, SessionState::Closed);
    assert_eq!(b.state, SessionState::Active);
    let d = reg.broadcast(&ChatPacket::new(ChatPacketType::Chat, "x".to_string()));
    assert_eq!(d.recipients, vec![b.id]);
}

#[test]
fn undecodable_frame_closes_session() {
    let mut s = active(1, 0);
    assert!(matches!(s.handle(Frame::Binary(vec![]), 1, T), SessionAction::Close));
    let mut s = active(1, 0);
    assert!(matches!(s.handle(Frame::Binary(vec![2, 0xFF, 0xFE]), 1, T), SessionAction::Close));
    assert_eq!(s.state, SessionState::Closing);
}

#[test]
fn close_packet_and_close_frame_close_session() {
    let mut s = active(1, 0);
    assert!(matches!(s.handle(binary(ChatPacketType::Close, ""), 1, T), SessionAction::Close));
    let mut s = active(1, 0);
    assert!(matches!(s.handle(Frame::Close, 1, T), SessionAction::Close));
    assert_eq!(s.state, SessionState::Closing);
}

#[test]
fn ping_is_answered_and_refreshes_heartbeat() {
    let mut s = active(1, 0);
    assert!(matches!(s.handle(Frame::Ping(vec![]), 42, T), SessionAction::Pong));
    assert_eq!(s.heartbeat, 42);
    assert!(matches!(s.handle(Frame::Pong(vec![]), 50, T), SessionAction::Nothing));
    assert_eq!(s.heartbeat, 50);
    assert!(matches!(s.handle(Frame::Text("t".to_string()), 60, T), SessionAction::Nothing));
    assert_eq!(s.heartbeat, 50);
}

#[test]
fn refused_registration_closes() {
    let mut s = WsSession::new(0);
    s.registered(Err(RegistryError::RegistryFull));
    assert_eq!(s.state, SessionState::Closed);
    assert!(matches!(s.handle(Frame::Ping(vec![]), 1, T), SessionAction::Nothing));
    assert_eq!(s.stopping(), None);
}

#[test]
fn silent_session_is_evicted() {
    let mut reg: Registry<u8> = Registry::new(8);
    let mut s = WsSession::new(1000);
    s.registered(reg.connect(0));
    assert_eq!(s.heartbeat_tick(1000 + CLIENT_TIMEOUT_MS), HeartbeatAction::Probe);
    assert_eq!(s.heartbeat_tick(1001 + CLIENT_TIMEOUT_MS), HeartbeatAction::Evict(s.id));
    assert_eq!(s.state, SessionState::Closing);
    reg.disconnect(s.id);
    assert_eq!(reg.len(), 0);
    assert_eq!(s.heartbeat_tick(99_999), HeartbeatAction::Idle);
}

#[test]
fn delivery_refreshes_heartbeat() {
    let mut s = active(1, 0);
    let p = ChatPacket::new(ChatPacketType::Chat, "ok".to_string());
    assert!(matches!(s.deliver(p.serialize(), 77), Frame::Binary(ref b) if b == &vec![2, b'o', b'k']));
    assert_eq!(s.heartbeat, 77);
}
