use ws_chat::client::{ReaderStep, WsClient};
use ws_chat::codec::{ChatPacket, ChatPacketType};
use ws_chat::command::{interpret, parse_command, Command, InboundEvent};
use ws_chat::registry::Registry;
use ws_chat::session::{SessionAction, WsSession};
use ws_chat::transport::Frame;

const T: &str = "2024-05-06 07:08:09";

fn typed(line: &str) -> Frame {
    match parse_command(line) {
        Command::Send(p) => Frame::Binary(p.serialize()),
        other => panic!("expected a packet, got {:?}", other),
    }
}

#[test]
fn login_reaches_every_session_including_sender() {
    let mut reg: Registry<u8> = Registry::new(8);
    let mut a = WsSession::new(0);
    a.registered(reg.connect(0));
    let mut b = WsSession::new(0);
    b.registered(reg.connect(1));
    let p = match a.handle(typed("login Alice"), 1, T) {
        SessionAction::Broadcast(p) => p,
        other => panic!("{:?}", other),
    };
    let d = reg.broadcast(&p);
    assert_eq!(d.recipients, vec![a.id, b.id]);
    let got = ChatPacket::deserialize(d.bytes).unwrap();
    assert_eq!(got.packet_type, ChatPacketType::Login);
    assert_eq!(got.packet_message, format!("[{}] ID_{} set name to Alice", T, a.id));
}

#[test]
fn chat_from_alice_reaches_bob() {
    let mut reg: Registry<u8> = Registry::new(8);
    let mut a = WsSession::new(0);
    a.registered(reg.connect(0));
    let mut b = WsSession::new(0);
    b.registered(reg.connect(1));
    a.handle(typed("login Alice"), 1, T);
    let p = match a.handle(typed("hello"), 2, T) {
        SessionAction::Broadcast(p) => p,
        other => panic!("{:?}", other),
    };
    let d = reg.broadcast(&p);
    assert!(d.recipients.contains(&b.id));
    let frame = b.deliver(d.bytes.clone(), 3);
    assert!(matches!(frame, Frame::Binary(ref bytes) if bytes == &d.bytes));
    let mut bob = WsClient::new();
    assert_eq!(bob.received(frame), ReaderStep::Queued);
    let frame = bob.recv().unwrap().unwrap();
    match interpret(frame) {
        InboundEvent::Show(line) => assert_eq!(line, "[2024-05-06 07:08:09] Alice: hello"),
        other => panic!("{:?}", other),
    }
}
