use ws_chat::client::{ClientError, ReaderStep, WriterStep, WsClient};
use ws_chat::codec::{ChatPacket, ChatPacketType, DecodeError};
use ws_chat::command::{interpret, parse_command, plan_connect, Command, ConnectError, InboundEvent};
use ws_chat::transport::Frame;

#[test]
fn send_after_disconnect_fails() {
    let mut c = WsClient::new();
    assert!(c.send(Frame::Text("a".to_string())).is_ok());
    assert!(c.disconnect().is_ok());
    assert!(!c.is_connected());
    assert_eq!(c.send(Frame::Text("b".to_string())), Err(ClientError::NotConnected));
    assert_eq!(c.send(Frame::Close), Err(ClientError::NotConnected));
    assert!(c.disconnect().is_ok());
    c.set_connected(true);
    assert!(!c.is_connected());
}

#[test]
fn writer_drains_in_order_then_stops() {
    let mut c = WsClient::new();
    c.send(Frame::Text("1".to_string())).unwrap();
    c.send(Frame::Text("2".to_string())).unwrap();
    assert!(matches!(c.next_outbound(), WriterStep::Write(Frame::Text(ref s)) if s == "1"));
    assert!(matches!(c.next_outbound(), WriterStep::Write(Frame::Text(ref s)) if s == "2"));
    assert!(matches!(c.next_outbound(), WriterStep::Wait));
    c.disconnect().unwrap();
    assert!(matches!(c.next_outbound(), WriterStep::Write(Frame::Close)));
    assert!(matches!(c.next_outbound(), WriterStep::Stop));
    assert!(!c.ping_tick());
}

#[test]
fn reader_answers_ping_and_queues_the_rest() {
    let mut c = WsClient::new();
    assert_eq!(c.received(Frame::Ping(vec![1])), ReaderStep::ReplyPong);
    assert_eq!(c.received(Frame::Binary(vec![2, b'x'])), ReaderStep::Queued);
    assert!(matches!(c.recv(), Ok(Some(Frame::Binary(ref b))) if b == &vec![2, b'x']));
    assert!(matches!(c.recv(), Ok(None)));
    c.transport_closed();
    assert!(!c.is_connected());
    assert!(matches!(c.recv(), Err(ClientError::Closed)));
    assert_eq!(c.received(Frame::Close), ReaderStep::Stop);
    assert_eq!(c.send(Frame::Close), Err(ClientError::NotConnected));
}

#[test]
fn pinger_queues_pings_while_live() {
    let mut c = WsClient::new();
    assert!(c.ping_tick());
    assert!(matches!(c.next_outbound(), WriterStep::Write(Frame::Ping(ref p)) if p.is_empty()));
}

#[test]
fn commands_parse() {
    assert!(matches!(parse_command(""), Command::Ignore));
    assert!(matches!(parse_command("connect ws://127.0.0.1:3000/"), Command::Connect(ref u) if u == "ws://127.0.0.1:3000/"));
    assert!(matches!(parse_command("exit"), Command::Exit));
    assert!(matches!(parse_command("exit now"), Command::Exit));
    match parse_command("login Alice") {
        Command::Send(p) => assert_eq!(p, ChatPacket::new(ChatPacketType::Login, "Alice".to_string())),
        other => panic!("{:?}", other),
    }
    match parse_command("hello") {
        Command::Send(p) => assert_eq!(p, ChatPacket::new(ChatPacketType::Chat, "hello".to_string())),
        other => panic!("{:?}", other),
    }
    match parse_command("login") {
        Command::Send(p) => assert_eq!(p, ChatPacket::new(ChatPacketType::Chat, "login".to_string())),
        other => panic!("{:?}", other),
    }
}

#[test]
fn exit_without_connection_sends_nothing() {
    let mut c: Option<WsClient> = None;
    assert!(matches!(parse_command("exit"), Command::Exit));
    let sent = match c.as_mut() {
        Some(client) => client.disconnect().is_ok(),
        None => false,
    };
    assert!(!sent);
}

#[test]
fn addresses_are_checked() {
    assert_eq!(plan_connect("ws://127.0.0.1:3000/").unwrap(), "ws://127.0.0.1:3000/");
    assert_eq!(plan_connect("not a url"), Err(ConnectError::InvalidAddress));
    assert_eq!(plan_connect(""), Err(ConnectError::InvalidAddress));
}

#[test]
fn inbound_frames_read_as_events() {
    let login = ChatPacket::new(ChatPacketType::Login, "[t] ID_1 set name to Alice".to_string()).serialize();
    assert!(matches!(interpret(Frame::Binary(login)), InboundEvent::Show(ref s) if s == "[t] ID_1 set name to Alice"));
    let chat = ChatPacket::new(ChatPacketType::Chat, "[t] Alice: hello".to_string()).serialize();
    assert!(matches!(interpret(Frame::Binary(chat)), InboundEvent::Show(ref s) if s == "[t] Alice: hello"));
    let close = ChatPacket::new(ChatPacketType::Close, "Bob".to_string()).serialize();
    assert!(matches!(interpret(Frame::Binary(close)), InboundEvent::Left(ref s) if s == "Bob has left the chat"));
    assert!(matches!(interpret(Frame::Binary(vec![9])), InboundEvent::Ignored));
    assert!(matches!(interpret(Frame::Binary(vec![])), InboundEvent::Undecodable(DecodeError::EmptyFrame)));
    assert!(matches!(interpret(Frame::Close), InboundEvent::ConnectionClosed));
    assert!(matches!(interpret(Frame::Pong(vec![])), InboundEvent::Ignored));
}
