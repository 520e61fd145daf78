//! The client's text commands, the address check before connecting, and how
//! inbound frames read to the user.

use crate::codec::{decode_frame, ChatPacket, ChatPacketType, DecodeError};
use crate::transport::Frame;
use vstd::prelude::*;
use vstd::string::*;

verus! {

/// What one line typed by the user asks for.
#[derive(Debug)]
pub enum Command {
    /// An empty line.
    Ignore,
    /// `connect <url>`: replace any connection with one to this address.
    Connect(String),
    /// `exit`: close the current connection.
    Exit,
    /// A login or chat packet to send.
    Send(ChatPacket),
}

/// Why a connection was not attempted.
#[derive(Clone, Copy, Debug, PartialEq, Eq, Structural)]
pub enum ConnectError {
    /// The address does not parse as an absolute URL.
    InvalidAddress,
}

/// What an inbound frame means to the user.
#[derive(Debug)]
pub enum InboundEvent {
    /// A line to show as it is.
    Show(String),
    /// A departure notice; the connection is not to be used again.
    Left(String),
    /// The transport closed; the connection is to be dropped.
    ConnectionClosed,
    /// A frame that did not decode; the connection stays.
    Undecodable(DecodeError),
    /// Nothing to show.
    Ignored,
}

/// True when `s` begins with `p`.
pub open spec fn has_prefix(s: Seq<char>, p: Seq<char>) -> bool {
    p.len() <= s.len() && s.subrange(0, p.len() as int) == p
}

/// Whether `url::Url::parse` accepts the text.
pub uninterp spec fn url_accepts(s: Seq<char>) -> bool;

/// Relies on `url::Url::parse`: whether it accepts a text depends on the text
/// alone, and it refuses the empty text (a relative URL without a base).
#[verifier::external_body]
fn url_parses(address: &str) -> (r: bool)
    ensures
        r == url_accepts(address@),
        address@.len() == 0 ==> !r,
{
    url::Url::parse(address).is_ok()
}

/// True when `s` begins with `p`.
pub fn starts_with(s: &str, p: &str) -> (r: bool)
    ensures
        r == has_prefix(s@, p@),
{
    let n = p.unicode_len();
    let m = s.unicode_len();
    if n > m {
        return false;
    }
    let mut i: usize = 0;
    while i < n
        invariant
            n == p@.len(),
            m == s@.len(),
            n <= m,
            i <= n,
            s@.subrange(0, i as int) == p@.subrange(0, i as int),
        decreases n - i,
    {
        if s.get_char(i) != p.get_char(i) {
            assert(s@.subrange(0, n as int)[i as int] != p@[i as int]);
            return false;
        }
        i = i + 1;
        assert(s@.subrange(0, i as int) =~= p@.subrange(0, i as int));
    }
    assert(p@.subrange(0, n as int) =~= p@);
    true
}

/// Reads one typed line. `connect <url>`, `exit` and `login <name>` are
/// commands; any other non-empty line is a chat message.
pub fn parse_command(line: &str) -> (r: Command)
    ensures
        line@.len() == 0 ==> r is Ignore,
        has_prefix(line@, "connect "@) ==> r is Connect && r->Connect_0@ == line@.subrange(
            8,
            line@.len() as int,
        ),
        !has_prefix(line@, "connect "@) && has_prefix(line@, "exit"@) ==> r is Exit,
        !has_prefix(line@, "connect "@) && !has_prefix(line@, "exit"@) && has_prefix(
            line@,
            "login "@,
        ) ==> r is Send && r->Send_0@ == (ChatPacketType::Login, line@.subrange(
            6,
            line@.len() as int,
        )),
        line@.len() > 0 && !has_prefix(line@, "connect "@) && !has_prefix(line@, "exit"@)
            && !has_prefix(line@, "login "@) ==> r is Send && r->Send_0@ == (
            ChatPacketType::Chat,
            line@,
        ),
{
    proof {
        reveal_strlit("connect ");
        reveal_strlit("exit");
        reveal_strlit("login ");
    }
    let n = line.unicode_len();
    if n == 0 {
        return Command::Ignore;
    }
    if starts_with(line, "connect ") {
        let url = line.substring_char(8, n);
        Command::Connect(String::from_str(url))
    } else if starts_with(line, "exit") {
        Command::Exit
    } else if starts_with(line, "login ") {
        let name = line.substring_char(6, n);
        Command::Send(ChatPacket::new(ChatPacketType::Login, String::from_str(name)))
    } else {
        Command::Send(ChatPacket::new(ChatPacketType::Chat, String::from_str(line)))
    }
}

/// Turns the address check's answer into the address to connect to, or
/// `InvalidAddress`.
pub fn connect_target(address: &str, accepted: bool) -> (r: Result<String, ConnectError>)
    ensures
        r is Ok <==> accepted,
        r is Ok ==> r->Ok_0@ == address@,
        r is Err ==> r == Err::<String, ConnectError>(ConnectError::InvalidAddress),
{
    if accepted {
        Ok(String::from_str(address))
    } else {
        Err(ConnectError::InvalidAddress)
    }
}

/// Checks an address before a connection is attempted: it must parse as an
/// absolute URL.
pub fn plan_connect(address: &str) -> (r: Result<String, ConnectError>)
    ensures
        r is Ok <==> url_accepts(address@),
        r is Ok ==> r->Ok_0@ == address@,
        r is Err ==> r == Err::<String, ConnectError>(ConnectError::InvalidAddress),
        address@.len() == 0 ==> r is Err,
{
    let accepted = url_parses(address);
    connect_target(address, accepted)
}

/// The notice for a departure: `"<name> has left the chat"`.
pub open spec fn left_line(message: Seq<char>) -> Seq<char> {
    message + " has left the chat"@
}

/// What an inbound frame means to the user: login and chat lines are shown
/// as they are, a close packet is a departure, a transport close ends the
/// connection, and a frame that does not decode is reported.
pub fn interpret(frame: Frame) -> (r: InboundEvent)
    ensures
        match frame {
            Frame::Binary(b) => match decode_frame(b@) {
                Ok(p) => if p.0 == ChatPacketType::Login || p.0 == ChatPacketType::Chat {
                    r is Show && r->Show_0@ == p.1
                } else if p.0 == ChatPacketType::Close {
                    r is Left && r->Left_0@ == left_line(p.1)
                } else {
                    r is Ignored
                },
                Err(e) => r is Undecodable && r->Undecodable_0 == e,
            },
            Frame::Close => r is ConnectionClosed,
            _ => r is Ignored,
        },
{
    match frame {
        Frame::Binary(bytes) => match ChatPacket::deserialize(bytes) {
            Ok(packet) => match packet.packet_type {
                ChatPacketType::Login => InboundEvent::Show(packet.packet_message),
                ChatPacketType::Chat => InboundEvent::Show(packet.packet_message),
                ChatPacketType::Close => {
                    let mut line = packet.packet_message;
                    line.append(" has left the chat");
                    InboundEvent::Left(line)
                },
                ChatPacketType::Unknown => InboundEvent::Ignored,
            },
            Err(e) => InboundEvent::Undecodable(e),
        },
        Frame::Close => InboundEvent::ConnectionClosed,
        _ => InboundEvent::Ignored,
    }
}

} // verus!
