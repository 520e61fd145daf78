//! The wire format: one type byte followed by the message's UTF-8 bytes.

use vstd::prelude::*;
use vstd::string::*;
use vstd::utf8::*;

verus! {

broadcast use vstd::utf8::encode_utf8_valid_utf8, vstd::utf8::encode_utf8_decode_utf8;

/// The kind of an application packet.
#[derive(Clone, Copy, Debug, PartialEq, Eq, Structural)]
pub enum ChatPacketType {
    Unknown,
    /// A client announces its display name; the server relays an audit line.
    Login,
    /// A chat line.
    Chat,
    /// The sender leaves.
    Close,
}

/// The tag byte written for a packet type.
pub open spec fn tag_of(t: ChatPacketType) -> u8 {
    match t {
        ChatPacketType::Login => 1,
        ChatPacketType::Chat => 2,
        ChatPacketType::Close => 3,
        ChatPacketType::Unknown => 0,
    }
}

/// The packet type read from a tag byte; unmapped bytes read as `Unknown`.
pub open spec fn type_of_tag(b: u8) -> ChatPacketType {
    if b == 1 {
        ChatPacketType::Login
    } else if b == 2 {
        ChatPacketType::Chat
    } else if b == 3 {
        ChatPacketType::Close
    } else {
        ChatPacketType::Unknown
    }
}

impl From<u8> for ChatPacketType {
    fn from(byte: u8) -> Self {
        match byte {
            1 => ChatPacketType::Login,
            2 => ChatPacketType::Chat,
            3 => ChatPacketType::Close,
            _ => ChatPacketType::Unknown,
        }
    }
}

impl vstd::std_specs::convert::FromSpecImpl<u8> for ChatPacketType {
    open spec fn obeys_from_spec() -> bool {
        true
    }

    open spec fn from_spec(v: u8) -> Self {
        type_of_tag(v)
    }
}

impl From<ChatPacketType> for u8 {
    fn from(packet_type: ChatPacketType) -> Self {
        match packet_type {
            ChatPacketType::Login => 1,
            ChatPacketType::Chat => 2,
            ChatPacketType::Close => 3,
            ChatPacketType::Unknown => 0,
        }
    }
}

impl vstd::std_specs::convert::FromSpecImpl<ChatPacketType> for u8 {
    open spec fn obeys_from_spec() -> bool {
        true
    }

    open spec fn from_spec(v: ChatPacketType) -> Self {
        tag_of(v)
    }
}

/// Why a frame could not be read as a packet.
#[derive(Clone, Copy, Debug, PartialEq, Eq, Structural)]
pub enum DecodeError {
    /// The frame holds no type byte.
    EmptyFrame,
    /// The bytes after the type byte are not valid UTF-8.
    InvalidText,
}

/// One application message: a type and a text.
#[derive(Clone, Debug)]
pub struct ChatPacket {
    pub packet_type: ChatPacketType,
    pub packet_message: String,
}

impl View for ChatPacket {
    type V = (ChatPacketType, Seq<char>);

    open spec fn view(&self) -> (ChatPacketType, Seq<char>) {
        (self.packet_type, self.packet_message@)
    }
}

impl PartialEq for ChatPacket {
    fn eq(&self, other: &ChatPacket) -> bool {
        self.packet_type == other.packet_type && self.packet_message == other.packet_message
    }
}

impl vstd::std_specs::cmp::PartialEqSpecImpl for ChatPacket {
    open spec fn obeys_eq_spec() -> bool {
        true
    }

    open spec fn eq_spec(&self, other: &ChatPacket) -> bool {
        self@ == other@
    }
}

/// The bytes of a packet on the wire.
pub open spec fn encode_packet(p: (ChatPacketType, Seq<char>)) -> Seq<u8> {
    seq![tag_of(p.0)] + encode_utf8(p.1)
}

/// What a frame reads as.
pub open spec fn decode_frame(b: Seq<u8>) -> Result<(ChatPacketType, Seq<char>), DecodeError> {
    if b.len() == 0 {
        Err(DecodeError::EmptyFrame)
    } else if !valid_utf8(b.drop_first()) {
        Err(DecodeError::InvalidText)
    } else {
        Ok((type_of_tag(b[0]), decode_utf8(b.drop_first())))
    }
}

/// The model of a decoding result.
pub open spec fn decoded_view(r: Result<ChatPacket, DecodeError>) -> Result<
    (ChatPacketType, Seq<char>),
    DecodeError,
> {
    match r {
        Ok(p) => Ok(p@),
        Err(e) => Err(e),
    }
}

/// Relies on `String::from_utf8`: it accepts exactly the valid UTF-8 byte
/// strings, and the string it returns holds the characters they encode.
#[verifier::external_body]
fn text_from_utf8(bytes: Vec<u8>) -> (r: Option<String>)
    ensures
        r is Some <==> valid_utf8(bytes@),
        r is Some ==> r->Some_0@ == decode_utf8(bytes@),
{
    String::from_utf8(bytes).ok()
}

impl ChatPacket {
    pub fn new(packet_type: ChatPacketType, packet_message: String) -> (r: Self)
        ensures
            r.packet_type == packet_type,
            r.packet_message@ == packet_message@,
    {
        ChatPacket { packet_type, packet_message }
    }

    /// The packet's wire bytes: the type tag, then the message's UTF-8 bytes.
    pub fn serialize(&self) -> (r: Vec<u8>)
        ensures
            r@ == encode_packet(self@),
    {
        let mut out: Vec<u8> = Vec::new();
        let tag: u8 = u8::from(self.packet_type);
        out.push(tag);
        let bytes = self.packet_message.as_str().as_bytes();
        let n: usize = bytes.len();
        let mut i: usize = 0;
        while i < n
            invariant
                n == bytes@.len(),
                i <= n,
                out@ == seq![tag] + bytes@.subrange(0, i as int),
            decreases n - i,
        {
            out.push(bytes[i]);
            i = i + 1;
            assert(out@ =~= seq![tag] + bytes@.subrange(0, i as int));
        }
        assert(bytes@.subrange(0, n as int) =~= bytes@);
        out
    }

    /// Reads one frame as a packet. An empty frame and a frame whose text is
    /// not valid UTF-8 are errors; an unmapped type byte reads as `Unknown`.
    pub fn deserialize(packet: Vec<u8>) -> (r: Result<ChatPacket, DecodeError>)
        ensures
            decoded_view(r) == decode_frame(packet@),
    {
        let n: usize = packet.len();
        if n == 0 {
            return Err(DecodeError::EmptyFrame);
        }
        let packet_type = ChatPacketType::from(packet[0]);
        let mut rest: Vec<u8> = Vec::new();
        let mut i: usize = 1;
        while i < n
            invariant
                n == packet@.len(),
                1 <= i <= n,
                rest@ == packet@.subrange(1, i as int),
            decreases n - i,
        {
            rest.push(packet[i]);
            i = i + 1;
            assert(rest@ =~= packet@.subrange(1, i as int));
        }
        assert(rest@ =~= packet@.drop_first());
        match text_from_utf8(rest) {
            Some(packet_message) => Ok(ChatPacket { packet_type, packet_message }),
            None => Err(DecodeError::InvalidText),
        }
    }
}

/// Decoding what was encoded gives the packet back: the type and the text.
pub proof fn lemma_round_trip(p: (ChatPacketType, Seq<char>))
    ensures
        decode_frame(encode_packet(p)) == Ok::<(ChatPacketType, Seq<char>), DecodeError>(p),
{
    let b = encode_packet(p);
    assert(b.drop_first() =~= encode_utf8(p.1));
}

/// Encoding what was decoded gives the frame back, except that an unmapped
/// type byte comes back as the `Unknown` tag.
pub proof fn lemma_reencode(b: Seq<u8>)
    requires
        decode_frame(b) is Ok,
    ensures
        encode_packet(decode_frame(b)->Ok_0) == seq![tag_of(type_of_tag(b[0]))] + b.drop_first(),
        type_of_tag(b[0]) == ChatPacketType::Unknown ==> encode_packet(decode_frame(b)->Ok_0)[0]
            == 0,
{
    vstd::utf8::decode_utf8_encode_utf8(b.drop_first());
}

/// An empty frame fails with `EmptyFrame`.
pub proof fn lemma_empty_frame()
    ensures
        decode_frame(Seq::<u8>::empty()) == Err::<(ChatPacketType, Seq<char>), DecodeError>(
            DecodeError::EmptyFrame,
        ),
{
}

/// A type byte followed by the bytes 0xFF 0xFE fails with `InvalidText`,
/// whatever the type byte.
pub proof fn lemma_invalid_text(tag: u8)
    ensures
        decode_frame(seq![tag, 0xFFu8, 0xFEu8]) == Err::<(ChatPacketType, Seq<char>), DecodeError>(
            DecodeError::InvalidText,
        ),
{
    let b = seq![tag, 0xFFu8, 0xFEu8];
    assert(b.drop_first() =~= seq![0xFFu8, 0xFEu8]);
    assert(!valid_first_scalar(seq![0xFFu8, 0xFEu8]));
}

} // verus!
