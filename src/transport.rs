//! Transport frames: what one message of the duplex channel carries, before
//! any packet decoding.

use vstd::prelude::*;

verus! {

/// One transport message. Ping, pong and close are control frames; a binary
/// frame carries one encoded packet.
#[derive(Clone, Debug)]
pub enum Frame {
    Binary(Vec<u8>),
    Text(String),
    Ping(Vec<u8>),
    Pong(Vec<u8>),
    Close,
}

} // verus!
